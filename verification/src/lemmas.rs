//! What holds of the reducer whatever the state and the messages are.

use crate::app::{cleared_lists, folded_lists, Message, TodoView};
use crate::filter::Filter;
use crate::lists_bar::{EditMessage, ListsBarMessage, NewListMessage, RegularMessage};
use crate::persistence::{restored_lists, saved_lists, SavedListView};
use crate::todo_item::{self, ItemMessage, TodoItemView};
use crate::todo_list::{TodoListMessage, TodoListView};
use vstd::prelude::*;

verus! {

impl TodoListView {
    /// Whether the list holds nothing but what is saved of it: its session
    /// state, and that of its items, is as after a load.
    pub open spec fn is_plain(self) -> bool {
        &&& self.input == Seq::<char>::empty()
        &&& !self.is_dirty
        &&& !self.is_editing
        &&& forall|i: int|
            0 <= i < self.todo_items.len() ==> !(#[trigger] self.todo_items[i]).editing
                && !self.todo_items[i].is_dirty
    }
}

impl Message {
    /// Whether the message reports a save that went through.
    pub open spec fn reports_saved(self) -> bool {
        self matches Message::Saved(Ok(_))
    }

    /// Whether the message touches the running session only: the entry
    /// fields, the filter, the selection, the edit modes and the status.
    pub open spec fn is_session_only(self) -> bool {
        match self {
            Message::SetFilter(_) => true,
            Message::Saved(_) => true,
            Message::List(_, TodoListMessage::InputEdit(_)) => true,
            Message::List(_, TodoListMessage::Item(_, item_message)) => item_message.completed_set()
                is None && !item_message.is_delete() && !(item_message matches ItemMessage::Edit(
                todo_item::EditMessage::Name(_),
            )),
            Message::List(_, TodoListMessage::NewSubmitted) => false,
            Message::ListsBar(ListsBarMessage::AddingList) => true,
            Message::ListsBar(ListsBarMessage::NewList(NewListMessage::Input(_))) => true,
            Message::ListsBar(ListsBarMessage::NewList(NewListMessage::Submit)) => false,
            Message::ListsBar(ListsBarMessage::Select(_)) => true,
            Message::ListsBar(ListsBarMessage::Regular(_, RegularMessage::StartEdit)) => true,
            Message::ListsBar(ListsBarMessage::Edit(_, EditMessage::Done)) => true,
            Message::ListsBar(ListsBarMessage::Edit(_, _)) => false,
        }
    }
}

impl TodoView {
    /// The state after a sequence of messages, applied first to last.
    pub open spec fn run(self, messages: Seq<Message>) -> TodoView
        decreases messages.len(),
    {
        if messages.len() == 0 {
            self
        } else {
            self.run(messages.drop_last()).step(messages.last())
        }
    }

    /// Whether no flag is up: not the application's, not a list's, not an
    /// item's.
    pub open spec fn is_clean(self) -> bool {
        &&& !self.is_dirty
        &&& forall|i: int|
            0 <= i < self.todo_lists.len() ==> !(#[trigger] self.todo_lists[i]).is_dirty
        &&& forall|i: int, j: int|
            0 <= i < self.todo_lists.len() && 0 <= j < self.todo_lists[i].todo_items.len()
                ==> !(#[trigger] self.todo_lists[i].todo_items[j]).is_dirty
    }
}

/// Raising flags changes nothing of what is saved.
pub proof fn lemma_fold_keeps_saved(lists: Seq<TodoListView>)
    ensures
        saved_lists(folded_lists(lists)) == saved_lists(lists),
{
    assert forall|i: int| 0 <= i < lists.len() implies lists[i].folded().saved()
        == lists[i].saved() by {
        assert(lists[i].folded().saved().todo_items =~= lists[i].saved().todo_items);
    }
    assert(saved_lists(folded_lists(lists)) =~= saved_lists(lists));
}

/// Lowering flags changes nothing of what is saved.
pub proof fn lemma_clear_keeps_saved(lists: Seq<TodoListView>)
    ensures
        saved_lists(cleared_lists(lists)) == saved_lists(lists),
{
    assert forall|i: int| 0 <= i < lists.len() implies lists[i].cleared().saved()
        == lists[i].saved() by {
        assert(lists[i].cleared().saved().todo_items =~= lists[i].saved().todo_items);
    }
    assert(saved_lists(cleared_lists(lists)) =~= saved_lists(lists));
}

/// A message that changes what is saved leaves the application dirty: a
/// save is asked for after it.
pub proof fn lemma_change_leaves_dirty(app: TodoView, message: Message)
    requires
        app.accepts(message),
    ensures
        saved_lists(app.step(message).todo_lists) != saved_lists(app.todo_lists) ==> app.step(
            message,
        ).is_dirty && app.step(message).command() is Some,
{
    let applied = app.applied(message);
    let after = app.step(message);
    lemma_fold_keeps_saved(applied.todo_lists);
    if !after.is_dirty {
        assert(!applied.is_dirty);
        assert forall|i: int| 0 <= i < applied.todo_lists.len() implies !(
        #[trigger] applied.todo_lists[i]).folded().is_dirty by {
            assert(after.todo_lists[i] == applied.todo_lists[i].folded());
            assert(!after.todo_lists[i].is_dirty);
        }
        match message {
            Message::SetFilter(_) => {},
            Message::Saved(Ok(_)) => {
                lemma_clear_keeps_saved(app.todo_lists);
            },
            Message::Saved(Err(_)) => {},
            Message::List(index, list_message) => {
                let list = app.todo_lists[index as int];
                let stepped = list.step(list_message);
                assert(applied.todo_lists[index as int] == stepped);
                assert(!stepped.folded().is_dirty);
                assert(!stepped.is_dirty);
                lemma_clean_list_step_keeps_saved(list, list_message);
                assert(saved_lists(applied.todo_lists) =~= saved_lists(app.todo_lists));
            },
            Message::ListsBar(bar_message) => {
                match bar_message {
                    ListsBarMessage::Edit(index, EditMessage::Name(_)) => {
                        assert(applied.todo_lists[index as int].is_dirty);
                        assert(applied.todo_lists[index as int].folded().is_dirty);
                    },
                    ListsBarMessage::Regular(index, _) => {
                        assert(saved_lists(applied.todo_lists) =~= saved_lists(app.todo_lists));
                    },
                    ListsBarMessage::Edit(index, EditMessage::Done) => {
                        assert(saved_lists(applied.todo_lists) =~= saved_lists(app.todo_lists));
                    },
                    _ => {},
                }
            },
        }
    }
}

/// A message that leaves its list clean has changed nothing of what is saved
/// of the list.
pub proof fn lemma_clean_list_step_keeps_saved(list: TodoListView, message: TodoListMessage)
    requires
        list.accepts(message),
        !list.step(message).is_dirty,
    ensures
        list.step(message).saved() == list.saved(),
{
    let applied = list.applied(message);
    assert(!applied.is_dirty && !applied.any_item_dirty());
    match message {
        TodoListMessage::Item(index, item_message) => {
            if !item_message.is_delete() {
                assert(!applied.todo_items[index as int].is_dirty);
                assert(applied.saved().todo_items =~= list.saved().todo_items);
            }
        },
        _ => {},
    }
    assert(list.step(message).saved().todo_items =~= applied.saved().todo_items);
}

/// Once the application is dirty it stays so under every message but the
/// report of a save that went through.
pub proof fn lemma_dirty_stays(app: TodoView, message: Message)
    requires
        app.is_dirty,
        !message.reports_saved(),
    ensures
        app.step(message).is_dirty,
        app.step(message).command() is Some,
{
}

/// The application is dirty from the message that made it so until a save
/// that went through is reported: whatever other messages come in between,
/// a save is asked for after each of them.
pub proof fn lemma_dirty_until_saved(app: TodoView, messages: Seq<Message>, since: int)
    requires
        0 <= since <= messages.len(),
        app.run(messages.take(since)).is_dirty,
        forall|j: int| since <= j < messages.len() ==> !(#[trigger] messages[j]).reports_saved(),
    ensures
        app.run(messages).is_dirty,
        app.run(messages).command() is Some,
    decreases messages.len() - since,
{
    if since == messages.len() {
        assert(messages.take(since) =~= messages);
    } else {
        let upto = messages.take(since + 1);
        assert(upto.drop_last() =~= messages.take(since));
        assert(upto.last() == messages[since]);
        lemma_dirty_stays(app.run(messages.take(since)), messages[since]);
        lemma_dirty_until_saved(app, messages, since + 1);
    }
}

/// The report of a save that went through lowers every flag, and no save
/// is asked for after it.
pub proof fn lemma_saved_clears(app: TodoView)
    ensures
        app.step(Message::Saved(Ok(()))).is_clean(),
        app.step(Message::Saved(Ok(()))).command() is None,
{
    let applied = app.applied(Message::Saved(Ok(())));
    let after = app.step(Message::Saved(Ok(())));
    assert forall|i: int| 0 <= i < applied.todo_lists.len() implies !(
    #[trigger] applied.todo_lists[i]).folded().is_dirty by {
        let list = applied.todo_lists[i];
        assert(list == app.todo_lists[i].cleared());
        if list.any_item_dirty() {
            let j = choose|j: int| 0 <= j < list.todo_items.len() && (#[trigger] list.todo_items[j]).is_dirty;
            assert(false);
        }
    }
    assert forall|i: int| 0 <= i < after.todo_lists.len() implies !(
    #[trigger] after.todo_lists[i]).is_dirty by {
        assert(after.todo_lists[i] == applied.todo_lists[i].folded());
    }
    assert forall|i: int, j: int|
        0 <= i < after.todo_lists.len() && 0 <= j < after.todo_lists[i].todo_items.len() implies !(
    #[trigger] after.todo_lists[i].todo_items[j]).is_dirty by {
        assert(after.todo_lists[i] == applied.todo_lists[i].folded());
        assert(applied.todo_lists[i] == app.todo_lists[i].cleared());
    }
}

/// A message that touches the session only changes nothing of what is
/// saved: a save asked for after it writes what a save before it wrote.
pub proof fn lemma_session_message_keeps_saved(app: TodoView, message: Message)
    requires
        app.accepts(message),
        message.is_session_only(),
    ensures
        saved_lists(app.step(message).todo_lists) == saved_lists(app.todo_lists),
{
    let applied = app.applied(message);
    lemma_fold_keeps_saved(applied.todo_lists);
    match message {
        Message::Saved(Ok(_)) => {
            lemma_clear_keeps_saved(app.todo_lists);
        },
        Message::List(index, list_message) => {
            let list = app.todo_lists[index as int];
            let stepped = list.step(list_message);
            assert(stepped.saved().todo_items =~= list.saved().todo_items);
            assert(saved_lists(applied.todo_lists) =~= saved_lists(app.todo_lists));
        },
        Message::ListsBar(_) => {
            assert(saved_lists(applied.todo_lists) =~= saved_lists(app.todo_lists));
        },
        _ => {},
    }
}

/// Two saves in a row write the same: while something is unsaved, the save
/// asked for after a message that touches the session only is the save
/// that was to be made before it.
pub proof fn lemma_same_save_without_change(app: TodoView, message: Message)
    requires
        app.accepts(message),
        app.is_dirty,
        message.is_session_only(),
        !message.reports_saved(),
    ensures
        app.step(message).command() == app.command(),
        app.command() is Some,
{
    lemma_session_message_keeps_saved(app, message);
}

/// Saving and loading back gives the same lists, for lists that hold
/// nothing but what is saved of them.
pub proof fn lemma_saved_lists_restore(lists: Seq<TodoListView>)
    requires
        forall|i: int| 0 <= i < lists.len() ==> (#[trigger] lists[i]).is_plain(),
    ensures
        restored_lists(saved_lists(lists)) == lists,
{
    assert forall|i: int| 0 <= i < lists.len() implies lists[i].saved().restored() == lists[i] by {
        assert(lists[i].is_plain());
        assert(lists[i].saved().restored().todo_items =~= lists[i].todo_items);
    }
    assert(restored_lists(saved_lists(lists)) =~= lists);
}

/// Loading and saving again gives the same file: nothing is lost or added
/// on the way through the application's state.
pub proof fn lemma_restored_lists_save(saved: Seq<SavedListView>)
    ensures
        saved_lists(restored_lists(saved)) == saved,
        forall|i: int|
            0 <= i < saved.len() ==> (#[trigger] restored_lists(saved)[i]).is_plain(),
{
    assert forall|i: int| 0 <= i < saved.len() implies saved[i].restored().saved() == saved[i] by {
        assert(saved[i].restored().saved().todo_items =~= saved[i].todo_items);
    }
    assert(saved_lists(restored_lists(saved)) =~= saved);
}

/// The selection, if there is one, stays the position of a list under
/// every message: a removal that would leave it past the lists clears it.
pub proof fn lemma_step_keeps_selection(app: TodoView, message: Message)
    requires
        app.wf(),
        app.accepts(message),
    ensures
        app.step(message).wf(),
{
}

/// The message that asks for the item at a position to be taken out.
pub open spec fn delete_at(index: usize) -> TodoListMessage {
    TodoListMessage::Item(index, ItemMessage::Edit(todo_item::EditMessage::Delete))
}

/// Taking an item out leaves the items before it where they were and
/// moves the items after it down by one position, so that a later message
/// for a position from there on speaks of the item that came next.
pub proof fn lemma_delete_moves_later_items(
    list: TodoListView,
    index: usize,
    later: usize,
    message: ItemMessage,
)
    requires
        index < list.todo_items.len(),
    ensures
        list.step(delete_at(index)).todo_items.len() == list.todo_items.len() - 1,
        forall|j: int| 0 <= j < index ==> list.step(delete_at(index)).todo_items[j] == list.todo_items[j],
        forall|j: int|
            index <= j < list.todo_items.len() - 1 ==> list.step(delete_at(index)).todo_items[j]
                == list.todo_items[j + 1],
        index <= later < list.todo_items.len() - 1 && !message.is_delete() ==> list.step(
            delete_at(index),
        ).step(TodoListMessage::Item(later, message)).todo_items[later as int]
            == list.todo_items[later + 1].step(message),
{
}

/// Under a filter the list shows the items that the filter lets through,
/// all of them and no others, and it shows every item under
/// [`Filter::All`].
pub proof fn lemma_shown_items(list: TodoListView, filter: Filter)
    ensures
        forall|i: int|
            0 <= i < list.shown(filter).len() ==> filter.admits(#[trigger] list.shown(filter)[i])
                && list.todo_items.contains(list.shown(filter)[i]),
        forall|i: int|
            0 <= i < list.todo_items.len() && filter.admits(list.todo_items[i]) ==> list.shown(
                filter,
            ).contains(#[trigger] list.todo_items[i]),
        list.shown(Filter::All) == list.todo_items,
        list.shown(Filter::Completed).len() + list.shown(Filter::Uncomplete).len()
            == list.todo_items.len(),
{
    let admits = |item: TodoItemView| filter.admits(item);
    assert(list.shown(filter) == list.todo_items.filter(admits));
    lemma_filtered_are_items(list.todo_items, admits);
    assert forall|i: int|
        0 <= i < list.todo_items.len() && filter.admits(list.todo_items[i]) implies list.shown(
        filter,
    ).contains(#[trigger] list.todo_items[i]) by {
        list.todo_items.lemma_filter_contains(admits, i);
    }
    lemma_all_shown(list.todo_items);
    lemma_shown_apart(list.todo_items);
}

proof fn lemma_filtered_are_items(items: Seq<TodoItemView>, pred: spec_fn(TodoItemView) -> bool)
    ensures
        forall|i: int|
            0 <= i < items.filter(pred).len() ==> pred(#[trigger] items.filter(pred)[i])
                && items.contains(items.filter(pred)[i]),
    decreases items.len(),
{
    reveal(Seq::filter);
    if items.len() > 0 {
        let front = items.drop_last();
        lemma_filtered_are_items(front, pred);
        assert forall|i: int| 0 <= i < items.filter(pred).len() implies pred(
            #[trigger] items.filter(pred)[i],
        ) && items.contains(items.filter(pred)[i]) by {
            if i < front.filter(pred).len() {
                let found = front.filter(pred)[i];
                assert(front.contains(found));
                let j = choose|j: int| 0 <= j < front.len() && front[j] == found;
                assert(items[j] == found);
            } else {
                assert(items[items.len() - 1] == items.last());
            }
        }
    }
}

proof fn lemma_all_shown(items: Seq<TodoItemView>)
    ensures
        items.filter(|item: TodoItemView| Filter::All.admits(item)) == items,
    decreases items.len(),
{
    reveal(Seq::filter);
    if items.len() > 0 {
        lemma_all_shown(items.drop_last());
        assert(items.drop_last().push(items.last()) =~= items);
    }
}

proof fn lemma_shown_apart(items: Seq<TodoItemView>)
    ensures
        items.filter(|item: TodoItemView| Filter::Completed.admits(item)).len() + items.filter(
            |item: TodoItemView| Filter::Uncomplete.admits(item),
        ).len() == items.len(),
    decreases items.len(),
{
    reveal(Seq::filter);
    if items.len() > 0 {
        lemma_shown_apart(items.drop_last());
    }
}

/// A submission from an empty entry field adds no item and does not mark
/// the list: the items stay as they are, and the flag is up after it only
/// if it was up before or an item had changed.
pub proof fn lemma_empty_submit_adds_nothing(list: TodoListView)
    requires
        list.input.len() == 0,
    ensures
        list.step(TodoListMessage::NewSubmitted) == list.folded(),
        list.step(TodoListMessage::NewSubmitted).todo_items == list.todo_items,
        list.step(TodoListMessage::NewSubmitted).is_dirty == (list.is_dirty
            || list.any_item_dirty()),
{
}

/// A submission from an entry field that holds text adds one item at the
/// end, named by the text without its trailing line terminator, empties
/// the field and marks the list.
pub proof fn lemma_submit_adds_stripped(list: TodoListView)
    requires
        list.input.len() > 0,
    ensures
        list.step(TodoListMessage::NewSubmitted).todo_items == list.todo_items.push(
            TodoItemView::fresh(crate::utils::stripped(list.input)),
        ),
        list.step(TodoListMessage::NewSubmitted).input.len() == 0,
        list.step(TodoListMessage::NewSubmitted).is_dirty,
{
}

} // verus!
