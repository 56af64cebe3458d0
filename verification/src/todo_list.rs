//! A named, ordered list of items and the events that change it.

use crate::filter::Filter;
use crate::todo_item::{EditMessage, ItemMessage, TodoItem, TodoItemView};
use crate::utils::{check_dirty, stripped, strip_trailing_newline};
use vstd::prelude::*;
use vstd::string::*;

verus! {

/// A list of items. An item is known by its position in `todo_items` only.
/// `input`, `is_dirty` and `is_editing` belong to the running session: they
/// are not part of what is saved.
#[derive(Debug)]
pub struct TodoList {
    pub todo_items: Vec<TodoItem>,
    pub name: String,
    pub input: String,
    pub is_dirty: bool,
    pub is_editing: bool,
}

/// What a [`TodoList`] holds, as sequences.
pub struct TodoListView {
    pub todo_items: Seq<TodoItemView>,
    pub name: Seq<char>,
    pub input: Seq<char>,
    pub is_dirty: bool,
    pub is_editing: bool,
}

/// Borrowed items, each by its view.
pub open spec fn borrowed_views(items: Seq<&TodoItem>) -> Seq<TodoItemView> {
    Seq::new(items.len(), |i: int| items[i]@)
}

/// The items of a vector, each by its view.
pub open spec fn item_views(items: Seq<TodoItem>) -> Seq<TodoItemView> {
    Seq::new(items.len(), |i: int| items[i]@)
}

/// The lists of a vector, each by its view.
pub open spec fn list_views(lists: Seq<TodoList>) -> Seq<TodoListView> {
    Seq::new(lists.len(), |i: int| lists[i]@)
}

impl View for TodoList {
    type V = TodoListView;

    open spec fn view(&self) -> TodoListView {
        TodoListView {
            todo_items: item_views(self.todo_items@),
            name: self.name@,
            input: self.input@,
            is_dirty: self.is_dirty,
            is_editing: self.is_editing,
        }
    }
}

#[derive(Debug)]
pub enum TodoListMessage {
    Item(usize, ItemMessage),
    InputEdit(String),
    NewSubmitted,
}

impl TodoListView {
    /// A new list: no items, an empty entry field, nothing to save.
    pub open spec fn fresh(name: Seq<char>) -> TodoListView {
        TodoListView {
            todo_items: Seq::empty(),
            name,
            input: Seq::empty(),
            is_dirty: false,
            is_editing: false,
        }
    }

    /// The list with one more item of that name at its end.
    pub open spec fn with_item(self, name: Seq<char>) -> TodoListView {
        TodoListView { todo_items: self.todo_items.push(TodoItemView::fresh(name)), ..self }
    }

    pub open spec fn any_item_dirty(self) -> bool {
        exists|i: int| 0 <= i < self.todo_items.len() && (#[trigger] self.todo_items[i]).is_dirty
    }

    /// The list with its flag raised if one of its items changed.
    pub open spec fn folded(self) -> TodoListView {
        TodoListView { is_dirty: self.is_dirty || self.any_item_dirty(), ..self }
    }

    /// The items that the filter lets through, in the order of the list.
    pub open spec fn shown(self, filter: Filter) -> Seq<TodoItemView> {
        self.todo_items.filter(|item: TodoItemView| filter.admits(item))
    }

    /// The list without the items that equal the given one.
    pub open spec fn without(self, item: TodoItemView) -> TodoListView {
        TodoListView {
            todo_items: self.todo_items.filter(|other: TodoItemView| other != item),
            ..self
        }
    }

    /// Whether every item of the list is completed.
    pub open spec fn all_completed(self) -> bool {
        forall|i: int| 0 <= i < self.todo_items.len() ==> (#[trigger] self.todo_items[i]).completed
    }

    /// The list with its flag and the flags of its items lowered.
    pub open spec fn cleared(self) -> TodoListView {
        TodoListView {
            todo_items: Seq::new(self.todo_items.len(), |i: int| self.todo_items[i].cleared()),
            is_dirty: false,
            ..self
        }
    }

    /// Whether the message speaks of an item that the list has.
    pub open spec fn accepts(self, message: TodoListMessage) -> bool {
        message matches TodoListMessage::Item(index, _) ==> index < self.todo_items.len()
    }

    /// What the message itself does to the list.
    pub open spec fn applied(self, message: TodoListMessage) -> TodoListView {
        match message {
            TodoListMessage::InputEdit(text) => TodoListView { input: text@, ..self },
            TodoListMessage::NewSubmitted => if self.input.len() > 0 {
                TodoListView {
                    input: Seq::empty(),
                    is_dirty: true,
                    ..self.with_item(stripped(self.input))
                }
            } else {
                self
            },
            TodoListMessage::Item(index, item_message) => if item_message.is_delete() {
                TodoListView {
                    todo_items: self.todo_items.remove(index as int),
                    is_dirty: true,
                    ..self
                }
            } else {
                TodoListView {
                    todo_items: self.todo_items.update(
                        index as int,
                        self.todo_items[index as int].step(item_message),
                    ),
                    ..self
                }
            },
        }
    }

    /// The list after one message: what the message does, then the fold of
    /// the items' flags into the list's own.
    pub open spec fn step(self, message: TodoListMessage) -> TodoListView {
        self.applied(message).folded()
    }
}

impl Clone for TodoListMessage {
    fn clone(&self) -> (copy: Self)
        ensures
            copy == *self,
    {
        match self {
            TodoListMessage::Item(index, item_message) => TodoListMessage::Item(
                *index,
                item_message.clone(),
            ),
            TodoListMessage::InputEdit(text) => TodoListMessage::InputEdit(text.clone()),
            TodoListMessage::NewSubmitted => TodoListMessage::NewSubmitted,
        }
    }
}

impl Clone for TodoList {
    fn clone(&self) -> (copy: Self)
        ensures
            copy@ == self@,
    {
        let todo_items = self.todo_items.clone();
        assert(todo_items@ =~= self.todo_items@);
        TodoList {
            todo_items,
            name: self.name.clone(),
            input: self.input.clone(),
            is_dirty: self.is_dirty,
            is_editing: self.is_editing,
        }
    }
}

impl Default for TodoList {
    fn default() -> (list: Self)
        ensures
            list@ == TodoListView::fresh("TodoList"@),
    {
        let list = TodoList {
            todo_items: Vec::new(),
            name: "TodoList".to_owned(),
            input: String::new(),
            is_dirty: false,
            is_editing: false,
        };
        assert(list@.todo_items =~= Seq::empty());
        list
    }
}

impl TodoList {
    pub fn new(name: &str) -> (list: Self)
        ensures
            list@ == TodoListView::fresh(name@),
    {
        let list = TodoList {
            todo_items: Vec::new(),
            name: name.to_owned(),
            input: String::new(),
            is_dirty: false,
            is_editing: false,
        };
        assert(list@.todo_items =~= Seq::empty());
        list
    }

    /// Puts a new item of that name at the end of the list.
    pub fn add(&mut self, name: &str)
        ensures
            final(self)@ == old(self)@.with_item(name@),
    {
        self.todo_items.push(TodoItem::new(name));
        assert(self@.todo_items =~= old(self)@.with_item(name@).todo_items);
    }

    /// Takes out of the list every item that equals the given one in all
    /// that it holds. The other items keep their order.
    pub fn remove(&mut self, todo_item: TodoItem)
        ensures
            final(self)@ == old(self)@.without(todo_item@),
    {
        let ghost differs = |other: TodoItemView| other != todo_item@;
        let ghost given = old(self)@.todo_items;
        let mut items: Vec<TodoItem> = Vec::new();
        std::mem::swap(&mut items, &mut self.todo_items);
        proof {
            reveal(Seq::filter);
            assert(given.take(0) =~= Seq::empty());
            assert(self@.todo_items =~= Seq::empty());
        }
        for item in it: items
            invariant
                item_views(it.seq()) == given,
                self.name == old(self).name,
                self.input == old(self).input,
                self.is_dirty == old(self).is_dirty,
                self.is_editing == old(self).is_editing,
                differs == |other: TodoItemView| other != todo_item@,
                self@.todo_items == given.take(it.index() as int).filter(differs),
        {
            let ghost before = self@.todo_items;
            let same = item.completed == todo_item.completed && item.name == todo_item.name
                && item.editing == todo_item.editing && item.is_dirty == todo_item.is_dirty;
            proof {
                reveal(Seq::filter);
                let upto = given.take(it.index() as int + 1);
                assert(upto.drop_last() =~= given.take(it.index() as int));
                assert(upto.last() == item@);
                assert(same == (item@ == todo_item@));
            }
            if !same {
                self.todo_items.push(item);
                assert(self@.todo_items =~= before.push(item@));
            }
        }
        assert(given.take(given.len() as int) =~= given);
    }

    /// Whether every item of the list is completed.
    pub fn check_completed(&self) -> (all: bool)
        ensures
            all == self@.all_completed(),
    {
        let mut k: usize = 0;
        while k < self.todo_items.len()
            invariant
                k <= self.todo_items.len(),
                forall|i: int| 0 <= i < k ==> (#[trigger] self@.todo_items[i]).completed,
            decreases self.todo_items.len() - k,
        {
            if !self.todo_items[k].completed {
                assert(!self@.todo_items[k as int].completed);
                return false;
            }
            k += 1;
        }
        true
    }

    /// The items to show under a filter: those it lets through, in the
    /// order of the list. The list itself is left as it is.
    pub fn filtered(&self, filter: &Filter) -> (shown: Vec<&TodoItem>)
        ensures
            borrowed_views(shown@) == self@.shown(*filter),
    {
        let ghost admits = |item: TodoItemView| filter.admits(item);
        let mut shown: Vec<&TodoItem> = Vec::new();
        let mut k: usize = 0;
        proof {
            reveal(Seq::filter);
            assert(self@.todo_items.take(0) =~= Seq::empty());
            assert(borrowed_views(shown@) =~= Seq::empty());
        }
        while k < self.todo_items.len()
            invariant
                k <= self.todo_items.len(),
                admits == |item: TodoItemView| filter.admits(item),
                borrowed_views(shown@) == self@.todo_items.take(k as int).filter(admits),
            decreases self.todo_items.len() - k,
        {
            let item = &self.todo_items[k];
            let ghost before = borrowed_views(shown@);
            if filter.filter(item) {
                shown.push(item);
            }
            proof {
                reveal(Seq::filter);
                let upto = self@.todo_items.take(k as int + 1);
                assert(upto.drop_last() =~= self@.todo_items.take(k as int));
                assert(upto.last() == item@);
                if filter.admits(item@) {
                    assert(borrowed_views(shown@) =~= before.push(item@));
                }
            }
            k += 1;
        }
        assert(self@.todo_items.take(k as int) =~= self@.todo_items);
        shown
    }

    /// Raises the list's flag if one of its items changed; a flag that is
    /// up stays up.
    pub fn refresh_dirty(&mut self)
        ensures
            final(self)@ == old(self)@.folded(),
    {
        let is_item_dirty = |item: &TodoItem| -> (dirty: bool)
            ensures
                dirty == item.is_dirty,
            { item.is_dirty };
        let dirty = check_dirty(&self.is_dirty, self.todo_items.as_slice(), is_item_dirty);
        proof {
            let items = self.todo_items@;
            if dirty && !self.is_dirty {
                let i = choose|i: int|
                    0 <= i < items.len() && call_ensures(is_item_dirty, (&#[trigger] items[i],), true);
                assert(self@.todo_items[i].is_dirty);
            }
            if !dirty {
                assert forall|i: int| 0 <= i < self@.todo_items.len() implies !(
                #[trigger] self@.todo_items[i]).is_dirty by {
                    assert(call_ensures(is_item_dirty, (&items[i],), false));
                }
            }
        }
        self.is_dirty = dirty;
    }

    /// Lowers the flag of the list and of each of its items, as after a
    /// save that went through.
    pub fn mark_saved(&mut self)
        ensures
            final(self)@ == old(self)@.cleared(),
    {
        let mut k: usize = 0;
        while k < self.todo_items.len()
            invariant
                k <= self.todo_items.len(),
                self.todo_items.len() == old(self).todo_items.len(),
                self.name == old(self).name,
                self.input == old(self).input,
                self.is_dirty == old(self).is_dirty,
                self.is_editing == old(self).is_editing,
                forall|i: int|
                    0 <= i < k ==> (#[trigger] self.todo_items[i])@ == old(self).todo_items[i]@.cleared(),
                forall|i: int|
                    k <= i < self.todo_items.len() ==> #[trigger] self.todo_items[i] == old(
                        self,
                    ).todo_items[i],
            decreases self.todo_items.len() - k,
        {
            self.todo_items[k].is_dirty = false;
            k += 1;
        }
        self.is_dirty = false;
        assert(self@.todo_items =~= old(self)@.cleared().todo_items);
    }

    /// Whether the message speaks of an item that the list has, so that
    /// [`TodoList::update`] takes it.
    pub fn accepts(&self, message: &TodoListMessage) -> (taken: bool)
        ensures
            taken == self@.accepts(*message),
    {
        match message {
            TodoListMessage::Item(index, _) => *index < self.todo_items.len(),
            _ => true,
        }
    }

    /// Applies one message to the list, then raises the list's flag if one
    /// of its items changed.
    pub fn update(&mut self, message: TodoListMessage)
        requires
            old(self)@.accepts(message),
        ensures
            final(self)@ == old(self)@.step(message),
    {
        match message {
            TodoListMessage::InputEdit(action) => {
                self.input = action;
            },
            TodoListMessage::NewSubmitted => {
                if !self.input.as_str().is_empty() {
                    let text = strip_trailing_newline(self.input.as_str());
                    self.add(text.as_str());
                    self.input = String::new();
                    self.is_dirty = true;
                }
            },
            TodoListMessage::Item(index, item_message) => match item_message {
                ItemMessage::Edit(EditMessage::Delete) => {
                    self.todo_items.remove(index);
                    self.is_dirty = true;
                    assert(self@.todo_items =~= old(self)@.todo_items.remove(index as int));
                },
                _ => {
                    self.todo_items[index].update(item_message);
                    assert(self@.todo_items =~= old(self)@.todo_items.update(
                        index as int,
                        old(self)@.todo_items[index as int].step(item_message),
                    ));
                },
            },
        }
        self.refresh_dirty();
    }
}

} // verus!
