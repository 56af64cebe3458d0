//! The state of the whole application and its reducer.

use crate::filter::Filter;
use crate::lists_bar::{EditMessage, ListsBar, ListsBarMessage, ListsBarView, NewListMessage, RegularMessage};
use crate::persistence::{
    restore, restored_lists, saved_list_views, saved_lists, snapshot, PersistError, SavedList,
    SavedListView,
};
use crate::todo_list::{list_views, TodoList, TodoListMessage, TodoListView};
use crate::utils::{check_dirty, decimal, decimal_text};
use vstd::prelude::*;
use vstd::string::*;

verus! {

/// The state of the application.
#[derive(Debug)]
pub struct Todo {
    pub todo_lists: Vec<TodoList>,
    pub is_dark: bool,
    /// Whether something changed since the last save that went through.
    pub is_dirty: bool,
    /// The position of the list that is shown, if one is.
    pub current_list: Option<usize>,
    /// How the last save or load ended: a line to show, or what went wrong.
    pub status: Result<String, PersistError>,
    pub filter: Filter,
    pub lists_bar: ListsBar,
}

pub struct TodoView {
    pub todo_lists: Seq<TodoListView>,
    pub is_dark: bool,
    pub is_dirty: bool,
    pub current_list: Option<usize>,
    pub status: Result<Seq<char>, PersistError>,
    pub filter: Filter,
    pub lists_bar: ListsBarView,
}

impl View for Todo {
    type V = TodoView;

    open spec fn view(&self) -> TodoView {
        TodoView {
            todo_lists: list_views(self.todo_lists@),
            is_dark: self.is_dark,
            is_dirty: self.is_dirty,
            current_list: self.current_list,
            status: match self.status {
                Ok(line) => Ok(line@),
                Err(error) => Err(error),
            },
            filter: self.filter,
            lists_bar: self.lists_bar@,
        }
    }
}

/// An event that the reducer takes.
#[derive(Debug)]
pub enum Message {
    /// An event of the list at that position.
    List(usize, TodoListMessage),
    SetFilter(Filter),
    /// How a save that the reducer asked for ended.
    Saved(Result<(), PersistError>),
    ListsBar(ListsBarMessage),
}

impl Clone for Message {
    fn clone(&self) -> (copy: Self)
        ensures
            copy == *self,
    {
        match self {
            Message::List(index, list_message) => Message::List(*index, list_message.clone()),
            Message::SetFilter(filter) => Message::SetFilter(*filter),
            Message::Saved(Ok(done)) => Message::Saved(Ok(*done)),
            Message::Saved(Err(error)) => Message::Saved(Err(*error)),
            Message::ListsBar(bar_message) => Message::ListsBar(bar_message.clone()),
        }
    }
}

/// What the reducer asks its caller to do after an event.
#[derive(Debug)]
pub enum Command {
    Nothing,
    /// Write these lists to the application's file, and hand the outcome
    /// back as [`Message::Saved`].
    Save(Vec<SavedList>),
}

impl View for Command {
    type V = Option<Seq<SavedListView>>;

    open spec fn view(&self) -> Option<Seq<SavedListView>> {
        match self {
            Command::Nothing => None,
            Command::Save(lists) => Some(saved_list_views(lists@)),
        }
    }
}

/// The number of items in all the lists together.
pub open spec fn total_items(lists: Seq<TodoListView>) -> nat
    decreases lists.len(),
{
    if lists.len() == 0 {
        0
    } else {
        total_items(lists.drop_last()) + lists.last().todo_items.len()
    }
}

/// The status line after a save that went through.
pub open spec fn count_message(total: nat) -> Seq<char> {
    decimal(total) + " thing"@ + (if total != 1 {
        "s"@
    } else {
        Seq::empty()
    }) + " todo"@
}

/// The mark that the title carries for something unsaved.
pub open spec fn dirty_mark(dirty: bool) -> Seq<char> {
    if dirty {
        "*"@
    } else {
        Seq::empty()
    }
}

/// Each list with its flag raised if one of its items changed.
pub open spec fn folded_lists(lists: Seq<TodoListView>) -> Seq<TodoListView> {
    Seq::new(lists.len(), |i: int| lists[i].folded())
}

/// Each list with its flag and the flags of its items lowered.
pub open spec fn cleared_lists(lists: Seq<TodoListView>) -> Seq<TodoListView> {
    Seq::new(lists.len(), |i: int| lists[i].cleared())
}

impl TodoView {
    /// The selection, if there is one, is the position of a list.
    pub open spec fn wf(self) -> bool {
        self.current_list matches Some(index) ==> index < self.todo_lists.len()
    }

    pub open spec fn any_list_dirty(self) -> bool {
        exists|i: int| 0 <= i < self.todo_lists.len() && (#[trigger] self.todo_lists[i]).is_dirty
    }

    /// The state at the start, from what the load gave.
    pub open spec fn initial(loaded: Result<Seq<SavedListView>, PersistError>) -> TodoView {
        TodoView {
            todo_lists: match loaded {
                Ok(saved) => restored_lists(saved),
                Err(_) => Seq::empty(),
            },
            is_dark: true,
            is_dirty: false,
            current_list: None,
            status: match loaded {
                Ok(_) => Ok("Loaded"@),
                Err(error) => Err(error),
            },
            filter: Filter::All,
            lists_bar: ListsBarView::fresh(),
        }
    }

    /// Whether a message of the side bar speaks of a list that is there.
    pub open spec fn accepts_bar(self, message: ListsBarMessage) -> bool {
        match message {
            ListsBarMessage::Regular(index, _) => index < self.todo_lists.len(),
            ListsBarMessage::Edit(index, _) => index < self.todo_lists.len(),
            ListsBarMessage::Select(index) => index < self.todo_lists.len(),
            _ => true,
        }
    }

    /// Whether the reducer takes the message in this state: the positions
    /// that it names are those of a list and of an item that are there.
    pub open spec fn accepts(self, message: Message) -> bool {
        match message {
            Message::List(index, list_message) => index < self.todo_lists.len()
                && self.todo_lists[index as int].accepts(list_message),
            Message::ListsBar(bar_message) => self.accepts_bar(bar_message),
            _ => true,
        }
    }

    /// The selection after the list at `index` has been taken out: none if
    /// that list was the selected one, none as well if the selection would
    /// be left past the lists that remain, and as it was otherwise.
    pub open spec fn selection_without(self, index: usize) -> Option<usize> {
        match self.current_list {
            Some(current) => if current == index || current + 1 >= self.todo_lists.len() {
                None
            } else {
                Some(current)
            },
            None => None,
        }
    }

    /// What a message of the side bar does to the state.
    pub open spec fn applied_bar(self, message: ListsBarMessage) -> TodoView {
        match message {
            ListsBarMessage::AddingList => TodoView {
                lists_bar: ListsBarView { is_adding_list: true, ..self.lists_bar },
                ..self
            },
            ListsBarMessage::NewList(NewListMessage::Input(text)) => TodoView {
                lists_bar: ListsBarView { new_list_input: text@, ..self.lists_bar },
                ..self
            },
            ListsBarMessage::NewList(NewListMessage::Submit) => TodoView {
                todo_lists: self.todo_lists.push(TodoListView::fresh(self.lists_bar.new_list_input)),
                lists_bar: ListsBarView::fresh(),
                is_dirty: true,
                ..self
            },
            ListsBarMessage::Select(index) => TodoView { current_list: Some(index), ..self },
            ListsBarMessage::Regular(index, RegularMessage::StartEdit) => TodoView {
                todo_lists: self.todo_lists.update(
                    index as int,
                    TodoListView { is_editing: true, ..self.todo_lists[index as int] },
                ),
                ..self
            },
            ListsBarMessage::Edit(index, EditMessage::Name(name)) => TodoView {
                todo_lists: self.todo_lists.update(
                    index as int,
                    TodoListView { name: name@, is_dirty: true, ..self.todo_lists[index as int] },
                ),
                ..self
            },
            ListsBarMessage::Edit(index, EditMessage::Delete) => TodoView {
                todo_lists: self.todo_lists.remove(index as int),
                current_list: self.selection_without(index),
                is_dirty: true,
                ..self
            },
            ListsBarMessage::Edit(index, EditMessage::Done) => TodoView {
                todo_lists: self.todo_lists.update(
                    index as int,
                    TodoListView { is_editing: false, ..self.todo_lists[index as int] },
                ),
                ..self
            },
        }
    }

    /// What the message itself does to the state.
    pub open spec fn applied(self, message: Message) -> TodoView {
        match message {
            Message::SetFilter(filter) => TodoView { filter, ..self },
            Message::Saved(Ok(_)) => TodoView {
                status: Ok(count_message(total_items(self.todo_lists))),
                todo_lists: cleared_lists(self.todo_lists),
                is_dirty: false,
                ..self
            },
            Message::Saved(Err(error)) => TodoView { status: Err(error), ..self },
            Message::List(index, list_message) => TodoView {
                todo_lists: self.todo_lists.update(
                    index as int,
                    self.todo_lists[index as int].step(list_message),
                ),
                ..self
            },
            Message::ListsBar(bar_message) => self.applied_bar(bar_message),
        }
    }

    /// The state with every flag derived anew from the flags below it: each
    /// list's from its items, then the application's from the lists. A flag
    /// that is up stays up.
    pub open spec fn folded(self) -> TodoView {
        let todo_lists = folded_lists(self.todo_lists);
        TodoView {
            todo_lists,
            is_dirty: self.is_dirty || TodoView { todo_lists, ..self }.any_list_dirty(),
            ..self
        }
    }

    /// The state after one message.
    pub open spec fn step(self, message: Message) -> TodoView {
        self.applied(message).folded()
    }

    /// What has to be done in this state: a save of all the lists when
    /// something is unsaved, nothing otherwise.
    pub open spec fn command(self) -> Option<Seq<SavedListView>> {
        if self.is_dirty {
            Some(saved_lists(self.todo_lists))
        } else {
            None
        }
    }

    /// The title of the window. It needs a selection that is the position of
    /// a list.
    pub open spec fn title(self) -> Seq<char> {
        match self.current_list {
            Some(index) => "Iced Todo"@ + dirty_mark(self.is_dirty) + " - "@
                + self.todo_lists[index as int].name + dirty_mark(
                self.todo_lists[index as int].is_dirty,
            ),
            None => "Iced Todo"@ + dirty_mark(self.is_dirty),
        }
    }
}

fn dirty_to_str(dirty: bool) -> (mark: &'static str)
    ensures
        mark@ == dirty_mark(dirty),
{
    proof {
        reveal_strlit("");
    }
    let mark = if dirty {
        "*"
    } else {
        ""
    };
    assert(mark@ =~= dirty_mark(dirty));
    mark
}

impl Todo {
    /// The state at the start. `loaded` is what reading the application's
    /// file gave: with lists the status line says so, with an error the
    /// collection starts empty and the status holds the error.
    pub fn new(loaded: Result<Vec<SavedList>, PersistError>) -> (start: (Self, Command))
        ensures
            start.0@ == TodoView::initial(
                match loaded {
                    Ok(saved) => Ok(saved_list_views(saved@)),
                    Err(error) => Err(error),
                },
            ),
            start.1 == Command::Nothing,
    {
        let (todo_lists, status) = match loaded {
            Ok(saved) => (restore(saved), Ok("Loaded".to_owned())),
            Err(error) => (Vec::new(), Err(error)),
        };
        let todo = Todo {
            todo_lists,
            status,
            current_list: None,
            is_dark: true,
            is_dirty: false,
            filter: Filter::All,
            lists_bar: ListsBar::new(),
        };
        assert(todo@.todo_lists =~= TodoView::initial(
            match loaded {
                Ok(saved) => Ok(saved_list_views(saved@)),
                Err(error) => Err(error),
            },
        ).todo_lists);
        (todo, Command::Nothing)
    }

    /// The title of the window: the application's name, then the name of
    /// the selected list if there is one, each followed by `*` while it
    /// holds something unsaved.
    pub fn title(&self) -> (title: String)
        requires
            self@.wf(),
        ensures
            title@ == self@.title(),
    {
        let mut title = "Iced Todo".to_owned();
        title.append(dirty_to_str(self.is_dirty));
        if let Some(i) = self.current_list {
            let list = &self.todo_lists[i];
            title.append(" - ");
            title.append(list.name.as_str());
            title.append(dirty_to_str(list.is_dirty));
        }
        title
    }

    /// The number of items in all the lists together. The count is kept in
    /// a type that holds it whatever the lists are.
    pub fn get_total_items(&self) -> (total: u128)
        ensures
            total == total_items(self@.todo_lists),
    {
        let mut total: u128 = 0;
        let mut k: usize = 0;
        while k < self.todo_lists.len()
            invariant
                k <= self.todo_lists.len(),
                total == total_items(self@.todo_lists.take(k as int)),
                total <= k * usize::MAX,
            decreases self.todo_lists.len() - k,
        {
            let count = self.todo_lists[k].todo_items.len();
            proof {
                let upto = self@.todo_lists.take(k as int + 1);
                assert(upto.drop_last() =~= self@.todo_lists.take(k as int));
                assert(upto.last().todo_items.len() == count);
                assert((k + 1) * usize::MAX <= usize::MAX * usize::MAX) by (nonlinear_arith)
                    requires
                        k + 1 <= usize::MAX,
                ;
                assert(usize::MAX * usize::MAX <= u128::MAX) by (nonlinear_arith)
                    requires
                        usize::MAX <= 0xffff_ffff_ffff_ffff,
                ;
                assert(k * usize::MAX + usize::MAX == (k + 1) * usize::MAX) by (nonlinear_arith);
            }
            total += count as u128;
            k += 1;
        }
        assert(self@.todo_lists.take(k as int) =~= self@.todo_lists);
        total
    }

    /// Whether the selection, if there is one, is the position of a list, so
    /// that [`Todo::title`] can name the list.
    pub fn has_valid_selection(&self) -> (valid: bool)
        ensures
            valid == self@.wf(),
    {
        match self.current_list {
            Some(index) => index < self.todo_lists.len(),
            None => true,
        }
    }

    /// Whether [`Todo::update`] takes the message in this state.
    pub fn accepts(&self, message: &Message) -> (taken: bool)
        ensures
            taken == self@.accepts(*message),
    {
        match message {
            Message::List(index, list_message) => *index < self.todo_lists.len()
                && self.todo_lists[*index].accepts(list_message),
            Message::ListsBar(bar_message) => match bar_message {
                ListsBarMessage::Regular(index, _) => *index < self.todo_lists.len(),
                ListsBarMessage::Edit(index, _) => *index < self.todo_lists.len(),
                ListsBarMessage::Select(index) => *index < self.todo_lists.len(),
                _ => true,
            },
            _ => true,
        }
    }

    /// Applies one message of the side bar.
    pub fn update_lists_bar(&mut self, message: ListsBarMessage)
        requires
            old(self)@.accepts_bar(message),
        ensures
            final(self)@ == old(self)@.applied_bar(message),
            old(self)@.wf() ==> final(self)@.wf(),
    {
        match message {
            ListsBarMessage::AddingList => {
                self.lists_bar.is_adding_list = true;
            },
            ListsBarMessage::NewList(new_list_message) => match new_list_message {
                NewListMessage::Input(input) => {
                    self.lists_bar.new_list_input = input;
                },
                NewListMessage::Submit => {
                    self.todo_lists.push(TodoList::new(self.lists_bar.new_list_input.as_str()));
                    self.lists_bar.new_list_input = String::new();
                    self.lists_bar.is_adding_list = false;
                    self.is_dirty = true;
                },
            },
            ListsBarMessage::Select(index) => {
                self.current_list = Some(index);
            },
            ListsBarMessage::Regular(index, regular_message) => match regular_message {
                RegularMessage::StartEdit => {
                    self.todo_lists[index].is_editing = true;
                },
            },
            ListsBarMessage::Edit(index, edit_message) => match edit_message {
                EditMessage::Name(name) => {
                    self.todo_lists[index].name = name;
                    self.todo_lists[index].is_dirty = true;
                },
                EditMessage::Delete => {
                    self.todo_lists.remove(index);
                    let keeps_selection = match self.current_list {
                        Some(current) => current != index && current < self.todo_lists.len(),
                        None => false,
                    };
                    if !keeps_selection {
                        self.current_list = None;
                    }
                    self.is_dirty = true;
                },
                EditMessage::Done => {
                    self.todo_lists[index].is_editing = false;
                },
            },
        }
        assert(self@.todo_lists =~= old(self)@.applied_bar(message).todo_lists);
    }

    /// Lowers every flag, as after a save that went through.
    pub fn mark_saved(&mut self)
        ensures
            final(self)@ == (TodoView {
                todo_lists: cleared_lists(old(self)@.todo_lists),
                is_dirty: false,
                ..old(self)@
            }),
    {
        let mut k: usize = 0;
        while k < self.todo_lists.len()
            invariant
                k <= self.todo_lists.len(),
                self.todo_lists.len() == old(self).todo_lists.len(),
                self.is_dark == old(self).is_dark,
                self.is_dirty == old(self).is_dirty,
                self.current_list == old(self).current_list,
                self.status == old(self).status,
                self.filter == old(self).filter,
                self.lists_bar == old(self).lists_bar,
                forall|i: int|
                    0 <= i < k ==> (#[trigger] self.todo_lists[i])@ == old(self).todo_lists[i]@.cleared(),
                forall|i: int|
                    k <= i < self.todo_lists.len() ==> #[trigger] self.todo_lists[i] == old(
                        self,
                    ).todo_lists[i],
            decreases self.todo_lists.len() - k,
        {
            self.todo_lists[k].mark_saved();
            k += 1;
        }
        self.is_dirty = false;
        assert(self@.todo_lists =~= cleared_lists(old(self)@.todo_lists));
    }

    /// Derives every flag anew from the flags below it.
    pub fn refresh_dirty(&mut self)
        ensures
            final(self)@ == old(self)@.folded(),
    {
        let mut k: usize = 0;
        while k < self.todo_lists.len()
            invariant
                k <= self.todo_lists.len(),
                self.todo_lists.len() == old(self).todo_lists.len(),
                self.is_dark == old(self).is_dark,
                self.is_dirty == old(self).is_dirty,
                self.current_list == old(self).current_list,
                self.status == old(self).status,
                self.filter == old(self).filter,
                self.lists_bar == old(self).lists_bar,
                forall|i: int|
                    0 <= i < k ==> (#[trigger] self.todo_lists[i])@ == old(self).todo_lists[i]@.folded(),
                forall|i: int|
                    k <= i < self.todo_lists.len() ==> #[trigger] self.todo_lists[i] == old(
                        self,
                    ).todo_lists[i],
            decreases self.todo_lists.len() - k,
        {
            self.todo_lists[k].refresh_dirty();
            k += 1;
        }
        assert(self@.todo_lists =~= folded_lists(old(self)@.todo_lists));
        let is_list_dirty = |list: &TodoList| -> (dirty: bool)
            ensures
                dirty == list.is_dirty,
            { list.is_dirty };
        let dirty = check_dirty(&self.is_dirty, self.todo_lists.as_slice(), is_list_dirty);
        proof {
            let lists = self.todo_lists@;
            if dirty && !self.is_dirty {
                let i = choose|i: int|
                    0 <= i < lists.len() && call_ensures(is_list_dirty, (&#[trigger] lists[i],), true);
                assert(self@.todo_lists[i].is_dirty);
            }
            if !dirty {
                assert forall|i: int| 0 <= i < self@.todo_lists.len() implies !(
                #[trigger] self@.todo_lists[i]).is_dirty by {
                    assert(call_ensures(is_list_dirty, (&lists[i],), false));
                }
            }
        }
        self.is_dirty = dirty;
    }

    /// The reducer: applies one message, derives the flags anew, and asks
    /// for a save of all the lists if something is unsaved after that.
    pub fn update(&mut self, message: Message) -> (command: Command)
        requires
            old(self)@.accepts(message),
        ensures
            final(self)@ == old(self)@.step(message),
            command@ == final(self)@.command(),
            old(self)@.wf() ==> final(self)@.wf(),
    {
        match message {
            Message::SetFilter(filter) => {
                self.filter = filter;
            },
            Message::Saved(result) => match result {
                Ok(_) => {
                    let total_items = self.get_total_items();
                    let mut line = decimal_text(total_items);
                    line.append(" thing");
                    if total_items != 1 {
                        line.append("s");
                    }
                    line.append(" todo");
                    self.status = Ok(line);
                    self.mark_saved();
                },
                Err(error) => {
                    self.status = Err(error);
                },
            },
            Message::List(list_index, list_message) => {
                self.todo_lists[list_index].update(list_message);
                assert(self@.todo_lists =~= old(self)@.applied(message).todo_lists);
            },
            Message::ListsBar(lists_bar_message) => {
                self.update_lists_bar(lists_bar_message);
            },
        }
        assert(self@ == old(self)@.applied(message));
        self.refresh_dirty();
        if self.is_dirty {
            Command::Save(snapshot(&self.todo_lists))
        } else {
            Command::Nothing
        }
    }
}

} // verus!
