//! A single entry of a todo list and the events that change it.

use vstd::prelude::*;
use vstd::string::*;

verus! {

/// One entry of a list. `editing` and `is_dirty` belong to the running
/// session: they are not part of what is saved.
#[derive(Debug)]
pub struct TodoItem {
    pub completed: bool,
    pub name: String,
    pub editing: bool,
    pub is_dirty: bool,
}

/// What a [`TodoItem`] holds, with its name as a sequence of characters.
pub struct TodoItemView {
    pub completed: bool,
    pub name: Seq<char>,
    pub editing: bool,
    pub is_dirty: bool,
}

impl View for TodoItem {
    type V = TodoItemView;

    open spec fn view(&self) -> TodoItemView {
        TodoItemView {
            completed: self.completed,
            name: self.name@,
            editing: self.editing,
            is_dirty: self.is_dirty,
        }
    }
}

#[derive(Debug)]
pub enum ItemMessage {
    Edit(EditMessage),
    Regular(RegularMessage),
}

/// What the edit row of an item sends.
#[derive(Debug)]
pub enum EditMessage {
    Name(String),
    Delete,
    Done,
}

/// What the plain row of an item sends.
#[derive(Debug, Clone, Copy)]
pub enum RegularMessage {
    Completed(bool),
    StartEdit,
}

impl ItemMessage {
    /// The value that this message gives the `completed` flag, if it sets it.
    pub open spec fn completed_set(self) -> Option<bool> {
        match self {
            ItemMessage::Regular(RegularMessage::Completed(completed)) => Some(completed),
            _ => None,
        }
    }

    /// The value that this message gives the `editing` flag, if it sets it.
    pub open spec fn editing_set(self) -> Option<bool> {
        match self {
            ItemMessage::Regular(RegularMessage::StartEdit) => Some(true),
            ItemMessage::Edit(EditMessage::Done) => Some(false),
            _ => None,
        }
    }

    /// Whether this message asks for the item to be taken out of its list.
    /// The list does that; the item itself ignores the message.
    pub open spec fn is_delete(self) -> bool {
        self matches ItemMessage::Edit(EditMessage::Delete)
    }
}

impl TodoItemView {
    /// A new item: not completed, not being edited, nothing to save.
    pub open spec fn fresh(name: Seq<char>) -> TodoItemView {
        TodoItemView { completed: false, name, editing: false, is_dirty: false }
    }

    /// The item with its flag lowered.
    pub open spec fn cleared(self) -> TodoItemView {
        TodoItemView { is_dirty: false, ..self }
    }

    /// The item after one message.
    pub open spec fn step(self, message: ItemMessage) -> TodoItemView {
        match message {
            ItemMessage::Edit(EditMessage::Name(name)) => TodoItemView {
                name: name@,
                is_dirty: true,
                ..self
            },
            ItemMessage::Edit(EditMessage::Done) => TodoItemView {
                editing: false,
                is_dirty: true,
                ..self
            },
            ItemMessage::Edit(EditMessage::Delete) => self,
            ItemMessage::Regular(RegularMessage::Completed(completed)) => TodoItemView {
                completed,
                is_dirty: true,
                ..self
            },
            ItemMessage::Regular(RegularMessage::StartEdit) => TodoItemView {
                editing: true,
                ..self
            },
        }
    }

    /// The item after a sequence of messages, applied first to last.
    pub open spec fn run(self, messages: Seq<ItemMessage>) -> TodoItemView
        decreases messages.len(),
    {
        if messages.len() == 0 {
            self
        } else {
            self.run(messages.drop_last()).step(messages.last())
        }
    }
}

impl Clone for EditMessage {
    fn clone(&self) -> (copy: Self)
        ensures
            copy == *self,
    {
        match self {
            EditMessage::Name(name) => EditMessage::Name(name.clone()),
            EditMessage::Delete => EditMessage::Delete,
            EditMessage::Done => EditMessage::Done,
        }
    }
}

impl Clone for ItemMessage {
    fn clone(&self) -> (copy: Self)
        ensures
            copy == *self,
    {
        match self {
            ItemMessage::Edit(edit_message) => ItemMessage::Edit(edit_message.clone()),
            ItemMessage::Regular(regular_message) => ItemMessage::Regular(*regular_message),
        }
    }
}

impl Clone for TodoItem {
    fn clone(&self) -> (copy: Self)
        ensures
            copy == *self,
    {
        TodoItem {
            completed: self.completed,
            name: self.name.clone(),
            editing: self.editing,
            is_dirty: self.is_dirty,
        }
    }
}

impl Default for TodoItem {
    fn default() -> (item: Self)
        ensures
            item@ == TodoItemView::fresh("TodoItem"@),
    {
        TodoItem {
            completed: false,
            name: "TodoItem".to_owned(),
            editing: false,
            is_dirty: false,
        }
    }
}

impl TodoItem {
    pub fn new(name: &str) -> (item: Self)
        ensures
            item@ == TodoItemView::fresh(name@),
    {
        TodoItem { completed: false, name: name.to_owned(), editing: false, is_dirty: false }
    }

    /// Applies one message to the item.
    pub fn update(&mut self, message: ItemMessage)
        ensures
            final(self)@ == old(self)@.step(message),
    {
        match message {
            ItemMessage::Edit(edit_message) => match edit_message {
                EditMessage::Name(name) => {
                    self.name = name;
                    self.is_dirty = true;
                },
                EditMessage::Done => {
                    self.editing = false;
                    self.is_dirty = true;
                },
                EditMessage::Delete => {},
            },
            ItemMessage::Regular(regular_message) => match regular_message {
                RegularMessage::Completed(completed) => {
                    self.completed = completed;
                    self.is_dirty = true;
                },
                RegularMessage::StartEdit => {
                    self.editing = true;
                },
            },
        }
    }
}

/// Last write wins, for `completed`: after any sequence of messages the flag
/// has the value that the last message setting it gave.
pub proof fn lemma_completed_last_write_wins(
    item: TodoItemView,
    messages: Seq<ItemMessage>,
    last: int,
)
    requires
        0 <= last < messages.len(),
        messages[last].completed_set() is Some,
        forall|j: int| last < j < messages.len() ==> messages[j].completed_set() is None,
    ensures
        item.run(messages).completed == messages[last].completed_set()->0,
    decreases messages.len(),
{
    if last < messages.len() - 1 {
        lemma_completed_last_write_wins(item, messages.drop_last(), last);
    }
}

/// Last write wins, for `editing`: after any sequence of messages the flag
/// has the value that the last message setting it gave.
pub proof fn lemma_editing_last_write_wins(
    item: TodoItemView,
    messages: Seq<ItemMessage>,
    last: int,
)
    requires
        0 <= last < messages.len(),
        messages[last].editing_set() is Some,
        forall|j: int| last < j < messages.len() ==> messages[j].editing_set() is None,
    ensures
        item.run(messages).editing == messages[last].editing_set()->0,
    decreases messages.len(),
{
    if last < messages.len() - 1 {
        lemma_editing_last_write_wins(item, messages.drop_last(), last);
    }
}

/// A flag that no message of the sequence sets keeps its value.
pub proof fn lemma_flags_kept_without_write(item: TodoItemView, messages: Seq<ItemMessage>)
    ensures
        (forall|j: int| 0 <= j < messages.len() ==> messages[j].completed_set() is None)
            ==> item.run(messages).completed == item.completed,
        (forall|j: int| 0 <= j < messages.len() ==> messages[j].editing_set() is None)
            ==> item.run(messages).editing == item.editing,
    decreases messages.len(),
{
    if messages.len() > 0 {
        lemma_flags_kept_without_write(item, messages.drop_last());
    }
}

} // verus!
