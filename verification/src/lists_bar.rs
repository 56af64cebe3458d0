//! The side bar: the entry field for a new list, and the events of the bar.

use vstd::prelude::*;

verus! {

/// The state of the side bar's entry field.
#[derive(Debug)]
pub struct ListsBar {
    pub new_list_input: String,
    pub is_adding_list: bool,
}

pub struct ListsBarView {
    pub new_list_input: Seq<char>,
    pub is_adding_list: bool,
}

impl View for ListsBar {
    type V = ListsBarView;

    open spec fn view(&self) -> ListsBarView {
        ListsBarView {
            new_list_input: self.new_list_input@,
            is_adding_list: self.is_adding_list,
        }
    }
}

/// What the side bar sends. A `usize` is the position of a list.
#[derive(Debug)]
pub enum ListsBarMessage {
    Regular(usize, RegularMessage),
    Edit(usize, EditMessage),
    NewList(NewListMessage),
    AddingList,
    Select(usize),
}

/// What the entry field for a new list sends.
#[derive(Debug)]
pub enum NewListMessage {
    Input(String),
    Submit,
}

/// What the row of the selected list sends while it is shown plainly.
#[derive(Debug, Clone, Copy)]
pub enum RegularMessage {
    StartEdit,
}

/// What the row of the selected list sends while it is being renamed.
#[derive(Debug)]
pub enum EditMessage {
    Name(String),
    Delete,
    Done,
}

impl Clone for NewListMessage {
    fn clone(&self) -> (copy: Self)
        ensures
            copy == *self,
    {
        match self {
            NewListMessage::Input(text) => NewListMessage::Input(text.clone()),
            NewListMessage::Submit => NewListMessage::Submit,
        }
    }
}

impl Clone for EditMessage {
    fn clone(&self) -> (copy: Self)
        ensures
            copy == *self,
    {
        match self {
            EditMessage::Name(name) => EditMessage::Name(name.clone()),
            EditMessage::Delete => EditMessage::Delete,
            EditMessage::Done => EditMessage::Done,
        }
    }
}

impl Clone for ListsBarMessage {
    fn clone(&self) -> (copy: Self)
        ensures
            copy == *self,
    {
        match self {
            ListsBarMessage::Regular(index, regular_message) => ListsBarMessage::Regular(
                *index,
                *regular_message,
            ),
            ListsBarMessage::Edit(index, edit_message) => ListsBarMessage::Edit(
                *index,
                edit_message.clone(),
            ),
            ListsBarMessage::NewList(new_list_message) => ListsBarMessage::NewList(
                new_list_message.clone(),
            ),
            ListsBarMessage::AddingList => ListsBarMessage::AddingList,
            ListsBarMessage::Select(index) => ListsBarMessage::Select(*index),
        }
    }
}

impl ListsBarView {
    /// The bar at the start: an empty entry field that is not shown.
    pub open spec fn fresh() -> ListsBarView {
        ListsBarView { new_list_input: Seq::empty(), is_adding_list: false }
    }
}

impl ListsBar {
    pub fn new() -> (bar: Self)
        ensures
            bar@ == ListsBarView::fresh(),
    {
        ListsBar { new_list_input: String::new(), is_adding_list: false }
    }
}

} // verus!
