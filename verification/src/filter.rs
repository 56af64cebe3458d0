//! The selector that decides which items of a list are shown.

use crate::todo_item::{TodoItem, TodoItemView};
use vstd::prelude::*;

verus! {

/// Which items are shown: all of them, those still open, or those done.
#[derive(Debug, Clone, Copy, PartialEq, Eq, Structural)]
pub enum Filter {
    All,
    Uncomplete,
    Completed,
}

impl Default for Filter {
    fn default() -> (filter: Self)
        ensures
            filter == Filter::All,
    {
        Filter::All
    }
}

impl Filter {
    /// Whether the filter lets an item through.
    pub open spec fn admits(self, item: TodoItemView) -> bool {
        match self {
            Filter::All => true,
            Filter::Uncomplete => !item.completed,
            Filter::Completed => item.completed,
        }
    }

    pub fn filter(&self, todoitem: &TodoItem) -> (shown: bool)
        ensures
            shown == self.admits(todoitem@),
    {
        match *self {
            Filter::All => true,
            Filter::Uncomplete => !todoitem.completed,
            Filter::Completed => todoitem.completed,
        }
    }
}

} // verus!
