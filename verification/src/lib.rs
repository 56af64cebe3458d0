//! Model and event reducer of a small todo-list application.
//!
//! The library holds the state of the application (lists of items, the
//! selected list, the active filter, the status of the last save or load) and
//! the function that maps a state and an event to the next state and to the
//! save that has to be scheduled, if any.

pub mod app;
pub mod filter;
pub mod icons;
pub mod lemmas;
pub mod lists_bar;
pub mod persistence;
pub mod save_queue;
pub mod todo_item;
pub mod todo_list;
pub mod utils;
