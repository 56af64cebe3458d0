//! What is kept between two runs of the application, and what can go wrong
//! while it is written or read back.
//!
//! The application's file holds an ordered array of lists; a list is written
//! with its items and its name, an item with its completion and its name.
//! Everything else that a list or an item holds belongs to the running
//! session and starts afresh when the file is read.

use crate::todo_item::{TodoItem, TodoItemView};
use crate::todo_list::{list_views, TodoList, TodoListView};
use std::path::PathBuf;
use vstd::prelude::*;

verus! {

/// Why a save failed.
#[derive(Debug, Clone, Copy, PartialEq, Eq, Structural)]
pub enum SaveError {
    /// The file could not be written.
    Write,
    /// The lists could not be put into text.
    Compose,
}

/// Why a load failed.
#[derive(Debug, Clone, Copy, PartialEq, Eq, Structural)]
pub enum LoadError {
    /// The file is missing or could not be read.
    Read,
    /// The file does not hold lists in the expected form.
    Parse,
}

/// What can go wrong with the application's file. None of it stops the
/// application: the error is kept as its status and shown.
#[derive(Debug, Clone, Copy, PartialEq, Eq, Structural)]
pub enum PersistError {
    Save(SaveError),
    Load(LoadError),
    /// The platform names no configuration directory for this user.
    Path,
}

/// `std::path::PathBuf`, carried through as it is: nothing is known here of
/// what a path holds.
#[verifier::external_type_specification]
#[verifier::external_body]
pub struct ExPathBuf(PathBuf);

/// Where the application's file is: a directory, and the file's name in it.
#[derive(Debug)]
pub struct SaveFile {
    pub dir: PathBuf,
    pub name: String,
}

/// The name of the application's file: `todo_save.json`.
pub open spec fn save_file_name() -> Seq<char> {
    "todo_save.json"@
}

/// Calls `dirs::config_dir`: the directory that the platform keeps for the
/// user's configuration files, or nothing where it names none. The answer
/// depends on the platform and on the user's environment, so nothing is
/// claimed of it.
#[verifier::external_body]
fn platform_config_dir() -> (dir: Option<PathBuf>) {
    dirs::config_dir()
}

/// The application's file in a configuration directory, or
/// [`PersistError::Path`] where there is no such directory.
pub fn save_file_in(dir: Option<PathBuf>) -> (file: Result<SaveFile, PersistError>)
    ensures
        match dir {
            Some(dir) => file matches Ok(found) && found.dir == dir && found.name@
                == save_file_name(),
            None => file == Err::<SaveFile, PersistError>(PersistError::Path),
        },
{
    match dir {
        Some(dir) => Ok(SaveFile { dir, name: "todo_save.json".to_owned() }),
        None => Err(PersistError::Path),
    }
}

/// The application's file in the configuration directory that the platform
/// names for this user. Which directory that is, and whether there is one,
/// is the platform's answer at the time of the call.
pub fn config_path() -> (file: Result<SaveFile, PersistError>)
    ensures
        match file {
            Ok(found) => found.name@ == save_file_name(),
            Err(error) => error == PersistError::Path,
        },
{
    save_file_in(platform_config_dir())
}

/// An item as it is written to the file.
#[derive(Debug)]
pub struct SavedItem {
    pub completed: bool,
    pub name: String,
}

/// A list as it is written to the file.
#[derive(Debug)]
pub struct SavedList {
    pub todo_items: Vec<SavedItem>,
    pub name: String,
}

pub struct SavedItemView {
    pub completed: bool,
    pub name: Seq<char>,
}

pub struct SavedListView {
    pub todo_items: Seq<SavedItemView>,
    pub name: Seq<char>,
}

impl View for SavedItem {
    type V = SavedItemView;

    open spec fn view(&self) -> SavedItemView {
        SavedItemView { completed: self.completed, name: self.name@ }
    }
}

/// Saved items, each by its view.
pub open spec fn saved_item_views(items: Seq<SavedItem>) -> Seq<SavedItemView> {
    Seq::new(items.len(), |i: int| items[i]@)
}

impl View for SavedList {
    type V = SavedListView;

    open spec fn view(&self) -> SavedListView {
        SavedListView { todo_items: saved_item_views(self.todo_items@), name: self.name@ }
    }
}

/// Saved lists, each by its view.
pub open spec fn saved_list_views(lists: Seq<SavedList>) -> Seq<SavedListView> {
    Seq::new(lists.len(), |i: int| lists[i]@)
}

impl TodoItemView {
    /// The part of the item that is written to the file.
    pub open spec fn saved(self) -> SavedItemView {
        SavedItemView { completed: self.completed, name: self.name }
    }
}

impl SavedItemView {
    /// The item as it stands after a load: not being edited, nothing to save.
    pub open spec fn restored(self) -> TodoItemView {
        TodoItemView { completed: self.completed, name: self.name, editing: false, is_dirty: false }
    }
}

impl TodoListView {
    /// The part of the list that is written to the file.
    pub open spec fn saved(self) -> SavedListView {
        SavedListView {
            todo_items: Seq::new(self.todo_items.len(), |i: int| self.todo_items[i].saved()),
            name: self.name,
        }
    }
}

impl SavedListView {
    /// The list as it stands after a load: an empty entry field, not being
    /// renamed, nothing to save, and every item restored.
    pub open spec fn restored(self) -> TodoListView {
        TodoListView {
            todo_items: Seq::new(self.todo_items.len(), |i: int| self.todo_items[i].restored()),
            name: self.name,
            input: Seq::empty(),
            is_dirty: false,
            is_editing: false,
        }
    }
}

/// The part of a collection of lists that is written to the file.
pub open spec fn saved_lists(lists: Seq<TodoListView>) -> Seq<SavedListView> {
    Seq::new(lists.len(), |i: int| lists[i].saved())
}

/// The collection of lists as it stands after a load.
pub open spec fn restored_lists(saved: Seq<SavedListView>) -> Seq<TodoListView> {
    Seq::new(saved.len(), |i: int| saved[i].restored())
}

impl SavedItem {
    /// Copies what is saved of an item.
    pub fn of(item: &TodoItem) -> (saved: Self)
        ensures
            saved@ == item@.saved(),
    {
        SavedItem { completed: item.completed, name: item.name.clone() }
    }

    /// The item that a saved item stands for.
    pub fn restore(self) -> (item: TodoItem)
        ensures
            item@ == self@.restored(),
    {
        TodoItem { completed: self.completed, name: self.name, editing: false, is_dirty: false }
    }
}

impl SavedList {
    /// Copies what is saved of a list.
    pub fn of(list: &TodoList) -> (saved: Self)
        ensures
            saved@ == list@.saved(),
    {
        let mut todo_items: Vec<SavedItem> = Vec::new();
        let mut k: usize = 0;
        while k < list.todo_items.len()
            invariant
                k <= list.todo_items.len(),
                todo_items.len() == k,
                forall|i: int| 0 <= i < k ==> (#[trigger] todo_items[i])@ == list.todo_items[i]@.saved(),
            decreases list.todo_items.len() - k,
        {
            todo_items.push(SavedItem::of(&list.todo_items[k]));
            k += 1;
        }
        let saved = SavedList { todo_items, name: list.name.clone() };
        assert(saved@.todo_items =~= list@.saved().todo_items);
        saved
    }

    /// The list that a saved list stands for.
    pub fn restore(self) -> (list: TodoList)
        ensures
            list@ == self@.restored(),
    {
        let ghost saved = self@;
        let SavedList { todo_items: saved_items, name } = self;
        let ghost given = saved_items@;
        let mut todo_items: Vec<TodoItem> = Vec::new();
        for item in it: saved_items
            invariant
                it.seq() == given,
                todo_items.len() == it.index(),
                forall|i: int|
                    0 <= i < todo_items.len() ==> (#[trigger] todo_items[i])@
                        == given[i]@.restored(),
        {
            todo_items.push(item.restore());
        }
        let list = TodoList {
            todo_items,
            name,
            input: String::new(),
            is_dirty: false,
            is_editing: false,
        };
        assert(list@.todo_items =~= saved.restored().todo_items);
        list
    }
}

/// What is saved of a collection of lists, list by list, in their order.
pub fn snapshot(lists: &Vec<TodoList>) -> (saved: Vec<SavedList>)
    ensures
        saved_list_views(saved@) == saved_lists(list_views(lists@)),
{
    let mut saved: Vec<SavedList> = Vec::new();
    let mut k: usize = 0;
    while k < lists.len()
        invariant
            k <= lists.len(),
            saved.len() == k,
            forall|i: int| 0 <= i < k ==> (#[trigger] saved[i])@ == lists[i]@.saved(),
        decreases lists.len() - k,
    {
        saved.push(SavedList::of(&lists[k]));
        k += 1;
    }
    assert(saved_list_views(saved@) =~= saved_lists(list_views(lists@)));
    saved
}

/// The collection of lists that saved lists stand for, in their order.
pub fn restore(saved: Vec<SavedList>) -> (lists: Vec<TodoList>)
    ensures
        list_views(lists@) == restored_lists(saved_list_views(saved@)),
{
    let ghost given = saved@;
    let mut lists: Vec<TodoList> = Vec::new();
    for list in it: saved
        invariant
            it.seq() == given,
            lists.len() == it.index(),
            forall|i: int| 0 <= i < lists.len() ==> (#[trigger] lists[i])@ == given[i]@.restored(),
    {
        lists.push(list.restore());
    }
    assert(list_views(lists@) =~= restored_lists(saved_list_views(given)));
    lists
}

} // verus!
