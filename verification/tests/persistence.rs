use iced_todo::persistence::{
    config_path, restore, save_file_in, snapshot, LoadError, PersistError, SaveError, SaveFile,
    SavedItem, SavedList,
};
use iced_todo::todo_item::TodoItem;
use iced_todo::todo_list::TodoList;
use std::path::PathBuf;

fn saved_list(name: &str, items: &[(&str, bool)]) -> SavedList {
    SavedList {
        name: name.to_string(),
        todo_items: items
            .iter()
            .map(|(name, completed)| SavedItem { name: name.to_string(), completed: *completed })
            .collect(),
    }
}

fn rows(list: &TodoList) -> Vec<(String, bool, bool, bool)> {
    list.todo_items
        .iter()
        .map(|item| (item.name.clone(), item.completed, item.editing, item.is_dirty))
        .collect()
}

fn saved_rows(list: &SavedList) -> Vec<(String, bool)> {
    list.todo_items.iter().map(|item| (item.name.clone(), item.completed)).collect()
}

#[test]
fn saved_item_holds_name_and_completion() {
    let mut item = TodoItem::new("Buy milk");
    item.completed = true;
    item.editing = true;
    item.is_dirty = true;
    let saved = SavedItem::of(&item);
    assert_eq!(saved.name, "Buy milk");
    assert!(saved.completed);
}

#[test]
fn restored_item_starts_a_new_session() {
    let item = SavedItem { name: "Call dentist".to_string(), completed: true }.restore();
    assert_eq!(item.name, "Call dentist");
    assert!(item.completed);
    assert!(!item.editing);
    assert!(!item.is_dirty);
}

#[test]
fn saved_list_holds_name_and_items_in_order() {
    let mut list = TodoList::new("Groceries");
    list.add("Buy milk");
    list.add("Call dentist");
    list.todo_items[1].completed = true;
    list.todo_items[0].editing = true;
    list.input = "half typed".to_string();
    list.is_dirty = true;
    list.is_editing = true;
    let saved = SavedList::of(&list);
    assert_eq!(saved.name, "Groceries");
    assert_eq!(
        saved_rows(&saved),
        vec![("Buy milk".to_string(), false), ("Call dentist".to_string(), true)]
    );
}

#[test]
fn restored_list_starts_a_new_session() {
    let list = saved_list("Groceries", &[("Buy milk", false), ("Call dentist", true)]).restore();
    assert_eq!(list.name, "Groceries");
    assert_eq!(list.input, "");
    assert!(!list.is_dirty);
    assert!(!list.is_editing);
    assert_eq!(
        rows(&list),
        vec![
            ("Buy milk".to_string(), false, false, false),
            ("Call dentist".to_string(), true, false, false)
        ]
    );
}

#[test]
fn saving_and_loading_back_gives_the_same_lists() {
    let mut groceries = TodoList::new("Groceries");
    groceries.add("Buy milk");
    groceries.add("Call dentist");
    groceries.todo_items[1].completed = true;
    let lists = vec![groceries, TodoList::new("Empty"), TodoList::new("")];
    let back = restore(snapshot(&lists));
    assert_eq!(back.len(), 3);
    for (before, after) in lists.iter().zip(back.iter()) {
        assert_eq!(before.name, after.name);
        assert_eq!(before.input, after.input);
        assert_eq!(before.is_dirty, after.is_dirty);
        assert_eq!(before.is_editing, after.is_editing);
        assert_eq!(rows(before), rows(after));
    }
}

#[test]
fn loading_and_saving_again_gives_the_same_file() {
    let saved = vec![
        saved_list("Groceries", &[("Buy milk", false), ("Call dentist", true)]),
        saved_list("Empty", &[]),
    ];
    let again = snapshot(&restore(saved));
    assert_eq!(again.len(), 2);
    assert_eq!(again[0].name, "Groceries");
    assert_eq!(
        saved_rows(&again[0]),
        vec![("Buy milk".to_string(), false), ("Call dentist".to_string(), true)]
    );
    assert_eq!(again[1].name, "Empty");
    assert!(again[1].todo_items.is_empty());
}

#[test]
fn session_state_is_not_saved() {
    let mut list = TodoList::new("Groceries");
    list.add("Buy milk");
    let plain = snapshot(&vec![list.clone()]);
    list.input = "x".to_string();
    list.is_dirty = true;
    list.is_editing = true;
    list.todo_items[0].editing = true;
    list.todo_items[0].is_dirty = true;
    let busy = snapshot(&vec![list]);
    assert_eq!(plain[0].name, busy[0].name);
    assert_eq!(saved_rows(&plain[0]), saved_rows(&busy[0]));
}

#[test]
fn snapshot_of_no_lists_is_empty() {
    assert!(snapshot(&Vec::new()).is_empty());
    assert!(restore(Vec::new()).is_empty());
}

#[test]
fn no_directory_gives_the_path_error() {
    match save_file_in(None) {
        Err(error) => assert_eq!(error, PersistError::Path),
        Ok(_) => panic!("a file without a directory"),
    }
}

#[test]
fn save_file_is_named_in_the_directory() {
    let SaveFile { dir, name } = match save_file_in(Some(PathBuf::from("/home/alice/.config"))) {
        Ok(file) => file,
        Err(_) => panic!("no file in a directory"),
    };
    assert_eq!(dir, PathBuf::from("/home/alice/.config"));
    assert_eq!(name, "todo_save.json");
    assert_eq!(dir.join(&name), PathBuf::from("/home/alice/.config/todo_save.json"));
}

#[test]
fn config_path_names_the_file_or_fails_with_path() {
    match config_path() {
        Ok(file) => assert_eq!(file.name, "todo_save.json"),
        Err(error) => assert_eq!(error, PersistError::Path),
    }
}

#[test]
fn errors_are_told_apart() {
    assert_ne!(PersistError::Save(SaveError::Write), PersistError::Save(SaveError::Compose));
    assert_ne!(PersistError::Load(LoadError::Read), PersistError::Load(LoadError::Parse));
    assert_ne!(PersistError::Path, PersistError::Save(SaveError::Write));
    assert_ne!(PersistError::Path, PersistError::Load(LoadError::Read));
}
