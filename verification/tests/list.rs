use iced_todo::filter::Filter;
use iced_todo::todo_item::{EditMessage, ItemMessage, RegularMessage, TodoItem};
use iced_todo::todo_list::{TodoList, TodoListMessage};

fn names(list: &TodoList) -> Vec<String> {
    list.todo_items.iter().map(|item| item.name.clone()).collect()
}

fn list_of(items: &[&str]) -> TodoList {
    let mut list = TodoList::new("list");
    for name in items {
        list.add(name);
    }
    list
}

fn submit(list: &mut TodoList, text: &str) {
    list.update(TodoListMessage::InputEdit(text.to_string()));
    list.update(TodoListMessage::NewSubmitted);
}

#[test]
fn new_list_is_empty_and_clean() {
    let list = TodoList::new("Groceries");
    assert_eq!(list.name, "Groceries");
    assert!(list.todo_items.is_empty());
    assert_eq!(list.input, "");
    assert!(!list.is_dirty);
    assert!(!list.is_editing);
}

#[test]
fn default_list_has_a_name() {
    let list = TodoList::default();
    assert_eq!(list.name, "TodoList");
    assert!(list.todo_items.is_empty());
    assert_eq!(list.input, "");
    assert!(!list.is_dirty);
    assert!(!list.is_editing);
}

#[test]
fn add_appends_a_new_item() {
    let mut list = list_of(&["a"]);
    list.add("b");
    assert_eq!(names(&list), vec!["a", "b"]);
    assert!(!list.todo_items[1].completed);
    assert!(!list.todo_items[1].editing);
    assert!(!list.todo_items[1].is_dirty);
    assert!(!list.is_dirty);
}

#[test]
fn input_edit_fills_the_entry_field() {
    let mut list = list_of(&["a"]);
    list.update(TodoListMessage::InputEdit("Buy".to_string()));
    assert_eq!(list.input, "Buy");
    assert_eq!(names(&list), vec!["a"]);
    assert!(!list.is_dirty);
}

#[test]
fn submit_adds_an_item_and_clears_the_field() {
    let mut list = TodoList::new("list");
    submit(&mut list, "Buy milk");
    assert_eq!(names(&list), vec!["Buy milk"]);
    assert_eq!(list.input, "");
    assert!(list.is_dirty);
    assert!(!list.todo_items[0].is_dirty);
}

#[test]
fn submit_strips_a_line_feed() {
    let mut list = TodoList::new("list");
    submit(&mut list, "Buy milk\n");
    assert_eq!(names(&list), vec!["Buy milk"]);
}

#[test]
fn submit_strips_a_carriage_return_and_line_feed() {
    let mut list = TodoList::new("list");
    submit(&mut list, "Buy milk\r\n");
    assert_eq!(names(&list), vec!["Buy milk"]);
}

#[test]
fn submit_strips_one_terminator_only() {
    let mut list = TodoList::new("list");
    submit(&mut list, "Buy milk\n\n");
    assert_eq!(names(&list), vec!["Buy milk\n"]);
}

#[test]
fn submit_of_a_lone_terminator_adds_an_empty_name() {
    let mut list = TodoList::new("list");
    submit(&mut list, "\n");
    assert_eq!(names(&list), vec![""]);
    assert!(list.is_dirty);
}

#[test]
fn empty_submit_adds_nothing_and_leaves_the_list_clean() {
    let mut list = list_of(&["a"]);
    list.update(TodoListMessage::NewSubmitted);
    assert_eq!(names(&list), vec!["a"]);
    assert_eq!(list.input, "");
    assert!(!list.is_dirty);
}

#[test]
fn delete_takes_the_item_at_the_position() {
    let mut list = list_of(&["A", "B", "C"]);
    list.update(TodoListMessage::Item(1, ItemMessage::Edit(EditMessage::Delete)));
    assert_eq!(names(&list), vec!["A", "C"]);
    assert!(list.is_dirty);
}

#[test]
fn after_a_delete_a_position_names_the_next_item() {
    let mut list = list_of(&["A", "B", "C"]);
    list.update(TodoListMessage::Item(1, ItemMessage::Edit(EditMessage::Delete)));
    list.update(TodoListMessage::Item(1, ItemMessage::Regular(RegularMessage::Completed(true))));
    assert_eq!(names(&list), vec!["A", "C"]);
    assert!(!list.todo_items[0].completed);
    assert!(list.todo_items[1].completed);
}

#[test]
fn delete_of_the_first_and_of_the_last_item() {
    let mut list = list_of(&["A", "B", "C"]);
    list.update(TodoListMessage::Item(0, ItemMessage::Edit(EditMessage::Delete)));
    assert_eq!(names(&list), vec!["B", "C"]);
    list.update(TodoListMessage::Item(1, ItemMessage::Edit(EditMessage::Delete)));
    assert_eq!(names(&list), vec!["B"]);
    list.update(TodoListMessage::Item(0, ItemMessage::Edit(EditMessage::Delete)));
    assert!(list.todo_items.is_empty());
}

#[test]
fn item_message_reaches_the_item_and_raises_the_list_flag() {
    let mut list = list_of(&["A", "B"]);
    list.update(TodoListMessage::Item(1, ItemMessage::Regular(RegularMessage::Completed(true))));
    assert!(!list.todo_items[0].completed);
    assert!(list.todo_items[1].completed);
    assert!(list.todo_items[1].is_dirty);
    assert!(!list.todo_items[0].is_dirty);
    assert!(list.is_dirty);
}

#[test]
fn start_edit_leaves_the_list_clean() {
    let mut list = list_of(&["A", "B"]);
    list.update(TodoListMessage::Item(0, ItemMessage::Regular(RegularMessage::StartEdit)));
    assert!(list.todo_items[0].editing);
    assert!(!list.todo_items[1].editing);
    assert!(!list.is_dirty);
}

#[test]
fn rename_through_the_list() {
    let mut list = list_of(&["A", "B"]);
    list.update(TodoListMessage::Item(0, ItemMessage::Edit(EditMessage::Name("Z".to_string()))));
    assert_eq!(names(&list), vec!["Z", "B"]);
    assert!(list.is_dirty);
}

#[test]
fn a_dirty_item_raises_the_flag_at_the_next_message() {
    let mut list = list_of(&["A"]);
    list.todo_items[0].is_dirty = true;
    list.update(TodoListMessage::InputEdit("x".to_string()));
    assert!(list.is_dirty);
}

#[test]
fn refresh_dirty_folds_the_items() {
    let mut list = list_of(&["A", "B"]);
    list.refresh_dirty();
    assert!(!list.is_dirty);
    list.todo_items[1].is_dirty = true;
    list.refresh_dirty();
    assert!(list.is_dirty);
    list.todo_items[1].is_dirty = false;
    list.refresh_dirty();
    assert!(list.is_dirty);
}

#[test]
fn mark_saved_lowers_every_flag() {
    let mut list = list_of(&["A", "B"]);
    list.is_dirty = true;
    list.is_editing = true;
    list.input = "x".to_string();
    list.todo_items[0].is_dirty = true;
    list.todo_items[1].editing = true;
    list.todo_items[1].completed = true;
    list.mark_saved();
    assert!(!list.is_dirty);
    assert!(!list.todo_items[0].is_dirty);
    assert!(!list.todo_items[1].is_dirty);
    assert!(list.is_editing);
    assert_eq!(list.input, "x");
    assert!(list.todo_items[1].editing);
    assert!(list.todo_items[1].completed);
    assert_eq!(names(&list), vec!["A", "B"]);
}

#[test]
fn filter_shows_items_by_completion_in_order() {
    let mut list = list_of(&["done", "open"]);
    list.todo_items[0].completed = true;
    let shown: Vec<&str> =
        list.filtered(&Filter::Uncomplete).iter().map(|item| item.name.as_str()).collect();
    assert_eq!(shown, vec!["open"]);
    let shown: Vec<&str> =
        list.filtered(&Filter::Completed).iter().map(|item| item.name.as_str()).collect();
    assert_eq!(shown, vec!["done"]);
    let shown: Vec<&str> =
        list.filtered(&Filter::All).iter().map(|item| item.name.as_str()).collect();
    assert_eq!(shown, vec!["done", "open"]);
    assert_eq!(names(&list), vec!["done", "open"]);
}

#[test]
fn filter_keeps_the_order_of_many_items() {
    let mut list = list_of(&["a", "b", "c", "d", "e"]);
    list.todo_items[1].completed = true;
    list.todo_items[3].completed = true;
    list.todo_items[4].completed = true;
    let shown: Vec<&str> =
        list.filtered(&Filter::Completed).iter().map(|item| item.name.as_str()).collect();
    assert_eq!(shown, vec!["b", "d", "e"]);
    let shown: Vec<&str> =
        list.filtered(&Filter::Uncomplete).iter().map(|item| item.name.as_str()).collect();
    assert_eq!(shown, vec!["a", "c"]);
}

#[test]
fn filter_of_an_empty_list_shows_nothing() {
    let list = TodoList::new("list");
    assert!(list.filtered(&Filter::All).is_empty());
    assert!(list.filtered(&Filter::Completed).is_empty());
    assert!(list.filtered(&Filter::Uncomplete).is_empty());
}

#[test]
fn remove_takes_out_every_equal_item() {
    let mut list = list_of(&["a", "b", "a", "c"]);
    list.todo_items[2].completed = true;
    list.add("a");
    list.remove(TodoItem::new("a"));
    assert_eq!(names(&list), vec!["b", "a", "c"]);
    assert!(list.todo_items[1].completed);
    list.remove(TodoItem::new("missing"));
    assert_eq!(names(&list), vec!["b", "a", "c"]);
}

#[test]
fn check_completed_asks_every_item() {
    let mut list = list_of(&["a", "b"]);
    assert!(!list.check_completed());
    list.todo_items[0].completed = true;
    assert!(!list.check_completed());
    list.todo_items[1].completed = true;
    assert!(list.check_completed());
    assert!(TodoList::new("empty").check_completed());
}

#[test]
fn accepts_positions_of_items_only() {
    let list = list_of(&["a", "b"]);
    assert!(list.accepts(&TodoListMessage::Item(1, ItemMessage::Edit(EditMessage::Delete))));
    assert!(!list.accepts(&TodoListMessage::Item(2, ItemMessage::Edit(EditMessage::Delete))));
    assert!(!list.accepts(&TodoListMessage::Item(2, ItemMessage::Regular(RegularMessage::StartEdit))));
    assert!(list.accepts(&TodoListMessage::NewSubmitted));
    assert!(list.accepts(&TodoListMessage::InputEdit("x".to_string())));
    assert!(!TodoList::new("empty").accepts(&TodoListMessage::Item(
        0,
        ItemMessage::Edit(EditMessage::Done)
    )));
}

#[test]
fn clone_copies_items_and_session_state() {
    let mut list = list_of(&["a", "b"]);
    list.todo_items[1].completed = true;
    list.input = "x".to_string();
    list.is_dirty = true;
    let copy = list.clone();
    assert_eq!(names(&copy), vec!["a", "b"]);
    assert!(copy.todo_items[1].completed);
    assert_eq!(copy.name, "list");
    assert_eq!(copy.input, "x");
    assert!(copy.is_dirty);
    assert!(!copy.is_editing);
}
