use ink::primitives::AccountId;
use ink_todo_list::{InkTodoList, Todo, TodoCompleted, TodoCreated, TodoDeleted, TodoUpdated};

fn account(byte: u8) -> AccountId {
    AccountId::from([byte; 32])
}

fn text(s: &str) -> String {
    String::from(s)
}

#[test]
fn new_store_is_empty() {
    let list = InkTodoList::new(account(1));
    assert_eq!(list.get_todo_count(), 0);
    assert_eq!(list.get_todo(0), None);
    assert_eq!(list.get_todo(u32::MAX), None);
    assert_eq!(list.get_owner(), account(1));
}

#[test]
fn created_ids_count_up_from_zero() {
    let mut list = InkTodoList::new(account(1));
    for expected in 0..50u32 {
        assert_eq!(list.get_todo_count(), expected);
        let event = list.create_todo(format!("title {expected}"), text("d"), account(2));
        assert_eq!(event, TodoCreated { id: expected });
        assert_eq!(list.get_todo_count(), expected + 1);
    }
}

#[test]
fn created_record_is_found_as_given() {
    let mut list = InkTodoList::new(account(1));
    let event = list.create_todo(text("T"), text("D"), account(7));
    assert_eq!(event.id, 0);
    let expected = Todo {
        id: 0,
        title: text("T"),
        description: text("D"),
        completed: false,
        creator: account(7),
    };
    assert_eq!(list.get_todo(0), Some(expected));
    assert_eq!(list.get_todo(1), None);
}

#[test]
fn empty_texts_are_accepted() {
    let mut list = InkTodoList::new(account(1));
    let event = list.create_todo(String::new(), String::new(), account(1));
    let found = list.get_todo(event.id).unwrap();
    assert_eq!(found.title, "");
    assert_eq!(found.description, "");
    assert!(!found.completed);
}

#[test]
fn creator_is_the_caller_of_create() {
    let mut list = InkTodoList::new(account(1));
    list.create_todo(text("a"), text("b"), account(2));
    list.create_todo(text("c"), text("d"), account(3));
    assert_eq!(list.get_todo(0).unwrap().creator, account(2));
    assert_eq!(list.get_todo(1).unwrap().creator, account(3));
}

#[test]
fn update_replaces_texts_and_nothing_else() {
    let mut list = InkTodoList::new(account(1));
    list.create_todo(text("T"), text("D"), account(2));
    list.create_todo(text("other"), text("record"), account(3));
    list.complete_todo(0);
    let event = list.update_todo(0, text("T2"), text("D2"));
    assert_eq!(event, Some(TodoUpdated { id: 0 }));
    let expected = Todo {
        id: 0,
        title: text("T2"),
        description: text("D2"),
        completed: true,
        creator: account(2),
    };
    assert_eq!(list.get_todo(0), Some(expected));
    let other = Todo {
        id: 1,
        title: text("other"),
        description: text("record"),
        completed: false,
        creator: account(3),
    };
    assert_eq!(list.get_todo(1), Some(other));
    assert_eq!(list.get_todo_count(), 2);
    assert_eq!(list.get_owner(), account(1));
}

#[test]
fn update_of_missing_record_changes_nothing() {
    let mut list = InkTodoList::new(account(1));
    list.create_todo(text("T"), text("D"), account(2));
    let before = list.get_todo(0);
    assert_eq!(list.update_todo(1, text("X"), text("Y")), None);
    assert_eq!(list.update_todo(u32::MAX, text("X"), text("Y")), None);
    assert_eq!(list.get_todo(0), before);
    assert_eq!(list.get_todo(1), None);
    assert_eq!(list.get_todo(u32::MAX), None);
    assert_eq!(list.get_todo_count(), 1);
    assert_eq!(list.get_owner(), account(1));
}

#[test]
fn complete_sets_the_flag() {
    let mut list = InkTodoList::new(account(1));
    list.create_todo(text("T"), text("D"), account(2));
    assert!(!list.get_todo(0).unwrap().completed);
    assert_eq!(list.complete_todo(0), Some(TodoCompleted { id: 0 }));
    let expected = Todo {
        id: 0,
        title: text("T"),
        description: text("D"),
        completed: true,
        creator: account(2),
    };
    assert_eq!(list.get_todo(0), Some(expected));
}

#[test]
fn complete_twice_is_complete_once() {
    let mut list = InkTodoList::new(account(1));
    list.create_todo(text("T"), text("D"), account(2));
    assert_eq!(list.complete_todo(0), Some(TodoCompleted { id: 0 }));
    let after_first = list.get_todo(0);
    assert_eq!(list.complete_todo(0), Some(TodoCompleted { id: 0 }));
    assert_eq!(list.get_todo(0), after_first);
    assert!(list.get_todo(0).unwrap().completed);
    assert_eq!(list.get_todo_count(), 1);
}

#[test]
fn complete_of_missing_record_changes_nothing() {
    let mut list = InkTodoList::new(account(1));
    list.create_todo(text("T"), text("D"), account(2));
    assert_eq!(list.complete_todo(5), None);
    assert!(!list.get_todo(0).unwrap().completed);
    assert_eq!(list.get_todo(5), None);
    assert_eq!(list.get_todo_count(), 1);
}

#[test]
fn delete_removes_the_record() {
    let mut list = InkTodoList::new(account(1));
    list.create_todo(text("T"), text("D"), account(2));
    list.create_todo(text("U"), text("E"), account(2));
    assert_eq!(list.delete_todo(0), Some(TodoDeleted { id: 0 }));
    assert_eq!(list.get_todo(0), None);
    assert_eq!(list.get_todo(1).unwrap().title, "U");
    assert_eq!(list.get_todo_count(), 2);
}

#[test]
fn delete_of_missing_record_changes_nothing() {
    let mut list = InkTodoList::new(account(1));
    list.create_todo(text("T"), text("D"), account(2));
    assert_eq!(list.delete_todo(3), None);
    assert_eq!(list.delete_todo(0), Some(TodoDeleted { id: 0 }));
    assert_eq!(list.delete_todo(0), None);
    assert_eq!(list.get_todo_count(), 1);
}

#[test]
fn deleted_id_is_not_handed_out_again() {
    let mut list = InkTodoList::new(account(1));
    assert_eq!(list.create_todo(text("a"), text(""), account(2)).id, 0);
    assert_eq!(list.create_todo(text("b"), text(""), account(2)).id, 1);
    assert_eq!(list.create_todo(text("c"), text(""), account(2)).id, 2);
    assert_eq!(list.delete_todo(1), Some(TodoDeleted { id: 1 }));
    assert_eq!(list.create_todo(text("d"), text(""), account(2)).id, 3);
    assert_eq!(list.get_todo(1), None);
    assert_eq!(list.get_todo(3).unwrap().title, "d");
    assert_eq!(list.get_todo_count(), 4);
}

#[test]
fn changes_to_a_deleted_record_are_silent() {
    let mut list = InkTodoList::new(account(1));
    list.create_todo(text("a"), text(""), account(2));
    list.delete_todo(0);
    assert_eq!(list.update_todo(0, text("x"), text("y")), None);
    assert_eq!(list.complete_todo(0), None);
    assert_eq!(list.delete_todo(0), None);
    assert_eq!(list.get_todo(0), None);
}

#[test]
fn owner_stays_whoever_acts_later() {
    let mut list = InkTodoList::new(account(9));
    assert_eq!(list.get_owner(), account(9));
    list.create_todo(text("a"), text("b"), account(1));
    assert_eq!(list.get_owner(), account(9));
    list.update_todo(0, text("c"), text("d"));
    assert_eq!(list.get_owner(), account(9));
    list.complete_todo(0);
    assert_eq!(list.get_owner(), account(9));
    list.create_todo(text("e"), text("f"), account(2));
    list.delete_todo(0);
    assert_eq!(list.get_owner(), account(9));
    assert_ne!(list.get_owner(), account(1));
}

#[test]
fn count_is_not_lowered_by_deletions() {
    let mut list = InkTodoList::new(account(1));
    for _ in 0..5 {
        list.create_todo(text("t"), text("d"), account(1));
    }
    for id in 0..5u32 {
        assert_eq!(list.delete_todo(id), Some(TodoDeleted { id }));
    }
    assert_eq!(list.get_todo_count(), 5);
    assert_eq!(list.create_todo(text("t"), text("d"), account(1)).id, 5);
    assert_eq!(list.get_todo_count(), 6);
}

#[test]
fn create_delete_update_scenario() {
    let owner = account(42);
    let mut list = InkTodoList::new(owner);
    assert_eq!(list.create_todo(text("A"), text(""), owner), TodoCreated { id: 0 });
    assert_eq!(list.create_todo(text("B"), text(""), owner), TodoCreated { id: 1 });
    assert_eq!(list.delete_todo(0), Some(TodoDeleted { id: 0 }));
    assert_eq!(list.update_todo(0, text("X"), text("Y")), None);
    assert_eq!(list.get_todo(0), None);
    let found = list.get_todo(1).unwrap();
    assert_eq!(found.id, 1);
    assert_eq!(found.title, "B");
    assert_eq!(found.description, "");
    assert!(!found.completed);
    assert_eq!(found.creator, owner);
    assert_eq!(list.get_todo_count(), 2);
}

#[test]
fn returned_record_is_a_copy() {
    let mut list = InkTodoList::new(account(1));
    list.create_todo(text("T"), text("D"), account(2));
    let mut copy = list.get_todo(0).unwrap();
    copy.set_completed();
    copy.set_content(text("changed"), text("changed"));
    let kept = list.get_todo(0).unwrap();
    assert_eq!(kept.title, "T");
    assert_eq!(kept.description, "D");
    assert!(!kept.completed);
}
