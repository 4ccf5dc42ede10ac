use todo_api::models::{OperationError, Todo, TodoInsert};
use todo_api::table::{TodoTable, ROW_CAP};

fn payload(title: &str, description: &str, completed: bool) -> TodoInsert {
    TodoInsert { title: title.to_string(), description: description.to_string(), completed }
}

fn row(id: i32, title: &str, description: &str, completed: bool) -> Todo {
    Todo {
        id,
        title: Some(title.to_string()),
        description: Some(description.to_string()),
        completed: Some(completed),
    }
}

#[test]
fn insert_echoes_payload_with_fresh_ids() {
    let mut t = TodoTable::new();
    let a = Todo::insert(&mut t, payload("a", "first", false)).unwrap();
    let b = Todo::insert(&mut t, payload("b", "second", true)).unwrap();
    assert_eq!(a, row(1, "a", "first", false));
    assert_eq!(b, row(2, "b", "second", true));
}

#[test]
fn ids_are_not_reused_after_delete() {
    let mut t = TodoTable::new();
    Todo::insert(&mut t, payload("a", "", false)).unwrap();
    let b = Todo::insert(&mut t, payload("b", "", false)).unwrap();
    assert_eq!(Todo::delete_by_id(&mut t, b.id), Ok(2));
    let c = Todo::insert(&mut t, payload("c", "", false)).unwrap();
    assert_eq!(c.id, 3);
}

#[test]
fn read_after_insert() {
    let mut t = TodoTable::new();
    let a = Todo::insert(&mut t, payload("read", "me", true)).unwrap();
    assert_eq!(Todo::get_by_id(&t, a.id), Ok(row(a.id, "read", "me", true)));
}

#[test]
fn get_missing_is_not_found() {
    let t = TodoTable::new();
    assert_eq!(Todo::get_by_id(&t, 7), Err(OperationError::NotFound));
}

#[test]
fn update_overwrites_row() {
    let mut t = TodoTable::new();
    let a = Todo::insert(&mut t, payload("old", "text", false)).unwrap();
    let u = Todo::update_by_id(&mut t, a.id, payload("new", "words", true)).unwrap();
    assert_eq!(u, row(a.id, "new", "words", true));
    assert_eq!(Todo::get_by_id(&t, a.id), Ok(row(a.id, "new", "words", true)));
}

#[test]
fn update_missing_is_not_found() {
    let mut t = TodoTable::new();
    assert_eq!(Todo::update_by_id(&mut t, 3, payload("x", "y", true)), Err(OperationError::NotFound));
}

#[test]
fn toggle_twice_restores_completed() {
    let mut t = TodoTable::new();
    let a = Todo::insert(&mut t, payload("t", "d", false)).unwrap();
    assert_eq!(Todo::toggle_completed(&mut t, a.id).unwrap().completed, Some(true));
    assert_eq!(Todo::toggle_completed(&mut t, a.id).unwrap().completed, Some(false));
    assert_eq!(Todo::get_by_id(&t, a.id), Ok(row(a.id, "t", "d", false)));
}

#[test]
fn toggle_missing_is_not_found() {
    let mut t = TodoTable::new();
    assert_eq!(Todo::toggle_completed(&mut t, 1), Err(OperationError::NotFound));
}

#[test]
fn toggled_keeps_missing_completed() {
    let todo = Todo { id: 4, title: None, description: Some("x".to_string()), completed: None };
    assert_eq!(todo.toggled(), Todo { id: 4, title: None, description: Some("x".to_string()), completed: None });
}

#[test]
fn delete_then_get_is_not_found() {
    let mut t = TodoTable::new();
    let a = Todo::insert(&mut t, payload("gone", "soon", false)).unwrap();
    assert_eq!(Todo::delete_by_id(&mut t, a.id), Ok(a.id));
    assert_eq!(Todo::get_by_id(&t, a.id), Err(OperationError::NotFound));
    assert_eq!(Todo::delete_by_id(&mut t, a.id), Err(OperationError::NotFound));
}

#[test]
fn get_all_newest_first_capped() {
    let mut t = TodoTable::new();
    for i in 0..205 {
        Todo::insert(&mut t, payload(&format!("n{}", i), "", i % 2 == 0)).unwrap();
    }
    let all = Todo::get_all(&t);
    assert_eq!(all.len(), ROW_CAP as usize);
    assert_eq!(all[0].id, 205);
    assert_eq!(all[199].id, 6);
    assert!(all.windows(2).all(|w| w[0].id > w[1].id));
}

#[test]
fn get_all_empty_table() {
    let t = TodoTable::new();
    assert!(Todo::get_all(&t).is_empty());
}

#[test]
fn filter_by_completed_selects_matching_rows() {
    let mut t = TodoTable::new();
    Todo::insert(&mut t, payload("a", "", true)).unwrap();
    Todo::insert(&mut t, payload("b", "", false)).unwrap();
    Todo::insert(&mut t, payload("c", "", true)).unwrap();
    let done: Vec<i32> = Todo::filter_by_completed(&t, true).iter().map(|r| r.id).collect();
    let open: Vec<i32> = Todo::filter_by_completed(&t, false).iter().map(|r| r.id).collect();
    assert_eq!(done, vec![3, 1]);
    assert_eq!(open, vec![2]);
}

#[test]
fn filter_by_completed_capped() {
    let mut t = TodoTable::new();
    for _ in 0..250 {
        Todo::insert(&mut t, payload("x", "y", true)).unwrap();
    }
    let done = Todo::filter_by_completed(&t, true);
    assert_eq!(done.len(), 200);
    assert_eq!(done[0].id, 250);
    assert!(Todo::filter_by_completed(&t, false).is_empty());
}
