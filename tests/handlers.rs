use todo_api::models::{OperationError, Query, Todo, TodoInsert};
use todo_api::routes::{
    deleted_message, delete_todo, failure_message, filter_todos, get_todo, get_todos, parse_filter, patch_todo,
    post_todo, search_limit, search_todos, todo_response, todos_response, deleted_response, toggle_todo, Action, Body,
    Response, SearchArgs,
};
use todo_api::table::TodoTable;

fn text(status: u16, s: &str) -> Response {
    Response { status, body: Body::Text(s.to_string()) }
}

fn milk() -> TodoInsert {
    TodoInsert { title: "Buy milk".to_string(), description: "2%".to_string(), completed: false }
}

fn milk_row(id: i32, completed: bool) -> Todo {
    Todo {
        id,
        title: Some("Buy milk".to_string()),
        description: Some("2%".to_string()),
        completed: Some(completed),
    }
}

#[test]
fn buy_milk_lifecycle() {
    let mut t = TodoTable::new();
    let created = post_todo(&mut t, milk());
    assert_eq!(created, Response { status: 200, body: Body::One(milk_row(1, false)) });
    let toggled = toggle_todo(&mut t, 1);
    assert_eq!(toggled, Response { status: 200, body: Body::One(milk_row(1, true)) });
    assert_eq!(delete_todo(&mut t, 1), text(200, "Deleted todo #1"));
    assert_eq!(get_todo(&t, 1), text(500, "Todo not found"));
}

#[test]
fn get_todos_lists_newest_first() {
    let mut t = TodoTable::new();
    post_todo(&mut t, milk());
    post_todo(&mut t, milk());
    assert_eq!(get_todos(&t), Response { status: 200, body: Body::Many(vec![milk_row(2, false), milk_row(1, false)]) });
}

#[test]
fn patch_missing_gives_server_error() {
    let mut t = TodoTable::new();
    assert_eq!(patch_todo(&mut t, 9, milk()), text(500, "An Error Occurred while updating the todo"));
}

#[test]
fn patch_overwrites() {
    let mut t = TodoTable::new();
    post_todo(&mut t, milk());
    let body = TodoInsert { title: "Buy bread".to_string(), description: "rye".to_string(), completed: true };
    let expected = Todo {
        id: 1,
        title: Some("Buy bread".to_string()),
        description: Some("rye".to_string()),
        completed: Some(true),
    };
    assert_eq!(patch_todo(&mut t, 1, body), Response { status: 200, body: Body::One(expected) });
}

#[test]
fn delete_and_toggle_missing_give_server_errors() {
    let mut t = TodoTable::new();
    assert_eq!(delete_todo(&mut t, 5), text(500, "An Error Occurred while attempting to deleting the todo"));
    assert_eq!(toggle_todo(&mut t, 5), text(500, "An Error Occurred while attempting to toggle the todo"));
}

#[test]
fn filter_routes() {
    let mut t = TodoTable::new();
    post_todo(&mut t, milk());
    toggle_todo(&mut t, 1);
    post_todo(&mut t, milk());
    assert_eq!(filter_todos(&t, "completed"), Response { status: 200, body: Body::Many(vec![milk_row(1, true)]) });
    assert_eq!(filter_todos(&t, "incomplete"), Response { status: 200, body: Body::Many(vec![milk_row(2, false)]) });
    assert_eq!(filter_todos(&t, "bogus"), text(400, "Invalid filter"));
    assert_eq!(get_todos(&t), Response { status: 200, body: Body::Many(vec![milk_row(2, false), milk_row(1, true)]) });
}

#[test]
fn parse_filter_values() {
    assert_eq!(parse_filter("completed"), Some(true));
    assert_eq!(parse_filter("incomplete"), Some(false));
    assert_eq!(parse_filter("Completed"), None);
    assert_eq!(parse_filter(""), None);
}

#[test]
fn search_requires_query() {
    let q = Query { query: None, limit: Some(5) };
    assert_eq!(search_todos(&q), Err(text(400, "The 'query' query parameter is required")));
}

#[test]
fn search_default_limit() {
    let q = Query { query: Some("milk".to_string()), limit: None };
    assert_eq!(search_todos(&q), Ok(SearchArgs { query: "milk".to_string(), limit: 200 }));
    assert_eq!(search_limit(None), 200);
}

#[test]
fn search_given_limit_passes_through() {
    let q = Query { query: Some("bread".to_string()), limit: Some(-3) };
    assert_eq!(search_todos(&q), Ok(SearchArgs { query: "bread".to_string(), limit: -3 }));
    assert_eq!(search_limit(Some(7)), 7);
}

#[test]
fn failure_messages() {
    assert_eq!(failure_message(Action::Insert), "An Error Occurred while inserting the todo");
    assert_eq!(failure_message(Action::GetAll), "An Error Occurred while getting all todos");
    assert_eq!(failure_message(Action::GetOne), "Todo not found");
    assert_eq!(failure_message(Action::Filter), "An Error Occured while getting the todos");
    assert_eq!(failure_message(Action::Search), "An Error Occurred while searching the todos");
}

#[test]
fn deleted_messages() {
    assert_eq!(deleted_message(0), "Deleted todo #0");
    assert_eq!(deleted_message(42), "Deleted todo #42");
    assert_eq!(deleted_message(2147483647), "Deleted todo #2147483647");
    assert_eq!(deleted_message(-7), "Deleted todo #-7");
    assert_eq!(deleted_message(i32::MIN), "Deleted todo #-2147483648");
}

#[test]
fn outcomes_to_responses() {
    assert_eq!(todo_response(Err(OperationError::StorageError), Action::Insert), text(500, "An Error Occurred while inserting the todo"));
    assert_eq!(todo_response(Ok(milk_row(3, true)), Action::Toggle), Response { status: 200, body: Body::One(milk_row(3, true)) });
    assert_eq!(todos_response(Err(OperationError::NotFound), Action::Search), text(500, "An Error Occurred while searching the todos"));
    assert_eq!(todos_response(Ok(vec![]), Action::Search), Response { status: 200, body: Body::Many(vec![]) });
    assert_eq!(deleted_response(Ok(12)), text(200, "Deleted todo #12"));
    assert_eq!(deleted_response(Err(OperationError::StorageError)), text(500, "An Error Occurred while attempting to deleting the todo"));
}
