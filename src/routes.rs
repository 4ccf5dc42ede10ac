//! The HTTP handlers' decisions: how a request is decoded and checked, which
//! data-access operation it runs, and how the outcome becomes a response.

use vstd::prelude::*;
use crate::models::{OperationError, Query, Todo, TodoInsert, TodoView};
use crate::table::{views, TableView, TodoTable, ROW_CAP};

verus! {

pub const OK: u16 = 200;
pub const BAD_REQUEST: u16 = 400;
pub const INTERNAL_SERVER_ERROR: u16 = 500;

/// The data-access operation that a route runs; each has its own failure text.
#[derive(Debug, Clone, Copy, PartialEq, Eq, Structural)]
pub enum Action {
    Insert,
    GetAll,
    GetOne,
    Update,
    Delete,
    Toggle,
    Filter,
    Search,
}

/// Body of a response: one todo or a list of them as JSON, or plain text.
#[derive(Debug, PartialEq, Eq)]
pub enum Body {
    One(Todo),
    Many(Vec<Todo>),
    Text(String),
}

#[derive(Debug, PartialEq, Eq)]
pub struct Response {
    pub status: u16,
    pub body: Body,
}

/// Arguments of a search that the storage backend runs.
#[derive(Debug, PartialEq, Eq)]
pub struct SearchArgs {
    pub query: String,
    pub limit: i64,
}

pub ghost enum BodyView {
    One(TodoView),
    Many(Seq<TodoView>),
    Text(Seq<char>),
}

pub ghost struct ResponseView {
    pub status: int,
    pub body: BodyView,
}

impl View for Body {
    type V = BodyView;

    open spec fn view(&self) -> BodyView {
        match self {
            Body::One(t) => BodyView::One(t@),
            Body::Many(v) => BodyView::Many(views(v@)),
            Body::Text(s) => BodyView::Text(s@),
        }
    }
}

impl View for Response {
    type V = ResponseView;

    open spec fn view(&self) -> ResponseView {
        ResponseView { status: self.status as int, body: self.body@ }
    }
}

/// Plain text of the server-error response of each operation.
pub open spec fn failure_text(a: Action) -> Seq<char> {
    match a {
        Action::Insert => "An Error Occurred while inserting the todo"@,
        Action::GetAll => "An Error Occurred while getting all todos"@,
        Action::GetOne => "Todo not found"@,
        Action::Update => "An Error Occurred while updating the todo"@,
        Action::Delete => "An Error Occurred while attempting to deleting the todo"@,
        Action::Toggle => "An Error Occurred while attempting to toggle the todo"@,
        Action::Filter => "An Error Occured while getting the todos"@,
        Action::Search => "An Error Occurred while searching the todos"@,
    }
}

pub open spec fn invalid_filter_text() -> Seq<char> {
    "Invalid filter"@
}

pub open spec fn missing_query_text() -> Seq<char> {
    "The 'query' query parameter is required"@
}

pub open spec fn deleted_prefix() -> Seq<char> {
    "Deleted todo #"@
}

pub open spec fn digit_char(d: nat) -> char {
    "0123456789"@[d as int]
}

/// Decimal digits of `n`, most significant first.
pub open spec fn digits(n: nat) -> Seq<char>
    decreases n,
{
    if n < 10 {
        seq![digit_char(n)]
    } else {
        digits(n / 10).push(digit_char(n % 10))
    }
}

/// Decimal text of `i`, with a leading `-` when negative.
pub open spec fn decimal(i: int) -> Seq<char> {
    if i < 0 {
        seq!['-'] + digits((-i) as nat)
    } else {
        digits(i as nat)
    }
}

pub open spec fn failure(a: Action) -> ResponseView {
    ResponseView { status: INTERNAL_SERVER_ERROR as int, body: BodyView::Text(failure_text(a)) }
}

/// Response to the outcome of an operation that yields one todo.
pub open spec fn one_view(o: Result<TodoView, OperationError>, a: Action) -> ResponseView {
    match o {
        Ok(t) => ResponseView { status: OK as int, body: BodyView::One(t) },
        Err(_) => failure(a),
    }
}

/// Response to the outcome of an operation that yields a list of todos.
pub open spec fn many_view(o: Result<Seq<TodoView>, OperationError>, a: Action) -> ResponseView {
    match o {
        Ok(ts) => ResponseView { status: OK as int, body: BodyView::Many(ts) },
        Err(_) => failure(a),
    }
}

/// Response to the outcome of a delete.
pub open spec fn deleted_view(o: Result<int, OperationError>) -> ResponseView {
    match o {
        Ok(id) => ResponseView { status: OK as int, body: BodyView::Text(deleted_prefix() + decimal(id)) },
        Err(_) => failure(Action::Delete),
    }
}

pub open spec fn one_outcome(o: Result<Todo, OperationError>) -> Result<TodoView, OperationError> {
    match o {
        Ok(t) => Ok(t@),
        Err(e) => Err(e),
    }
}

pub open spec fn many_outcome(o: Result<Vec<Todo>, OperationError>) -> Result<Seq<TodoView>, OperationError> {
    match o {
        Ok(v) => Ok(views(v@)),
        Err(e) => Err(e),
    }
}

pub open spec fn id_outcome(o: Result<i32, OperationError>) -> Result<int, OperationError> {
    match o {
        Ok(i) => Ok(i as int),
        Err(e) => Err(e),
    }
}

/// Which rows a filter path segment asks for: `completed` or `incomplete`.
pub open spec fn filter_choice(f: Seq<char>) -> Option<bool> {
    if f == "completed"@ {
        Some(true)
    } else if f == "incomplete"@ {
        Some(false)
    } else {
        None
    }
}

pub open spec fn text_response(status: int, text: Seq<char>) -> ResponseView {
    ResponseView { status, body: BodyView::Text(text) }
}

/// The plain text of the server-error response of `action`.
pub fn failure_message(action: Action) -> (r: String)
    ensures
        r@ == failure_text(action),
{
    match action {
        Action::Insert => String::from_str("An Error Occurred while inserting the todo"),
        Action::GetAll => String::from_str("An Error Occurred while getting all todos"),
        Action::GetOne => String::from_str("Todo not found"),
        Action::Update => String::from_str("An Error Occurred while updating the todo"),
        Action::Delete => String::from_str("An Error Occurred while attempting to deleting the todo"),
        Action::Toggle => String::from_str("An Error Occurred while attempting to toggle the todo"),
        Action::Filter => String::from_str("An Error Occured while getting the todos"),
        Action::Search => String::from_str("An Error Occurred while searching the todos"),
    }
}

fn failure_response(action: Action) -> (r: Response)
    ensures
        r@ == failure(action),
{
    Response { status: INTERNAL_SERVER_ERROR, body: Body::Text(failure_message(action)) }
}

fn push_digits(s: &mut String, n: u32)
    ensures
        final(s)@ == old(s)@ + digits(n as nat),
    decreases n,
{
    if n >= 10 {
        push_digits(s, n / 10);
    }
    let d = (n % 10) as usize;
    proof {
        reveal_strlit("0123456789");
    }
    s.append("0123456789".substring_char(d, d + 1));
    assert(old(s)@ + digits(n as nat) =~= final(s)@) by {
        if n >= 10 {
            assert(digits(n as nat) == digits((n / 10) as nat).push(digit_char((n % 10) as nat)));
        }
    }
}

/// The text `Deleted todo #<id>`.
pub fn deleted_message(id: i32) -> (r: String)
    ensures
        r@ == deleted_prefix() + decimal(id as int),
{
    let mut s = String::from_str("Deleted todo #");
    let magnitude: u32 = if id < 0 {
        s.append("-");
        proof {
            reveal_strlit("-");
        }
        (0 - (id as i64)) as u32
    } else {
        id as u32
    };
    push_digits(&mut s, magnitude);
    assert(s@ =~= deleted_prefix() + decimal(id as int));
    s
}

/// 200 with the todo, or the server error of `action`.
pub fn todo_response(outcome: Result<Todo, OperationError>, action: Action) -> (r: Response)
    ensures
        r@ == one_view(one_outcome(outcome), action),
{
    match outcome {
        Ok(t) => Response { status: OK, body: Body::One(t) },
        Err(_) => failure_response(action),
    }
}

/// 200 with the list, or the server error of `action`.
pub fn todos_response(outcome: Result<Vec<Todo>, OperationError>, action: Action) -> (r: Response)
    ensures
        r@ == many_view(many_outcome(outcome), action),
{
    match outcome {
        Ok(v) => Response { status: OK, body: Body::Many(v) },
        Err(_) => failure_response(action),
    }
}

/// 200 with `Deleted todo #<id>`, or the server error of a delete.
pub fn deleted_response(outcome: Result<i32, OperationError>) -> (r: Response)
    ensures
        r@ == deleted_view(id_outcome(outcome)),
{
    match outcome {
        Ok(id) => Response { status: OK, body: Body::Text(deleted_message(id)) },
        Err(_) => failure_response(Action::Delete),
    }
}

/// `Some(true)` for `completed`, `Some(false)` for `incomplete`, else `None`.
pub fn parse_filter(filter: &str) -> (r: Option<bool>)
    ensures
        r == filter_choice(filter@),
{
    let f = filter.to_owned();
    if f == String::from_str("completed") {
        Some(true)
    } else if f == String::from_str("incomplete") {
        Some(false)
    } else {
        None
    }
}

/// The limit of a search: the given one, else `ROW_CAP`.
pub fn search_limit(limit: Option<i64>) -> (r: i64)
    ensures
        r == match limit {
            Some(l) => l,
            None => ROW_CAP,
        },
{
    match limit {
        Some(l) => l,
        None => ROW_CAP,
    }
}

/// 400 for a filter segment that is neither `completed` nor `incomplete`.
pub fn invalid_filter_response() -> (r: Response)
    ensures
        r@ == text_response(BAD_REQUEST as int, invalid_filter_text()),
{
    Response { status: BAD_REQUEST, body: Body::Text(String::from_str("Invalid filter")) }
}

/// The search arguments of a request: its query and its limit (by default
/// `ROW_CAP`), or 400 when the query is missing.
pub fn search_todos(query: &Query) -> (r: Result<SearchArgs, Response>)
    ensures
        match query.query {
            None => r matches Err(resp) && resp@ == text_response(BAD_REQUEST as int, missing_query_text()),
            Some(q) => r matches Ok(args) && args.query@ == q@ && args.limit == match query.limit {
                Some(l) => l,
                None => ROW_CAP,
            },
        },
{
    match &query.query {
        Some(q) => Ok(SearchArgs { query: q.clone(), limit: search_limit(query.limit) }),
        None => Err(
            Response { status: BAD_REQUEST, body: Body::Text(String::from_str("The 'query' query parameter is required")) },
        ),
    }
}

/// POST /todos: inserts the body.
pub fn post_todo(pool: &mut TodoTable, body: TodoInsert) -> (r: Response)
    requires
        old(pool).wf(),
    ensures
        final(pool).wf(),
        final(pool)@ == old(pool)@.insert(body@).0,
        r@ == one_view(old(pool)@.insert(body@).1, Action::Insert),
{
    todo_response(Todo::insert(pool, body), Action::Insert)
}

/// GET /todos: the newest rows.
pub fn get_todos(pool: &TodoTable) -> (r: Response)
    ensures
        r@ == many_view(Ok(pool@.get_all()), Action::GetAll),
{
    todos_response(Ok(Todo::get_all(pool)), Action::GetAll)
}

/// GET /todos/{id}.
pub fn get_todo(pool: &TodoTable, id: i32) -> (r: Response)
    ensures
        r@ == one_view(pool@.get_by_id(id as int), Action::GetOne),
{
    todo_response(Todo::get_by_id(pool, id), Action::GetOne)
}

/// PATCH /todos/{id}: overwrites the row with the body.
pub fn patch_todo(pool: &mut TodoTable, id: i32, body: TodoInsert) -> (r: Response)
    requires
        old(pool).wf(),
    ensures
        final(pool).wf(),
        final(pool)@ == old(pool)@.update_by_id(id as int, body@).0,
        r@ == one_view(old(pool)@.update_by_id(id as int, body@).1, Action::Update),
{
    todo_response(Todo::update_by_id(pool, id, body), Action::Update)
}

/// DELETE /todos/{id}.
pub fn delete_todo(pool: &mut TodoTable, id: i32) -> (r: Response)
    requires
        old(pool).wf(),
    ensures
        final(pool).wf(),
        final(pool)@ == old(pool)@.delete_by_id(id as int).0,
        r@ == deleted_view(old(pool)@.delete_by_id(id as int).1),
{
    deleted_response(Todo::delete_by_id(pool, id))
}

/// PATCH /todos/{id}/toggle.
pub fn toggle_todo(pool: &mut TodoTable, id: i32) -> (r: Response)
    requires
        old(pool).wf(),
    ensures
        final(pool).wf(),
        final(pool)@ == old(pool)@.toggle_completed(id as int).0,
        r@ == one_view(old(pool)@.toggle_completed(id as int).1, Action::Toggle),
{
    todo_response(Todo::toggle_completed(pool, id), Action::Toggle)
}

/// GET /todos/filter/{filter}: 400 unless the segment is `completed` or
/// `incomplete`, in which case the pool is read.
pub fn filter_todos(pool: &TodoTable, filter: &str) -> (r: Response)
    ensures
        r@ == match filter_choice(filter@) {
            Some(c) => many_view(Ok(pool@.filter_by_completed(c)), Action::Filter),
            None => text_response(BAD_REQUEST as int, invalid_filter_text()),
        },
{
    match parse_filter(filter) {
        Some(c) => todos_response(Ok(Todo::filter_by_completed(pool, c)), Action::Filter),
        None => invalid_filter_response(),
    }
}

} // verus!
