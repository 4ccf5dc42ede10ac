//! The todo entity, the payloads that create or overwrite it, and the error
//! taxonomy of the data-access layer.

use vstd::prelude::*;

verus! {

/// Payload of a create or full-update request.
#[derive(Debug, PartialEq, Eq)]
pub struct TodoInsert {
    pub title: String,
    pub description: String,
    pub completed: bool,
}

/// A persisted todo row.
#[derive(Debug, PartialEq, Eq)]
pub struct Todo {
    pub id: i32,
    pub title: Option<String>,
    pub description: Option<String>,
    pub completed: Option<bool>,
}

/// Query parameters of the search endpoint.
#[derive(Debug, PartialEq, Eq)]
pub struct Query {
    pub query: Option<String>,
    pub limit: Option<i64>,
}

/// Why a data-access operation failed.
#[derive(Debug, Clone, Copy, PartialEq, Eq, Structural)]
pub enum OperationError {
    /// No row matches the given id.
    NotFound,
    /// The storage backend failed (connection, constraint, query).
    StorageError,
}

/// Mathematical value of a `TodoInsert`.
pub ghost struct InsertView {
    pub title: Seq<char>,
    pub description: Seq<char>,
    pub completed: bool,
}

/// Mathematical value of a `Todo`.
pub ghost struct TodoView {
    pub id: int,
    pub title: Option<Seq<char>>,
    pub description: Option<Seq<char>>,
    pub completed: Option<bool>,
}

pub open spec fn text_of(o: Option<String>) -> Option<Seq<char>> {
    match o {
        Some(s) => Some(s@),
        None => None,
    }
}

impl View for TodoInsert {
    type V = InsertView;

    open spec fn view(&self) -> InsertView {
        InsertView { title: self.title@, description: self.description@, completed: self.completed }
    }
}

impl View for Todo {
    type V = TodoView;

    open spec fn view(&self) -> TodoView {
        TodoView {
            id: self.id as int,
            title: text_of(self.title),
            description: text_of(self.description),
            completed: self.completed,
        }
    }
}

impl TodoView {
    /// The row that storing `ins` under `id` produces.
    pub open spec fn stored(id: int, ins: InsertView) -> TodoView {
        TodoView {
            id,
            title: Some(ins.title),
            description: Some(ins.description),
            completed: Some(ins.completed),
        }
    }

    /// The row with `completed` negated; a missing value stays missing.
    pub open spec fn toggled(self) -> TodoView {
        TodoView {
            completed: match self.completed {
                Some(b) => Some(!b),
                None => None,
            },
            ..self
        }
    }
}

fn copy_text(o: &Option<String>) -> (r: Option<String>)
    ensures
        text_of(r) == text_of(*o),
{
    match o {
        Some(s) => Some(s.clone()),
        None => None,
    }
}

impl Todo {
    /// The row that storing `todo` under `id` produces.
    pub fn stored(id: i32, todo: &TodoInsert) -> (r: Todo)
        ensures
            r@ == TodoView::stored(id as int, todo@),
    {
        Todo {
            id,
            title: Some(todo.title.clone()),
            description: Some(todo.description.clone()),
            completed: Some(todo.completed),
        }
    }

    /// This row with `completed` negated.
    pub fn toggled(&self) -> (r: Todo)
        ensures
            r@ == self@.toggled(),
    {
        let completed = match self.completed {
            Some(b) => Some(!b),
            None => None,
        };
        Todo {
            id: self.id,
            title: copy_text(&self.title),
            description: copy_text(&self.description),
            completed,
        }
    }

    /// A copy of this row.
    pub fn duplicate(&self) -> (r: Todo)
        ensures
            r@ == self@,
    {
        Todo {
            id: self.id,
            title: copy_text(&self.title),
            description: copy_text(&self.description),
            completed: self.completed,
        }
    }
}

} // verus!
