//! A todo-list service: its entities, an in-memory table that implements the
//! data-access operations, and the HTTP handlers' decisions.

pub mod laws;
pub mod models;
pub mod routes;
pub mod table;
