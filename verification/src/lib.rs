//! A task-tracking service as a verified core.
//!
//! Clients create, list, fetch, edit and delete tasks that live in one
//! relational table. Every request is served in two steps around a single
//! statement: the service first decides what to ask of the store, and then
//! turns what the store returned into the reply. Both steps are functions
//! of plain values, stated and proved in [`service`]; running the statement
//! against a database is left to the caller.
//!
//! The [`table`] module holds the table that the service expects behind it,
//! as a value in memory that runs the same statements, and [`laws`] states
//! what follows for a client of the service.

pub mod filters;
mod ident;
pub mod laws;
pub mod response;
pub mod service;
pub mod statement;
pub mod table;
pub mod task;
