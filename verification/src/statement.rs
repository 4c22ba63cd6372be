//! The statements that the service sends to its store.
//!
//! A statement is kept as a value: which of the seven statements it is and
//! what it carries. Its SQL text and the parameters to bind, in the order of
//! the placeholders, are read off that value.

use vstd::prelude::*;
use crate::response::Status;
use crate::task::{Patch, TaskId};

verus! {

/// All tasks, the one created last first.
pub const SELECT_ALL: &'static str = "SELECT * FROM tasks order by created_at desc";

/// The task with the identifier `$1`.
pub const SELECT_ONE: &'static str = "SELECT * FROM tasks WHERE id = $1";

/// A new task with the identifier `$1` and the text `$2`, not completed.
pub const INSERT: &'static str =
    "INSERT INTO tasks (id, text, completed) VALUES ($1, $2, false) RETURNING id, text, completed";

/// The text `$1` and the flag `$2` for the task with the identifier `$3`.
pub const UPDATE_BOTH: &'static str =
    "UPDATE tasks SET text = $1, completed = $2 WHERE id = $3 RETURNING id, text, completed";

/// The text `$1` for the task with the identifier `$2`.
pub const UPDATE_TEXT: &'static str =
    "UPDATE tasks SET text = $1 WHERE id = $2 RETURNING id, text, completed";

/// The flag `$1` for the task with the identifier `$2`.
pub const UPDATE_COMPLETED: &'static str =
    "UPDATE tasks SET completed = $1 WHERE id = $2 RETURNING id, text, completed";

/// The task with the identifier `$1` leaves the table.
pub const DELETE: &'static str = "DELETE FROM tasks WHERE id = $1";

/// A value bound to a placeholder of a statement.
#[derive(Debug, PartialEq, Eq)]
pub enum Param {
    Id(TaskId),
    Text(String),
    Flag(bool),
}

/// The mathematical value of a [`Param`].
pub enum ParamView {
    Id(TaskId),
    Text(Seq<char>),
    Flag(bool),
}

impl View for Param {
    type V = ParamView;

    open spec fn view(&self) -> ParamView {
        match *self {
            Param::Id(id) => ParamView::Id(id),
            Param::Text(text) => ParamView::Text(text@),
            Param::Flag(flag) => ParamView::Flag(flag),
        }
    }
}

/// The views of a sequence of parameters, in the same order.
pub open spec fn param_views(params: Seq<Param>) -> Seq<ParamView> {
    params.map_values(|param: Param| param@)
}

/// How a statement is run and what is expected back.
#[derive(Clone, Copy, Debug, PartialEq, Eq, Structural)]
pub enum Mode {
    /// Every row that the statement returns is collected.
    All,
    /// Exactly one row is expected.
    One,
    /// The statement is run for its effect; no row is read.
    Effect,
}

/// One statement against the table of tasks.
#[derive(Debug, PartialEq, Eq)]
pub enum Statement {
    /// All tasks, the one created last first.
    SelectAll,
    /// The task with this identifier.
    SelectOne { id: TaskId },
    /// A new task that is not completed; the stored row comes back.
    Insert { id: TaskId, text: String },
    /// New text and a new flag for one task; the stored row comes back.
    UpdateBoth { id: TaskId, text: String, completed: bool },
    /// New text for one task; the stored row comes back.
    UpdateText { id: TaskId, text: String },
    /// A new flag for one task; the stored row comes back.
    UpdateCompleted { id: TaskId, completed: bool },
    /// The task with this identifier leaves the table; nothing comes back.
    Delete { id: TaskId },
}

/// The mathematical value of a [`Statement`].
pub enum StatementView {
    SelectAll,
    SelectOne { id: TaskId },
    Insert { id: TaskId, text: Seq<char> },
    UpdateBoth { id: TaskId, text: Seq<char>, completed: bool },
    UpdateText { id: TaskId, text: Seq<char> },
    UpdateCompleted { id: TaskId, completed: bool },
    Delete { id: TaskId },
}

impl StatementView {
    /// How the statement is run.
    pub open spec fn mode(self) -> Mode {
        match self {
            StatementView::SelectAll => Mode::All,
            StatementView::Delete { .. } => Mode::Effect,
            _ => Mode::One,
        }
    }

    /// The status under which the row that the statement returns is sent.
    pub open spec fn success(self) -> Status {
        match self {
            StatementView::Insert { .. } => Status::Created,
            _ => Status::Success,
        }
    }

    /// The fields that the statement replaces in the rows it matches: none
    /// unless it is an update.
    pub open spec fn patch(self) -> Patch {
        match self {
            StatementView::UpdateBoth { text, completed, .. } => Patch {
                text: Some(text),
                completed: Some(completed),
            },
            StatementView::UpdateText { text, .. } => Patch { text: Some(text), completed: None },
            StatementView::UpdateCompleted { completed, .. } => Patch {
                text: None,
                completed: Some(completed),
            },
            _ => Patch { text: None, completed: None },
        }
    }

    /// The SQL text of the statement.
    pub open spec fn sql(self) -> Seq<char> {
        match self {
            StatementView::SelectAll => SELECT_ALL@,
            StatementView::SelectOne { .. } => SELECT_ONE@,
            StatementView::Insert { .. } => INSERT@,
            StatementView::UpdateBoth { .. } => UPDATE_BOTH@,
            StatementView::UpdateText { .. } => UPDATE_TEXT@,
            StatementView::UpdateCompleted { .. } => UPDATE_COMPLETED@,
            StatementView::Delete { .. } => DELETE@,
        }
    }

    /// The values for the placeholders `$1`, `$2`, ... of the SQL text.
    pub open spec fn params(self) -> Seq<ParamView> {
        match self {
            StatementView::SelectAll => seq![],
            StatementView::SelectOne { id } => seq![ParamView::Id(id)],
            StatementView::Insert { id, text } => seq![ParamView::Id(id), ParamView::Text(text)],
            StatementView::UpdateBoth { id, text, completed } => seq![
                ParamView::Text(text),
                ParamView::Flag(completed),
                ParamView::Id(id),
            ],
            StatementView::UpdateText { id, text } => seq![ParamView::Text(text), ParamView::Id(id)],
            StatementView::UpdateCompleted { id, completed } => seq![
                ParamView::Flag(completed),
                ParamView::Id(id),
            ],
            StatementView::Delete { id } => seq![ParamView::Id(id)],
        }
    }
}

impl View for Statement {
    type V = StatementView;

    open spec fn view(&self) -> StatementView {
        match *self {
            Statement::SelectAll => StatementView::SelectAll,
            Statement::SelectOne { id } => StatementView::SelectOne { id },
            Statement::Insert { id, text } => StatementView::Insert { id, text: text@ },
            Statement::UpdateBoth { id, text, completed } => StatementView::UpdateBoth {
                id,
                text: text@,
                completed,
            },
            Statement::UpdateText { id, text } => StatementView::UpdateText { id, text: text@ },
            Statement::UpdateCompleted { id, completed } => StatementView::UpdateCompleted {
                id,
                completed,
            },
            Statement::Delete { id } => StatementView::Delete { id },
        }
    }
}

impl Statement {
    /// How to run the statement.
    pub fn mode(&self) -> (mode: Mode)
        ensures
            mode == self@.mode(),
    {
        match self {
            Statement::SelectAll => Mode::All,
            Statement::Delete { .. } => Mode::Effect,
            _ => Mode::One,
        }
    }

    /// The status under which the row that the statement returns is sent.
    pub fn success(&self) -> (status: Status)
        ensures
            status == self@.success(),
    {
        match self {
            Statement::Insert { .. } => Status::Created,
            _ => Status::Success,
        }
    }

    /// The SQL text to prepare.
    pub fn sql(&self) -> (text: &'static str)
        ensures
            text@ == self@.sql(),
    {
        match self {
            Statement::SelectAll => SELECT_ALL,
            Statement::SelectOne { .. } => SELECT_ONE,
            Statement::Insert { .. } => INSERT,
            Statement::UpdateBoth { .. } => UPDATE_BOTH,
            Statement::UpdateText { .. } => UPDATE_TEXT,
            Statement::UpdateCompleted { .. } => UPDATE_COMPLETED,
            Statement::Delete { .. } => DELETE,
        }
    }

    /// The values to bind, in the order of the placeholders.
    pub fn params(&self) -> (params: Vec<Param>)
        ensures
            param_views(params@) == self@.params(),
    {
        let mut params: Vec<Param> = Vec::new();
        match self {
            Statement::SelectAll => {},
            Statement::SelectOne { id } => {
                params.push(Param::Id(*id));
            },
            Statement::Insert { id, text } => {
                params.push(Param::Id(*id));
                params.push(Param::Text(text.clone()));
            },
            Statement::UpdateBoth { id, text, completed } => {
                params.push(Param::Text(text.clone()));
                params.push(Param::Flag(*completed));
                params.push(Param::Id(*id));
            },
            Statement::UpdateText { id, text } => {
                params.push(Param::Text(text.clone()));
                params.push(Param::Id(*id));
            },
            Statement::UpdateCompleted { id, completed } => {
                params.push(Param::Flag(*completed));
                params.push(Param::Id(*id));
            },
            Statement::Delete { id } => {
                params.push(Param::Id(*id));
            },
        }
        params
    }
}

} // verus!
