//! The five operations of the service.
//!
//! Each operation runs in two steps around one statement. The first step,
//! one function per operation, decides from the request what to do: to run a
//! statement against the store, or to answer at once. The second step,
//! [`finish`], turns what the store returned for the statement into the
//! reply. Whoever drives the service runs the statement in between.

use vstd::prelude::*;
use vstd::string::StringExecFns;
use crate::ident::random_task_id;
use crate::response::{Body, BodyView, Reply, ReplyView, Response, ResponseView, Status};
use crate::statement::{Mode, Statement, StatementView};
use crate::task::{EditTask, NewTask, Patch, Task, TaskId, TaskView, task_views};

verus! {

/// The message for an edit that names no field.
pub const NO_DATA: &'static str = "No data provided";

/// The message where one row was expected and the statement returned none.
pub const ROW_NOT_FOUND: &'static str =
    "no rows returned by a query that expected to return at least one row";

/// The message where one row was expected and the statement returned
/// several.
pub const ROW_NOT_UNIQUE: &'static str =
    "several rows returned by a query that expected to return one row";

/// What the log line for a failed deletion starts with; the store's message
/// follows.
pub const DELETE_FAILED: &'static str = "Failed to delete task: ";

/// What the service wants done after it has looked at a request.
#[derive(Debug, PartialEq, Eq)]
pub enum Action {
    /// Run the statement against the store and hand what it returned to
    /// [`finish`].
    Query { statement: Statement },
    /// Send this response; the store is not asked.
    Respond { response: Response },
}

/// The mathematical value of an [`Action`].
pub enum ActionView {
    Query { statement: StatementView },
    Respond { response: ResponseView },
}

impl View for Action {
    type V = ActionView;

    open spec fn view(&self) -> ActionView {
        match *self {
            Action::Query { statement } => ActionView::Query { statement: statement@ },
            Action::Respond { response } => ActionView::Respond { response: response@ },
        }
    }
}

/// What the store returned for a statement, as a mathematical value: the
/// rows in the statement's order, or the store's message where it failed.
pub open spec fn returned_view(returned: Result<Vec<Task>, String>) -> Result<
    Seq<TaskView>,
    Seq<char>,
> {
    match returned {
        Ok(tasks) => Ok(task_views(tasks@)),
        Err(message) => Err(message@),
    }
}

/// The response that carries a failure to the client: status 400 and the
/// message as the body.
pub open spec fn failure(message: Seq<char>) -> ResponseView {
    ResponseView { status: Status::BadRequest, body: BodyView::Message(message) }
}

/// The response to a deletion, whatever became of it.
pub open spec fn accepted() -> ResponseView {
    ResponseView { status: Status::Success, body: BodyView::Empty }
}

/// The reply that is a response and nothing for the log.
pub open spec fn plain(response: ResponseView) -> ReplyView {
    ReplyView { response, log: None }
}

/// Listing: all tasks are asked for.
pub open spec fn spec_get_tasks() -> ActionView {
    ActionView::Query { statement: StatementView::SelectAll }
}

/// Fetching one task: the row with the identifier is asked for.
pub open spec fn spec_get_task(id: TaskId) -> ActionView {
    ActionView::Query { statement: StatementView::SelectOne { id } }
}

/// Creating a task under a given identifier: the row is inserted, not
/// completed.
pub open spec fn spec_create_task(id: TaskId, text: Seq<char>) -> ActionView {
    ActionView::Query { statement: StatementView::Insert { id, text } }
}

/// Editing a task: the statement updates exactly the fields that the patch
/// names; a patch that names no field is answered at once.
pub open spec fn spec_edit_task(id: TaskId, patch: Patch) -> ActionView {
    match (patch.text, patch.completed) {
        (Some(text), Some(completed)) => ActionView::Query {
            statement: StatementView::UpdateBoth { id, text, completed },
        },
        (Some(text), None) => ActionView::Query { statement: StatementView::UpdateText { id, text } },
        (None, Some(completed)) => ActionView::Query {
            statement: StatementView::UpdateCompleted { id, completed },
        },
        (None, None) => ActionView::Respond { response: failure(NO_DATA@) },
    }
}

/// Deleting a task: the row with the identifier is removed.
pub open spec fn spec_delete_task(id: TaskId) -> ActionView {
    ActionView::Query { statement: StatementView::Delete { id } }
}

/// The reply to a request whose statement the store has answered.
///
/// A failure of the store reaches the client as status 400 with the
/// store's message, unless the statement was run for its effect: the client
/// of a deletion is told the same whether the store failed or not, and
/// the failure goes to the log. Where all rows were asked for, they are
/// sent under status 200. Where one row was expected, that row is sent
/// under the status of its statement, and it is a failure like any other
/// if the statement returned no row or several.
pub open spec fn spec_finish(
    statement: StatementView,
    returned: Result<Seq<TaskView>, Seq<char>>,
) -> ReplyView {
    match statement.mode() {
        Mode::Effect => match returned {
            Ok(_) => plain(accepted()),
            Err(message) => ReplyView { response: accepted(), log: Some(DELETE_FAILED@ + message) },
        },
        Mode::All => match returned {
            Ok(tasks) => plain(
                ResponseView { status: Status::Success, body: BodyView::Tasks(tasks) },
            ),
            Err(message) => plain(failure(message)),
        },
        Mode::One => match returned {
            Ok(tasks) => if tasks.len() == 1 {
                plain(ResponseView { status: statement.success(), body: BodyView::Task(tasks[0]) })
            } else if tasks.len() == 0 {
                plain(failure(ROW_NOT_FOUND@))
            } else {
                plain(failure(ROW_NOT_UNIQUE@))
            },
            Err(message) => plain(failure(message)),
        },
    }
}

/// The first step of listing all tasks.
pub fn get_tasks() -> (action: Action)
    ensures
        action@ == spec_get_tasks(),
{
    Action::Query { statement: Statement::SelectAll }
}

/// The first step of fetching the task with the given identifier.
pub fn get_task(id: TaskId) -> (action: Action)
    ensures
        action@ == spec_get_task(id),
{
    Action::Query { statement: Statement::SelectOne { id } }
}

/// The first step of creating a task under the given identifier.
pub fn create_task(id: TaskId, data: NewTask) -> (action: Action)
    ensures
        action@ == spec_create_task(id, data.text@),
{
    Action::Query { statement: Statement::Insert { id, text: data.text } }
}

/// The first step of creating a task: the service draws a fresh random
/// identifier and goes on as [`create_task`] does.
pub fn add_task(data: NewTask) -> (action: Action)
    ensures
        action matches Action::Query { statement: Statement::Insert { id, .. } } && id.is_random()
            && action@ == spec_create_task(id, data.text@),
{
    let id = random_task_id();
    create_task(id, data)
}

/// The first step of editing the task with the given identifier.
///
/// An edit that names neither field is answered at once with "No data
/// provided", whatever the identifier; every other edit asks the store.
pub fn edit_task(id: TaskId, data: EditTask) -> (action: Action)
    ensures
        action@ == spec_edit_task(id, data@),
        data@.is_empty() ==> action@ == (ActionView::Respond { response: failure(NO_DATA@) }),
        !data@.is_empty() ==> action@ is Query,
{
    match (data.text, data.completed) {
        (Some(text), Some(completed)) => Action::Query {
            statement: Statement::UpdateBoth { id, text, completed },
        },
        (Some(text), None) => Action::Query { statement: Statement::UpdateText { id, text } },
        (None, Some(completed)) => Action::Query {
            statement: Statement::UpdateCompleted { id, completed },
        },
        (None, None) => Action::Respond { response: refuse(NO_DATA.to_owned()).response },
    }
}

/// The first step of deleting the task with the given identifier.
pub fn delete_task(id: TaskId) -> (action: Action)
    ensures
        action@ == spec_delete_task(id),
{
    Action::Query { statement: Statement::Delete { id } }
}

/// The second step of every operation that asked the store: the reply for
/// what the store returned.
///
/// The response to a deletion does not depend on what became of it: a
/// failed deletion is logged and the client is not told.
pub fn finish(statement: &Statement, returned: Result<Vec<Task>, String>) -> (reply: Reply)
    ensures
        reply@ == spec_finish(statement@, returned_view(returned)),
        statement@ is Delete ==> reply@.response == accepted(),
{
    match statement.mode() {
        Mode::Effect => match returned {
            Ok(_) => Reply {
                response: Response { status: Status::Success, body: Body::Empty },
                log: None,
            },
            Err(message) => {
                let line = String::from_str(DELETE_FAILED).concat(message.as_str());
                Reply {
                    response: Response { status: Status::Success, body: Body::Empty },
                    log: Some(line),
                }
            },
        },
        Mode::All => match returned {
            Ok(tasks) => Reply {
                response: Response { status: Status::Success, body: Body::Tasks(tasks) },
                log: None,
            },
            Err(message) => refuse(message),
        },
        Mode::One => match returned {
            Ok(mut tasks) => if tasks.len() == 1 {
                let task = tasks.remove(0);
                Reply {
                    response: Response { status: statement.success(), body: Body::Task(task) },
                    log: None,
                }
            } else if tasks.len() == 0 {
                refuse(ROW_NOT_FOUND.to_owned())
            } else {
                refuse(ROW_NOT_UNIQUE.to_owned())
            },
            Err(message) => refuse(message),
        },
    }
}

/// The reply that carries a failure to the client.
fn refuse(message: String) -> (reply: Reply)
    ensures
        reply@ == plain(failure(message@)),
{
    Reply {
        response: Response { status: Status::BadRequest, body: Body::Message(message) },
        log: None,
    }
}

} // verus!
