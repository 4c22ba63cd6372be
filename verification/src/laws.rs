//! What a client of the service can rely on.
//!
//! Each law is stated of the service running against the table of
//! [`crate::table`]: `spec_perform` applied to the action that an operation
//! decides on. The laws hold of every table of distinct identifiers, every
//! identifier and every text.

use vstd::prelude::*;
use crate::response::{BodyView, ResponseView, Status};
use crate::service::{
    accepted, failure, plain, spec_create_task, spec_delete_task, spec_edit_task, spec_get_task,
    spec_get_tasks, ActionView, NO_DATA, ROW_NOT_FOUND,
};
use crate::statement::StatementView;
use crate::table::{
    distinct_ids, holds, lacks_id, lemma_absent, lemma_present, lemma_run_keeps_distinct,
    spec_perform, Performed,
};
use crate::task::{Patch, TaskId, TaskView};

verus! {

/// Whether the action deletes the row with the given identifier.
pub open spec fn deletes(action: ActionView, id: TaskId) -> bool {
    action matches ActionView::Query { statement: StatementView::Delete { id: deleted } } && deleted
        == id
}

/// Whether the action creates a row with the given identifier.
pub open spec fn creates(action: ActionView, id: TaskId) -> bool {
    action matches ActionView::Query { statement: StatementView::Insert { id: created, .. } }
        && created == id
}

/// The table after a run of actions, the first of them carried out first.
pub open spec fn spec_perform_all(rows: Seq<TaskView>, actions: Seq<ActionView>) -> Seq<TaskView>
    decreases actions.len(),
{
    if actions.len() == 0 {
        rows
    } else {
        spec_perform_all(spec_perform(rows, actions[0]).rows, actions.drop_first())
    }
}

/// No action of the service brings an identifier into the table twice.
pub proof fn law_identifiers_stay_distinct(rows: Seq<TaskView>, action: ActionView)
    requires
        distinct_ids(rows),
    ensures
        distinct_ids(spec_perform(rows, action).rows),
{
    if let ActionView::Query { statement } = action {
        lemma_run_keeps_distinct(rows, statement);
    }
}

/// The identifiers in the table after an action are those that were there
/// before and were not deleted, and the one that was created: no other
/// identifier comes or goes, whatever the action.
pub proof fn law_identifiers_after(rows: Seq<TaskView>, action: ActionView, id: TaskId)
    requires
        distinct_ids(rows),
    ensures
        holds(spec_perform(rows, action).rows, id) <==> (holds(rows, id) && !deletes(action, id))
            || creates(action, id),
{
    let after = spec_perform(rows, action).rows;
    if let ActionView::Query { statement } = action {
        match statement {
            StatementView::SelectAll => {},
            StatementView::SelectOne { .. } => {},
            StatementView::Insert { id: created, .. } => {
                if !holds(rows, created) {
                    if holds(rows, id) {
                        let at = choose|i: int| 0 <= i < rows.len() && (#[trigger] rows[i]).id == id;
                        assert(after[at].id == id);
                    }
                    if created == id {
                        assert(after[rows.len() as int].id == id);
                    }
                }
            },
            StatementView::Delete { id: deleted } => {
                if holds(rows, deleted) {
                    let gone = choose|i: int|
                        0 <= i < rows.len() && (#[trigger] rows[i]).id == deleted;
                    lemma_present(rows, gone, statement.patch());
                    if holds(rows, id) && deleted != id {
                        let at = choose|i: int| 0 <= i < rows.len() && (#[trigger] rows[i]).id == id;
                        let now = if at < gone {
                            at
                        } else {
                            at - 1
                        };
                        assert(after[now].id == id);
                    }
                } else {
                    lemma_absent(rows, deleted, statement.patch());
                }
            },
            _ => {
                if holds(rows, id) {
                    let at = choose|i: int| 0 <= i < rows.len() && (#[trigger] rows[i]).id == id;
                    assert(after[at].id == id);
                }
            },
        }
    }
}

/// A task that was created comes back not completed: the reply to a
/// creation carries either the row with the identifier and the text that
/// were given and `completed == false`, under status 201, or a failure, and
/// the failure only where the identifier was taken.
pub proof fn law_created_task_is_open(rows: Seq<TaskView>, id: TaskId, text: Seq<char>)
    ensures
        ({
            let done = spec_perform(rows, spec_create_task(id, text));
            let task = TaskView { id, text, completed: false };
            if holds(rows, id) {
                done.rows == rows && done.reply.response.status == Status::BadRequest
            } else {
                done.rows == rows.push(task) && done.reply == plain(
                    ResponseView { status: Status::Created, body: BodyView::Task(task) },
                )
            }
        }),
{
}

/// A task that is in the table is fetched under its identifier: the reply
/// has status 200 and carries the row with that identifier.
pub proof fn law_get_finds_present(rows: Seq<TaskView>, id: TaskId)
    requires
        distinct_ids(rows),
        holds(rows, id),
    ensures
        ({
            let done = spec_perform(rows, spec_get_task(id));
            &&& done.rows == rows
            &&& done.reply.log is None
            &&& done.reply.response.status == Status::Success
            &&& done.reply.response.body matches BodyView::Task(task)
            &&& task.id == id
            &&& rows.contains(task)
        }),
{
    let at = choose|i: int| 0 <= i < rows.len() && (#[trigger] rows[i]).id == id;
    lemma_present(rows, at, Patch { text: None, completed: None });
}

/// A task that is not in the table is not fetched: the reply is the
/// failure that names no row, as for any other failure of the store.
pub proof fn law_get_misses_absent(rows: Seq<TaskView>, id: TaskId)
    requires
        !holds(rows, id),
    ensures
        spec_perform(rows, spec_get_task(id)) == (Performed {
            rows,
            reply: plain(failure(ROW_NOT_FOUND@)),
        }),
{
    lemma_absent(rows, id, Patch { text: None, completed: None });
}

/// After a task was created under an identifier, and as long as no
/// deletion names that identifier, fetching by it gives a task with that
/// identifier: whatever the service is asked in between. This holds where
/// the creation put the task into the table and also where it was refused
/// because the identifier was taken.
pub proof fn law_get_after_create(
    rows: Seq<TaskView>,
    id: TaskId,
    text: Seq<char>,
    between: Seq<ActionView>,
)
    requires
        distinct_ids(rows),
        forall|k: int| 0 <= k < between.len() ==> !deletes(#[trigger] between[k], id),
    ensures
        ({
            let created = spec_perform(rows, spec_create_task(id, text)).rows;
            let later = spec_perform_all(created, between);
            let reply = spec_perform(later, spec_get_task(id)).reply;
            &&& reply.response.status == Status::Success
            &&& reply.response.body matches BodyView::Task(task)
            &&& task.id == id
        }),
{
    let created = spec_perform(rows, spec_create_task(id, text)).rows;
    law_identifiers_after(rows, spec_create_task(id, text), id);
    lemma_kept_through(created, between, id);
    law_get_finds_present(spec_perform_all(created, between), id);
}

/// A row stays in the table through a run of actions none of which deletes
/// it, and the identifiers stay distinct.
proof fn lemma_kept_through(rows: Seq<TaskView>, actions: Seq<ActionView>, id: TaskId)
    requires
        distinct_ids(rows),
        holds(rows, id),
        forall|k: int| 0 <= k < actions.len() ==> !deletes(#[trigger] actions[k], id),
    ensures
        distinct_ids(spec_perform_all(rows, actions)),
        holds(spec_perform_all(rows, actions), id),
    decreases actions.len(),
{
    if actions.len() > 0 {
        let next = spec_perform(rows, actions[0]).rows;
        law_identifiers_stay_distinct(rows, actions[0]);
        law_identifiers_after(rows, actions[0], id);
        lemma_kept_through(next, actions.drop_first(), id);
    }
}

/// An edit that names neither field fails before the store is touched:
/// whatever the identifier, and whether or not a row has it, the table is
/// left as it is and the reply is "No data provided" under status 400.
pub proof fn law_empty_edit_is_refused(rows: Seq<TaskView>, id: TaskId)
    ensures
        spec_edit_task(id, Patch { text: None, completed: None }) is Respond,
        spec_perform(rows, spec_edit_task(id, Patch { text: None, completed: None })) == (Performed {
            rows,
            reply: plain(failure(NO_DATA@)),
        }),
{
}

/// An edit replaces the fields that it names in the row with the
/// identifier, leaves the other fields of that row and every other row as
/// they are, and sends the row as it now is under status 200.
pub proof fn law_edit_changes_named_fields(rows: Seq<TaskView>, at: int, patch: Patch)
    requires
        distinct_ids(rows),
        0 <= at < rows.len(),
        !patch.is_empty(),
    ensures
        ({
            let edited = patch.apply(rows[at]);
            spec_perform(rows, spec_edit_task(rows[at].id, patch)) == (Performed {
                rows: rows.update(at, edited),
                reply: plain(ResponseView { status: Status::Success, body: BodyView::Task(edited) }),
            })
        }),
{
    let after = rows.update(at, patch.apply(rows[at]));
    lemma_present(rows, at, patch);
    assert(distinct_ids(after));
    lemma_present(after, at, patch);
}

/// An edit with the text alone changes the text and leaves `completed` as
/// it was.
pub proof fn law_edit_text_only(rows: Seq<TaskView>, at: int, text: Seq<char>)
    requires
        distinct_ids(rows),
        0 <= at < rows.len(),
    ensures
        ({
            let edited = TaskView { id: rows[at].id, text, completed: rows[at].completed };
            spec_perform(
                rows,
                spec_edit_task(rows[at].id, Patch { text: Some(text), completed: None }),
            ) == (Performed {
                rows: rows.update(at, edited),
                reply: plain(ResponseView { status: Status::Success, body: BodyView::Task(edited) }),
            })
        }),
{
    law_edit_changes_named_fields(rows, at, Patch { text: Some(text), completed: None });
}

/// An edit with `completed` alone changes `completed` and leaves the text
/// as it was.
pub proof fn law_edit_completed_only(rows: Seq<TaskView>, at: int, completed: bool)
    requires
        distinct_ids(rows),
        0 <= at < rows.len(),
    ensures
        ({
            let edited = TaskView { id: rows[at].id, text: rows[at].text, completed };
            spec_perform(
                rows,
                spec_edit_task(rows[at].id, Patch { text: None, completed: Some(completed) }),
            ) == (Performed {
                rows: rows.update(at, edited),
                reply: plain(ResponseView { status: Status::Success, body: BodyView::Task(edited) }),
            })
        }),
{
    law_edit_changes_named_fields(rows, at, Patch { text: None, completed: Some(completed) });
}

/// An edit of a task that is not in the table changes nothing and fails
/// as fetching that task does.
pub proof fn law_edit_misses_absent(rows: Seq<TaskView>, id: TaskId, patch: Patch)
    requires
        !holds(rows, id),
        !patch.is_empty(),
    ensures
        spec_perform(rows, spec_edit_task(id, patch)) == (Performed {
            rows,
            reply: plain(failure(ROW_NOT_FOUND@)),
        }),
{
    lemma_absent(rows, id, patch);
}

/// A deletion looks the same to the client whether or not the task was
/// there: the reply is always the empty response under status 200, with
/// nothing in the log. After it no row has the identifier, and a table
/// that did not hold the identifier is left as it is.
pub proof fn law_delete_looks_the_same(rows: Seq<TaskView>, id: TaskId)
    ensures
        ({
            let done = spec_perform(rows, spec_delete_task(id));
            &&& done.reply == plain(accepted())
            &&& !holds(done.rows, id)
            &&& !holds(rows, id) ==> done.rows == rows
        }),
{
    let done = spec_perform(rows, spec_delete_task(id));
    if holds(done.rows, id) {
        let at = choose|i: int| 0 <= i < done.rows.len() && (#[trigger] done.rows[i]).id == id;
        rows.lemma_filter_pred(lacks_id(id), at);
    }
    if !holds(rows, id) {
        lemma_absent(rows, id, Patch { text: None, completed: None });
    }
}

/// A deletion removes the row with the identifier and leaves the other
/// rows as they are, in their order.
pub proof fn law_delete_removes_the_row(rows: Seq<TaskView>, at: int)
    requires
        distinct_ids(rows),
        0 <= at < rows.len(),
    ensures
        spec_perform(rows, spec_delete_task(rows[at].id)).rows == rows.remove(at),
{
    lemma_present(rows, at, Patch { text: None, completed: None });
}

/// The list runs from the newest task to the oldest: of two tasks, the one
/// created earlier stands later in the list.
pub proof fn law_list_is_newest_first(rows: Seq<TaskView>, earlier: int, later: int)
    requires
        0 <= earlier < later < rows.len(),
    ensures
        ({
            let done = spec_perform(rows, spec_get_tasks());
            let last = rows.len() - 1;
            &&& done.rows == rows
            &&& done.reply.response.status == Status::Success
            &&& done.reply.response.body matches BodyView::Tasks(tasks)
            &&& tasks.len() == rows.len()
            &&& tasks[last - earlier] == rows[earlier]
            &&& tasks[last - later] == rows[later]
            &&& last - later < last - earlier
        }),
{
}

/// A task that was just created stands first in the list, before the tasks
/// that were listed until then, which keep their order.
pub proof fn law_list_after_create(rows: Seq<TaskView>, id: TaskId, text: Seq<char>)
    requires
        !holds(rows, id),
    ensures
        ({
            let created = spec_perform(rows, spec_create_task(id, text)).rows;
            let task = TaskView { id, text, completed: false };
            &&& spec_perform(rows, spec_get_tasks()).reply.response.body matches BodyView::Tasks(before)
            &&& spec_perform(created, spec_get_tasks()).reply.response.body matches BodyView::Tasks(
                after,
            )
            &&& after == seq![task] + before
        }),
{
    let task = TaskView { id, text, completed: false };
    assert(rows.push(task).reverse() =~= seq![task] + rows.reverse());
}

} // verus!
