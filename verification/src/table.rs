//! The table of tasks that the service expects behind it.
//!
//! The rows are kept in the order of their creation and no identifier occurs
//! twice. `spec_run` says what each statement does to such a table and what
//! it returns; [`Table`] is that table held in memory, for a service that
//! runs without a database.

use vstd::prelude::*;
use crate::filters::{
    lemma_filter_drops_one, lemma_filter_keeps_all, lemma_filter_keeps_none, lemma_filter_keeps_one,
};
use crate::response::{Reply, ReplyView};
use crate::service::{finish, plain, returned_view, spec_finish, Action, ActionView};
use crate::statement::{Statement, StatementView};
use crate::task::{task_views, Patch, Task, TaskId, TaskView};

verus! {

/// The store's message when a row with the identifier exists already.
pub const DUPLICATE_ID: &'static str =
    "duplicate key value violates unique constraint \"tasks_pkey\"";

/// The rows with the given identifier.
pub open spec fn has_id(id: TaskId) -> spec_fn(TaskView) -> bool {
    |task: TaskView| task.id == id
}

/// The rows with another identifier than the given one.
pub open spec fn lacks_id(id: TaskId) -> spec_fn(TaskView) -> bool {
    |task: TaskView| task.id != id
}

/// Replaces the fields that the patch names in the rows with the given
/// identifier and leaves every other row as it is.
pub open spec fn patching(id: TaskId, patch: Patch) -> spec_fn(TaskView) -> TaskView {
    |task: TaskView|
        if task.id == id {
            patch.apply(task)
        } else {
            task
        }
}

/// Whether some row has the given identifier.
pub open spec fn holds(rows: Seq<TaskView>, id: TaskId) -> bool {
    exists|i: int| 0 <= i < rows.len() && (#[trigger] rows[i]).id == id
}

/// Whether no identifier occurs in two rows.
pub open spec fn distinct_ids(rows: Seq<TaskView>) -> bool {
    forall|i: int, j: int|
        0 <= i < j < rows.len() ==> (#[trigger] rows[i]).id != (#[trigger] rows[j]).id
}

/// A table after a statement, and what the statement returned: its rows,
/// or the store's message where it was refused.
pub struct Ran {
    pub rows: Seq<TaskView>,
    pub returned: Result<Seq<TaskView>, Seq<char>>,
}

/// An update: the patch is applied to the rows with the identifier, and the
/// rows so changed are returned.
pub open spec fn spec_update(rows: Seq<TaskView>, id: TaskId, patch: Patch) -> Ran {
    let after = rows.map_values(patching(id, patch));
    Ran { rows: after, returned: Ok(after.filter(has_id(id))) }
}

/// What a statement does to the table and what it returns.
///
/// Listing returns the rows from the newest to the oldest. A new row goes
/// behind all others, is not completed, and is refused if its identifier is
/// taken. A deletion keeps the rows with other identifiers, in their order,
/// returns no row, and succeeds whether or not it removed one.
pub open spec fn spec_run(rows: Seq<TaskView>, statement: StatementView) -> Ran {
    match statement {
        StatementView::SelectAll => Ran { rows, returned: Ok(rows.reverse()) },
        StatementView::SelectOne { id } => Ran { rows, returned: Ok(rows.filter(has_id(id))) },
        StatementView::Insert { id, text } => if holds(rows, id) {
            Ran { rows, returned: Err(DUPLICATE_ID@) }
        } else {
            let task = TaskView { id, text, completed: false };
            Ran { rows: rows.push(task), returned: Ok(seq![task]) }
        },
        StatementView::UpdateBoth { id, .. } => spec_update(rows, id, statement.patch()),
        StatementView::UpdateText { id, .. } => spec_update(rows, id, statement.patch()),
        StatementView::UpdateCompleted { id, .. } => spec_update(rows, id, statement.patch()),
        StatementView::Delete { id } => Ran {
            rows: rows.filter(lacks_id(id)),
            returned: Ok(Seq::<TaskView>::empty()),
        },
    }
}

/// A table after an action, and the reply to the request.
pub struct Performed {
    pub rows: Seq<TaskView>,
    pub reply: ReplyView,
}

/// What becomes of the table and of the request when an action of the
/// service is carried out against the table.
pub open spec fn spec_perform(rows: Seq<TaskView>, action: ActionView) -> Performed {
    match action {
        ActionView::Query { statement } => {
            let ran = spec_run(rows, statement);
            Performed { rows: ran.rows, reply: spec_finish(statement, ran.returned) }
        },
        ActionView::Respond { response } => Performed { rows, reply: plain(response) },
    }
}

/// In a table without the identifier, no row is selected, patched or
/// deleted by it.
pub proof fn lemma_absent(rows: Seq<TaskView>, id: TaskId, patch: Patch)
    requires
        !holds(rows, id),
    ensures
        rows.filter(has_id(id)) == Seq::<TaskView>::empty(),
        rows.filter(lacks_id(id)) == rows,
        rows.map_values(patching(id, patch)) == rows,
{
    lemma_filter_keeps_none(rows, has_id(id));
    lemma_filter_keeps_all(rows, lacks_id(id));
}

/// In a table of distinct identifiers, the identifier of a row selects that
/// row alone, a patch by it changes that row alone, and a deletion by it
/// removes that row alone.
pub proof fn lemma_present(rows: Seq<TaskView>, at: int, patch: Patch)
    requires
        distinct_ids(rows),
        0 <= at < rows.len(),
    ensures
        holds(rows, rows[at].id),
        rows.filter(has_id(rows[at].id)) == seq![rows[at]],
        rows.filter(lacks_id(rows[at].id)) == rows.remove(at),
        rows.map_values(patching(rows[at].id, patch)) == rows.update(at, patch.apply(rows[at])),
{
    let id = rows[at].id;
    lemma_filter_keeps_one(rows, has_id(id), at);
    lemma_filter_drops_one(rows, lacks_id(id), at);
}

/// Every statement keeps the identifiers of a table distinct.
pub proof fn lemma_run_keeps_distinct(rows: Seq<TaskView>, statement: StatementView)
    requires
        distinct_ids(rows),
    ensures
        distinct_ids(spec_run(rows, statement).rows),
{
    if let StatementView::Delete { id } = statement {
        if holds(rows, id) {
            let at = choose|i: int| 0 <= i < rows.len() && (#[trigger] rows[i]).id == id;
            lemma_present(rows, at, statement.patch());
        } else {
            lemma_absent(rows, id, statement.patch());
        }
    }
}

/// The table of tasks, held in memory.
pub struct Table {
    rows: Vec<Task>,
}

impl View for Table {
    type V = Seq<TaskView>;

    /// The rows, the oldest first.
    closed spec fn view(&self) -> Seq<TaskView> {
        task_views(self.rows@)
    }
}

impl Table {
    /// No identifier occurs twice.
    #[verifier::type_invariant]
    spec fn distinct(self) -> bool {
        distinct_ids(task_views(self.rows@))
    }

    /// The empty table.
    pub fn new() -> (table: Table)
        ensures
            table@ == Seq::<TaskView>::empty(),
    {
        Table { rows: Vec::new() }
    }

    /// The number of rows.
    pub fn len(&self) -> (len: usize)
        ensures
            len == self@.len(),
    {
        self.rows.len()
    }

    /// A copy of the rows, the oldest first. No identifier occurs twice in
    /// them.
    pub fn rows(&self) -> (rows: Vec<Task>)
        ensures
            task_views(rows@) == self@,
            distinct_ids(self@),
    {
        proof {
            use_type_invariant(self);
        }
        let mut rows: Vec<Task> = Vec::new();
        let mut next: usize = 0;
        while next < self.rows.len()
            invariant
                next <= self.rows.len(),
                rows@ == self.rows@.take(next as int),
            decreases self.rows.len() - next,
        {
            rows.push(self.rows[next].clone());
            next += 1;
        }
        rows
    }

    /// Takes the rows out for a change; the table is empty until they are put
    /// back.
    fn take_rows(&mut self) -> (rows: Vec<Task>)
        ensures
            task_views(rows@) == old(self)@,
            distinct_ids(old(self)@),
            final(self)@ == Seq::<TaskView>::empty(),
    {
        proof {
            use_type_invariant(&*self);
        }
        let mut rows: Vec<Task> = Vec::new();
        std::mem::swap(&mut self.rows, &mut rows);
        rows
    }

    /// Where the row with the identifier stands, if there is one.
    fn position(&self, id: TaskId) -> (found: Option<usize>)
        ensures
            match found {
                Some(at) => at < self@.len() && self@[at as int].id == id,
                None => !holds(self@, id),
            },
    {
        let mut at: usize = 0;
        while at < self.rows.len()
            invariant
                at <= self.rows.len(),
                forall|i: int| 0 <= i < at ==> (#[trigger] self@[i]).id != id,
            decreases self.rows.len() - at,
        {
            if self.rows[at].id == id {
                return Some(at);
            }
            at += 1;
        }
        None
    }

    /// The rows from the newest to the oldest.
    fn select_all(&self) -> (tasks: Vec<Task>)
        ensures
            task_views(tasks@) == self@.reverse(),
    {
        let mut tasks: Vec<Task> = Vec::new();
        let mut left: usize = self.rows.len();
        while left > 0
            invariant
                left <= self.rows.len(),
                tasks@.len() == self.rows.len() - left,
                forall|k: int|
                    0 <= k < tasks@.len() ==> #[trigger] tasks@[k] == self.rows@[self.rows.len() - 1
                        - k],
            decreases left,
        {
            left -= 1;
            tasks.push(self.rows[left].clone());
        }
        tasks
    }

    /// The rows with the identifier.
    fn select_one(&self, id: TaskId) -> (tasks: Vec<Task>)
        ensures
            task_views(tasks@) == self@.filter(has_id(id)),
    {
        proof {
            use_type_invariant(self);
        }
        let mut tasks: Vec<Task> = Vec::new();
        match self.position(id) {
            Some(at) => {
                tasks.push(self.rows[at].clone());
                proof {
                    lemma_present(self@, at as int, Patch { text: None, completed: None });
                }
            },
            None => {
                proof {
                    lemma_absent(self@, id, Patch { text: None, completed: None });
                }
            },
        }
        tasks
    }

    /// Adds a row that is not completed, unless the identifier is taken.
    fn insert(&mut self, id: TaskId, text: &String) -> (returned: Result<Vec<Task>, String>)
        ensures
            (Ran { rows: final(self)@, returned: returned_view(returned) }) == spec_run(
                old(self)@,
                StatementView::Insert { id, text: text@ },
            ),
    {
        match self.position(id) {
            Some(_) => Err(DUPLICATE_ID.to_owned()),
            None => {
                let task = Task { id, text: text.clone(), completed: false };
                let mut rows = self.take_rows();
                rows.push(task.clone());
                proof {
                    assert(task_views(rows@) =~= old(self)@.push(task@));
                }
                self.rows = rows;
                let mut tasks: Vec<Task> = Vec::new();
                tasks.push(task);
                assert(task_views(tasks@) =~= seq![task@]);
                Ok(tasks)
            },
        }
    }

    /// Replaces the given fields of the row with the identifier.
    fn update(&mut self, id: TaskId, text: Option<&String>, completed: Option<bool>) -> (tasks: Vec<
        Task,
    >)
        ensures
            (Ran { rows: final(self)@, returned: Ok(task_views(tasks@)) }) == spec_update(
                old(self)@,
                id,
                Patch {
                    text: match text {
                        Some(text) => Some(text@),
                        None => None,
                    },
                    completed,
                },
            ),
    {
        let ghost patch = Patch {
            text: match text {
                Some(text) => Some(text@),
                None => None,
            },
            completed,
        };
        let mut tasks: Vec<Task> = Vec::new();
        match self.position(id) {
            Some(at) => {
                let row = &self.rows[at];
                let patched = Task {
                    id: row.id,
                    text: match text {
                        Some(text) => text.clone(),
                        None => row.text.clone(),
                    },
                    completed: match completed {
                        Some(completed) => completed,
                        None => row.completed,
                    },
                };
                let mut rows = self.take_rows();
                rows.set(at, patched.clone());
                tasks.push(patched);
                proof {
                    let before = old(self)@;
                    let after = task_views(rows@);
                    lemma_present(before, at as int, patch);
                    assert(after =~= before.update(at as int, patch.apply(before[at as int])));
                    lemma_present(after, at as int, patch);
                    assert(task_views(tasks@) =~= seq![after[at as int]]);
                }
                self.rows = rows;
            },
            None => {
                proof {
                    lemma_absent(self@, id, patch);
                    assert(task_views(tasks@) =~= Seq::<TaskView>::empty());
                }
            },
        }
        tasks
    }

    /// Removes the row with the identifier, if there is one.
    fn delete(&mut self, id: TaskId)
        ensures
            final(self)@ == old(self)@.filter(lacks_id(id)),
    {
        match self.position(id) {
            Some(at) => {
                let mut rows = self.take_rows();
                rows.remove(at);
                proof {
                    lemma_present(old(self)@, at as int, Patch { text: None, completed: None });
                    assert(task_views(rows@) =~= old(self)@.remove(at as int));
                }
                self.rows = rows;
            },
            None => {
                proof {
                    lemma_absent(self@, id, Patch { text: None, completed: None });
                }
            },
        }
    }

    /// Runs a statement against the table and gives what it returned. No
    /// identifier occurs twice in the table, before or after.
    pub fn run(&mut self, statement: &Statement) -> (returned: Result<Vec<Task>, String>)
        ensures
            (Ran { rows: final(self)@, returned: returned_view(returned) }) == spec_run(
                old(self)@,
                statement@,
            ),
            distinct_ids(old(self)@),
            distinct_ids(final(self)@),
    {
        proof {
            use_type_invariant(&*self);
            lemma_run_keeps_distinct(self@, statement@);
        }
        match statement {
            Statement::SelectAll => Ok(self.select_all()),
            Statement::SelectOne { id } => Ok(self.select_one(*id)),
            Statement::Insert { id, text } => self.insert(*id, text),
            Statement::UpdateBoth { id, text, completed } => Ok(
                self.update(*id, Some(text), Some(*completed)),
            ),
            Statement::UpdateText { id, text } => Ok(self.update(*id, Some(text), None)),
            Statement::UpdateCompleted { id, completed } => Ok(
                self.update(*id, None, Some(*completed)),
            ),
            Statement::Delete { id } => {
                self.delete(*id);
                let none: Vec<Task> = Vec::new();
                assert(task_views(none@) =~= Seq::<TaskView>::empty());
                Ok(none)
            },
        }
    }

    /// Carries out an action of the service against the table and gives the
    /// reply to the request. No identifier occurs twice in the table, before
    /// or after.
    pub fn perform(&mut self, action: Action) -> (reply: Reply)
        ensures
            (Performed { rows: final(self)@, reply: reply@ }) == spec_perform(old(self)@, action@),
            distinct_ids(old(self)@),
            distinct_ids(final(self)@),
    {
        proof {
            use_type_invariant(&*self);
        }
        match action {
            Action::Query { statement } => {
                let returned = self.run(&statement);
                finish(&statement, returned)
            },
            Action::Respond { response } => Reply { response, log: None },
        }
    }
}

} // verus!
