use task_service::response::{Body, Reply, Response, Status};
use task_service::service::{create_task, delete_task, edit_task, get_task, get_tasks, Action};
use task_service::statement::Statement;
use task_service::table::Table;
use task_service::task::{EditTask, NewTask, Task, TaskId};

fn id(value: u128) -> TaskId {
    TaskId { value }
}

fn task(value: u128, text: &str, completed: bool) -> Task {
    Task { id: id(value), text: text.to_string(), completed }
}

fn plain(status: Status, body: Body) -> Reply {
    Reply { response: Response { status, body }, log: None }
}

fn failure(message: &str) -> Reply {
    plain(Status::BadRequest, Body::Message(message.to_string()))
}

fn table_of(texts: &[&str]) -> Table {
    let mut table = Table::new();
    for (at, text) in texts.iter().enumerate() {
        let reply = table.perform(create_task(id(at as u128 + 1), NewTask { text: text.to_string() }));
        assert_eq!(reply.response.status, Status::Created);
    }
    table
}

const NOT_FOUND: &str = "no rows returned by a query that expected to return at least one row";

#[test]
fn new_table_is_empty() {
    let mut table = Table::new();
    assert_eq!(table.len(), 0);
    assert_eq!(table.rows(), Vec::<Task>::new());
    assert_eq!(table.perform(get_tasks()), plain(Status::Success, Body::Tasks(Vec::new())));
}

#[test]
fn created_task_is_not_completed() {
    let mut table = Table::new();
    let reply = table.perform(create_task(id(1), NewTask { text: "buy milk".to_string() }));
    assert_eq!(reply, plain(Status::Created, Body::Task(task(1, "buy milk", false))));
    assert_eq!(table.rows(), vec![task(1, "buy milk", false)]);
    assert_eq!(table.len(), 1);
}

#[test]
fn created_task_may_have_empty_text() {
    let mut table = Table::new();
    let reply = table.perform(create_task(id(1), NewTask { text: String::new() }));
    assert_eq!(reply, plain(Status::Created, Body::Task(task(1, "", false))));
}

#[test]
fn taken_identifier_is_refused() {
    let mut table = table_of(&["a"]);
    let reply = table.perform(create_task(id(1), NewTask { text: "again".to_string() }));
    assert_eq!(
        reply,
        failure("duplicate key value violates unique constraint \"tasks_pkey\"")
    );
    assert_eq!(table.rows(), vec![task(1, "a", false)]);
}

#[test]
fn get_after_create_has_the_identifier() {
    let mut table = table_of(&["a", "b", "c"]);
    table.perform(edit_task(id(2), EditTask { text: Some("bb".to_string()), completed: None }));
    table.perform(delete_task(id(1)));
    table.perform(get_tasks());
    let reply = table.perform(get_task(id(2)));
    assert_eq!(reply, plain(Status::Success, Body::Task(task(2, "bb", false))));
}

#[test]
fn get_of_a_missing_task_fails() {
    let mut table = table_of(&["a"]);
    assert_eq!(table.perform(get_task(id(5))), failure(NOT_FOUND));
    assert_eq!(table.rows(), vec![task(1, "a", false)]);
}

#[test]
fn empty_edit_does_not_touch_the_table() {
    let mut table = table_of(&["a"]);
    for value in [1u128, 5] {
        let reply = table.perform(edit_task(id(value), EditTask { text: None, completed: None }));
        assert_eq!(reply, failure("No data provided"));
        assert_eq!(table.rows(), vec![task(1, "a", false)]);
    }
}

#[test]
fn edit_of_text_keeps_completed() {
    let mut table = table_of(&["a", "b"]);
    table.perform(edit_task(id(2), EditTask { text: None, completed: Some(true) }));
    let reply =
        table.perform(edit_task(id(2), EditTask { text: Some("walk".to_string()), completed: None }));
    assert_eq!(reply, plain(Status::Success, Body::Task(task(2, "walk", true))));
    assert_eq!(table.rows(), vec![task(1, "a", false), task(2, "walk", true)]);
}

#[test]
fn edit_of_completed_keeps_text() {
    let mut table = table_of(&["a", "b"]);
    let reply = table.perform(edit_task(id(1), EditTask { text: None, completed: Some(true) }));
    assert_eq!(reply, plain(Status::Success, Body::Task(task(1, "a", true))));
    assert_eq!(table.rows(), vec![task(1, "a", true), task(2, "b", false)]);
    let reply = table.perform(edit_task(id(1), EditTask { text: None, completed: Some(false) }));
    assert_eq!(reply, plain(Status::Success, Body::Task(task(1, "a", false))));
}

#[test]
fn edit_of_both_changes_both() {
    let mut table = table_of(&["a", "b"]);
    let data = EditTask { text: Some("walk".to_string()), completed: Some(true) };
    let reply = table.perform(edit_task(id(1), data));
    assert_eq!(reply, plain(Status::Success, Body::Task(task(1, "walk", true))));
    assert_eq!(table.rows(), vec![task(1, "walk", true), task(2, "b", false)]);
}

#[test]
fn edit_of_a_missing_task_fails() {
    let mut table = table_of(&["a"]);
    let data = EditTask { text: Some("walk".to_string()), completed: Some(true) };
    assert_eq!(table.perform(edit_task(id(5), data)), failure(NOT_FOUND));
    assert_eq!(table.rows(), vec![task(1, "a", false)]);
}

#[test]
fn delete_looks_the_same_with_and_without_the_task() {
    let mut table = table_of(&["a", "b", "c"]);
    let present = table.perform(delete_task(id(2)));
    assert_eq!(table.rows(), vec![task(1, "a", false), task(3, "c", false)]);
    let again = table.perform(delete_task(id(2)));
    let never = table.perform(delete_task(id(9)));
    assert_eq!(present, plain(Status::Success, Body::Empty));
    assert_eq!(again, present);
    assert_eq!(never, present);
    assert_eq!(table.rows(), vec![task(1, "a", false), task(3, "c", false)]);
}

#[test]
fn list_is_newest_first() {
    let mut table = table_of(&["a", "b", "c"]);
    let reply = table.perform(get_tasks());
    assert_eq!(
        reply,
        plain(
            Status::Success,
            Body::Tasks(vec![task(3, "c", false), task(2, "b", false), task(1, "a", false)])
        )
    );
    table.perform(create_task(id(0), NewTask { text: "d".to_string() }));
    let reply = table.perform(get_tasks());
    assert_eq!(
        reply,
        plain(
            Status::Success,
            Body::Tasks(vec![
                task(0, "d", false),
                task(3, "c", false),
                task(2, "b", false),
                task(1, "a", false),
            ])
        )
    );
}

#[test]
fn list_keeps_its_order_under_edits_and_deletions() {
    let mut table = table_of(&["a", "b", "c"]);
    table.perform(edit_task(id(1), EditTask { text: Some("z".to_string()), completed: None }));
    table.perform(delete_task(id(2)));
    let reply = table.perform(get_tasks());
    assert_eq!(
        reply,
        plain(Status::Success, Body::Tasks(vec![task(3, "c", false), task(1, "z", false)]))
    );
}

#[test]
fn respond_leaves_the_table_alone() {
    let mut table = table_of(&["a"]);
    let response = Response { status: Status::BadRequest, body: Body::Message("no".to_string()) };
    let reply = table.perform(Action::Respond { response });
    assert_eq!(reply, failure("no"));
    assert_eq!(table.rows(), vec![task(1, "a", false)]);
}

#[test]
fn run_returns_the_rows_of_the_statement() {
    let mut table = table_of(&["a", "b"]);
    assert_eq!(
        table.run(&Statement::SelectAll),
        Ok(vec![task(2, "b", false), task(1, "a", false)])
    );
    assert_eq!(table.run(&Statement::SelectOne { id: id(2) }), Ok(vec![task(2, "b", false)]));
    assert_eq!(table.run(&Statement::SelectOne { id: id(7) }), Ok(Vec::new()));
    assert_eq!(
        table.run(&Statement::Insert { id: id(7), text: "c".to_string() }),
        Ok(vec![task(7, "c", false)])
    );
    assert_eq!(
        table.run(&Statement::Insert { id: id(7), text: "d".to_string() }),
        Err("duplicate key value violates unique constraint \"tasks_pkey\"".to_string())
    );
    assert_eq!(
        table.run(&Statement::UpdateText { id: id(7), text: "d".to_string() }),
        Ok(vec![task(7, "d", false)])
    );
    assert_eq!(
        table.run(&Statement::UpdateBoth { id: id(7), text: "e".to_string(), completed: true }),
        Ok(vec![task(7, "e", true)])
    );
    assert_eq!(
        table.run(&Statement::UpdateCompleted { id: id(7), completed: false }),
        Ok(vec![task(7, "e", false)])
    );
    assert_eq!(
        table.run(&Statement::UpdateCompleted { id: id(8), completed: false }),
        Ok(Vec::new())
    );
    assert_eq!(table.run(&Statement::Delete { id: id(7) }), Ok(Vec::new()));
    assert_eq!(table.run(&Statement::Delete { id: id(7) }), Ok(Vec::new()));
    assert_eq!(table.len(), 2);
    assert_eq!(table.rows(), vec![task(1, "a", false), task(2, "b", false)]);
}
