use task_service::response::{Body, Status};
use task_service::service::{add_task, delete_task, edit_task, get_task, get_tasks};
use task_service::table::Table;
use task_service::task::{EditTask, NewTask, Task};

#[test]
fn buy_milk_from_creation_to_deletion() {
    let mut table = Table::new();

    let created = table.perform(add_task(NewTask { text: "buy milk".to_string() }));
    assert_eq!(created.response.status.code(), 201);
    assert_eq!(created.log, None);
    let task = match created.response.body {
        Body::Task(task) => task,
        other => panic!("no task in the body: {:?}", other),
    };
    assert!(task.id.is_random());
    assert_eq!(task.text, "buy milk");
    assert!(!task.completed);
    let id = task.id;

    let edited = table.perform(edit_task(id, EditTask { text: None, completed: Some(true) }));
    assert_eq!(edited.response.status.code(), 200);
    let expected = Task { id, text: "buy milk".to_string(), completed: true };
    assert_eq!(edited.response.body, Body::Task(expected.clone()));

    let fetched = table.perform(get_task(id));
    assert_eq!(fetched.response.status.code(), 200);
    assert_eq!(fetched.response.body, Body::Task(expected));

    let deleted = table.perform(delete_task(id));
    assert_eq!(deleted.response.status, Status::Success);
    assert_eq!(deleted.response.body, Body::Empty);
    assert_eq!(deleted.log, None);

    let missing = table.perform(get_task(id));
    assert_eq!(missing.response.status.code(), 400);
    assert!(matches!(missing.response.body, Body::Message(_)));

    let listed = table.perform(get_tasks());
    assert_eq!(listed.response.status.code(), 200);
    match listed.response.body {
        Body::Tasks(tasks) => assert!(tasks.iter().all(|task| task.id != id)),
        other => panic!("no list in the body: {:?}", other),
    }
}

#[test]
fn other_tasks_outlive_the_deleted_one() {
    let mut table = Table::new();
    let first = match table.perform(add_task(NewTask { text: "first".to_string() })).response.body {
        Body::Task(task) => task,
        other => panic!("no task in the body: {:?}", other),
    };
    let second = match table.perform(add_task(NewTask { text: "second".to_string() })).response.body {
        Body::Task(task) => task,
        other => panic!("no task in the body: {:?}", other),
    };
    table.perform(delete_task(first.id));
    let listed = table.perform(get_tasks());
    assert_eq!(listed.response.body, Body::Tasks(vec![second]));
}
