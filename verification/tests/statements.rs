use task_service::response::Status;
use task_service::statement::{Mode, Param, Statement};
use task_service::task::TaskId;

fn id(value: u128) -> TaskId {
    TaskId { value }
}

#[test]
fn status_codes_are_200_201_400() {
    assert_eq!(Status::Success.code(), 200);
    assert_eq!(Status::Created.code(), 201);
    assert_eq!(Status::BadRequest.code(), 400);
}

#[test]
fn select_all_orders_by_creation_time_descending() {
    let statement = Statement::SelectAll;
    assert_eq!(statement.sql(), "SELECT * FROM tasks order by created_at desc");
    assert_eq!(statement.params(), Vec::<Param>::new());
    assert_eq!(statement.mode(), Mode::All);
    assert_eq!(statement.success(), Status::Success);
}

#[test]
fn select_one_binds_the_identifier() {
    let statement = Statement::SelectOne { id: id(7) };
    assert_eq!(statement.sql(), "SELECT * FROM tasks WHERE id = $1");
    assert_eq!(statement.params(), vec![Param::Id(id(7))]);
    assert_eq!(statement.mode(), Mode::One);
    assert_eq!(statement.success(), Status::Success);
}

#[test]
fn insert_binds_identifier_then_text_and_stores_false() {
    let statement = Statement::Insert { id: id(7), text: "buy milk".to_string() };
    assert_eq!(
        statement.sql(),
        "INSERT INTO tasks (id, text, completed) VALUES ($1, $2, false) RETURNING id, text, completed"
    );
    assert_eq!(statement.params(), vec![Param::Id(id(7)), Param::Text("buy milk".to_string())]);
    assert_eq!(statement.mode(), Mode::One);
    assert_eq!(statement.success(), Status::Created);
}

#[test]
fn update_both_binds_text_flag_identifier() {
    let statement = Statement::UpdateBoth { id: id(7), text: "walk".to_string(), completed: true };
    assert_eq!(
        statement.sql(),
        "UPDATE tasks SET text = $1, completed = $2 WHERE id = $3 RETURNING id, text, completed"
    );
    assert_eq!(
        statement.params(),
        vec![Param::Text("walk".to_string()), Param::Flag(true), Param::Id(id(7))]
    );
    assert_eq!(statement.mode(), Mode::One);
    assert_eq!(statement.success(), Status::Success);
}

#[test]
fn update_text_binds_text_identifier() {
    let statement = Statement::UpdateText { id: id(9), text: "walk".to_string() };
    assert_eq!(
        statement.sql(),
        "UPDATE tasks SET text = $1 WHERE id = $2 RETURNING id, text, completed"
    );
    assert_eq!(statement.params(), vec![Param::Text("walk".to_string()), Param::Id(id(9))]);
    assert_eq!(statement.mode(), Mode::One);
    assert_eq!(statement.success(), Status::Success);
}

#[test]
fn update_completed_binds_flag_identifier() {
    let statement = Statement::UpdateCompleted { id: id(9), completed: false };
    assert_eq!(
        statement.sql(),
        "UPDATE tasks SET completed = $1 WHERE id = $2 RETURNING id, text, completed"
    );
    assert_eq!(statement.params(), vec![Param::Flag(false), Param::Id(id(9))]);
    assert_eq!(statement.mode(), Mode::One);
    assert_eq!(statement.success(), Status::Success);
}

#[test]
fn delete_binds_the_identifier_and_reads_no_row() {
    let statement = Statement::Delete { id: id(3) };
    assert_eq!(statement.sql(), "DELETE FROM tasks WHERE id = $1");
    assert_eq!(statement.params(), vec![Param::Id(id(3))]);
    assert_eq!(statement.mode(), Mode::Effect);
    assert_eq!(statement.success(), Status::Success);
}

#[test]
fn random_layout_is_version_4_standard_variant() {
    let random = TaskId { value: 0x67e5_5044_10b1_426f_9247_bb68_0e5f_e0c8 };
    assert!(random.is_random());
    let time_based = TaskId { value: 0x67e5_5044_10b1_126f_9247_bb68_0e5f_e0c8 };
    assert!(!time_based.is_random());
    let other_variant = TaskId { value: 0x67e5_5044_10b1_426f_d247_bb68_0e5f_e0c8 };
    assert!(!other_variant.is_random());
    assert!(!TaskId { value: 0 }.is_random());
}
