use todo_backend::error::StoreError;
use todo_backend::statement::{Outcome, Param, Statement};
use todo_backend::table::Table;
use todo_backend::todo::Todo;

#[test]
fn select_all_has_its_text_and_no_values() {
    let statement = Statement::SelectAll;
    assert_eq!(statement.sql(), "SELECT id, description, done FROM todos ORDER BY id");
    assert_eq!(statement.params(), Vec::<Param>::new());
}

#[test]
fn insert_binds_the_description() {
    let statement = Statement::Insert { description: "buy milk".to_string() };
    assert_eq!(statement.sql(), "INSERT INTO todos (description) VALUES (?)");
    assert_eq!(statement.params(), vec![Param::Text("buy milk".to_string())]);
}

#[test]
fn update_binds_description_flag_and_id_in_that_order() {
    let statement = Statement::Update { id: 7, description: "buy milk".to_string(), done: true };
    assert_eq!(statement.sql(), "UPDATE todos SET description = ?, done = ? WHERE id = ?");
    assert_eq!(
        statement.params(),
        vec![Param::Text("buy milk".to_string()), Param::Boolean(true), Param::Integer(7)]
    );
}

#[test]
fn delete_binds_the_id() {
    let statement = Statement::Delete { id: -3 };
    assert_eq!(statement.sql(), "DELETE FROM todos WHERE id = ?");
    assert_eq!(statement.params(), vec![Param::Integer(-3)]);
}

#[test]
fn each_text_has_one_placeholder_for_each_value() {
    let statements = [
        Statement::SelectAll,
        Statement::Insert { description: "a?b".to_string() },
        Statement::Update { id: 1, description: "??".to_string(), done: false },
        Statement::Delete { id: 1 },
    ];
    for statement in statements {
        let placeholders = statement.sql().matches('?').count();
        assert_eq!(placeholders, statement.params().len());
    }
}

#[test]
fn statements_run_on_a_table_in_memory() {
    let mut table = Table::new();
    let inserted = Statement::Insert { description: "write spec".to_string() }.execute(&mut table);
    assert_eq!(inserted, Outcome::Done);
    let listed = Statement::SelectAll.execute(&mut table);
    assert_eq!(
        listed,
        Outcome::Rows(vec![Todo { id: 1, description: "write spec".to_string(), done: false }])
    );
    let updated = Statement::Update { id: 1, description: "write spec".to_string(), done: true }
        .execute(&mut table);
    assert_eq!(updated, Outcome::Done);
    assert_eq!(
        Statement::SelectAll.execute(&mut table),
        Outcome::Rows(vec![Todo { id: 1, description: "write spec".to_string(), done: true }])
    );
    assert_eq!(Statement::Delete { id: 1 }.execute(&mut table), Outcome::Done);
    assert_eq!(Statement::SelectAll.execute(&mut table), Outcome::Rows(vec![]));
}

#[test]
fn update_and_delete_of_a_missing_id_still_go_through() {
    let mut table = Table::new();
    let updated =
        Statement::Update { id: 9, description: "nobody".to_string(), done: true }.execute(&mut table);
    assert_eq!(updated, Outcome::Done);
    assert_eq!(Statement::Delete { id: 9 }.execute(&mut table), Outcome::Done);
    assert_eq!(table.list(), Vec::<Todo>::new());
}

#[test]
fn insert_fails_when_no_id_is_left() {
    let mut table = Table::starting_after(i64::MAX);
    let outcome = Statement::Insert { description: "late".to_string() }.execute(&mut table);
    assert_eq!(
        outcome,
        Outcome::Failed(StoreError { message: "database or disk is full".to_string() })
    );
    assert_eq!(table.list(), Vec::<Todo>::new());
}

#[test]
fn executing_leaves_the_statement_as_it_was() {
    let mut table = Table::new();
    let statement = Statement::Insert { description: "twice".to_string() };
    assert_eq!(statement.execute(&mut table), Outcome::Done);
    assert_eq!(statement.execute(&mut table), Outcome::Done);
    assert_eq!(statement, Statement::Insert { description: "twice".to_string() });
    assert_eq!(
        table.list(),
        vec![
            Todo { id: 1, description: "twice".to_string(), done: false },
            Todo { id: 2, description: "twice".to_string(), done: false },
        ]
    );
}
