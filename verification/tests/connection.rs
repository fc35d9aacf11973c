use migrations_internals::{
    execution_outcome, run_sql_from_file, script_batch, ConnectionError, IoFailure,
    MigrationError, RunMigrationsError, SimpleConnection,
};
use std::cell::RefCell;

struct Stub {
    answer: Result<(), ConnectionError>,
    batches: RefCell<Vec<String>>,
}

impl Stub {
    fn accepting() -> Stub {
        Stub { answer: Ok(()), batches: RefCell::new(Vec::new()) }
    }

    fn rejecting(message: &str) -> Stub {
        Stub {
            answer: Err(ConnectionError { message: message.to_string() }),
            batches: RefCell::new(Vec::new()),
        }
    }
}

impl SimpleConnection for Stub {
    fn batch_execute(&self, query: &str) -> Result<(), ConnectionError> {
        self.batches.borrow_mut().push(query.to_string());
        match &self.answer {
            Ok(()) => Ok(()),
            Err(cause) => Err(ConnectionError { message: cause.message.clone() }),
        }
    }
}

#[test]
fn empty_script_is_refused_without_calling_the_connection() {
    let conn = Stub::accepting();

    let outcome = run_sql_from_file(&conn, Ok(String::new()));

    assert_eq!(Err(RunMigrationsError::EmptyMigration), outcome);
    assert!(conn.batches.borrow().is_empty());
}

#[test]
fn script_is_submitted_whole_as_one_batch() {
    let conn = Stub::accepting();
    let script = "CREATE TABLE users (id INTEGER PRIMARY KEY);\n\nCREATE INDEX i ON users (id);\n";

    let outcome = run_sql_from_file(&conn, Ok(script.to_string()));

    assert_eq!(Ok(()), outcome);
    assert_eq!(vec![script.to_string()], *conn.batches.borrow());
}

#[test]
fn blank_script_is_not_empty() {
    let conn = Stub::accepting();

    let outcome = run_sql_from_file(&conn, Ok(" \n".to_string()));

    assert_eq!(Ok(()), outcome);
    assert_eq!(vec![" \n".to_string()], *conn.batches.borrow());
}

#[test]
fn failure_of_the_connection_is_a_query_error() {
    let conn = Stub::rejecting("syntax error at or near \"CREAT\"");

    let outcome = run_sql_from_file(&conn, Ok("CREAT TABLE users ();".to_string()));

    assert_eq!(
        Err(RunMigrationsError::QueryError(ConnectionError {
            message: "syntax error at or near \"CREAT\"".to_string()
        })),
        outcome
    );
    assert_eq!(vec!["CREAT TABLE users ();".to_string()], *conn.batches.borrow());
}

#[test]
fn unreadable_script_fails_without_calling_the_connection() {
    let conn = Stub::accepting();
    let failure = IoFailure::Os("No such file or directory (os error 2)".to_string());

    let outcome = run_sql_from_file(&conn, Err(failure));

    assert_eq!(
        Err(RunMigrationsError::MigrationError(MigrationError::IoError(IoFailure::Os(
            "No such file or directory (os error 2)".to_string()
        )))),
        outcome
    );
    assert!(conn.batches.borrow().is_empty());
}

#[test]
fn batch_of_a_script_is_its_text() {
    assert_eq!(Ok("SELECT 1;".to_string()), script_batch(Ok("SELECT 1;".to_string())));
    assert_eq!(Ok("-".to_string()), script_batch(Ok("-".to_string())));
}

#[test]
fn empty_script_has_no_batch() {
    assert_eq!(Err(RunMigrationsError::EmptyMigration), script_batch(Ok(String::new())));
}

#[test]
fn unreadable_script_has_no_batch() {
    assert_eq!(
        Err(RunMigrationsError::MigrationError(MigrationError::IoError(
            IoFailure::UndecodableName
        ))),
        script_batch(Err(IoFailure::UndecodableName))
    );
}

#[test]
fn outcome_follows_the_connection() {
    assert_eq!(Ok(()), execution_outcome(Ok(())));
    assert_eq!(
        Err(RunMigrationsError::QueryError(ConnectionError { message: "locked".to_string() })),
        execution_outcome(Err(ConnectionError { message: "locked".to_string() }))
    );
}
