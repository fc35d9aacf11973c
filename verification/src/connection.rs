//! Running a script against a database connection.
//!
//! The text of a script is submitted to the connection whole, as one batch.
//! A script without any text is refused before anything is submitted.

use crate::errors::{ConnectionError, IoFailure, MigrationError, RunMigrationsError};
use vstd::prelude::*;

verus! {

/// A connection that can execute a batch of statements.
pub trait SimpleConnection {
    /// Executes every statement in `query`, or reports why that failed.
    fn batch_execute(&self, query: &str) -> Result<(), ConnectionError>;
}

/// What is submitted for a script, given what reading its file gave: the
/// whole text as one batch. There is no batch for a file that could not be
/// read, nor for a script without text, which is refused as an empty
/// migration.
pub open spec fn batch_of(script: Result<String, IoFailure>) -> Result<
    Seq<char>,
    RunMigrationsError,
> {
    match script {
        Err(failure) => Err(RunMigrationsError::MigrationError(MigrationError::IoError(failure))),
        Ok(text) => if text@.len() == 0 {
            Err(RunMigrationsError::EmptyMigration)
        } else {
            Ok(text@)
        },
    }
}

/// What a run comes to, given what the connection answered to the batch: a
/// failure of the connection is a query error.
pub open spec fn outcome_of(executed: Result<(), ConnectionError>) -> Result<
    (),
    RunMigrationsError,
> {
    match executed {
        Ok(()) => Ok(()),
        Err(cause) => Err(RunMigrationsError::QueryError(cause)),
    }
}

/// Whether `executed` is an answer of `conn` to a query whose text is
/// `batch`.
pub open spec fn answers_to<C: SimpleConnection + ?Sized>(
    conn: &C,
    batch: Seq<char>,
    executed: Result<(), ConnectionError>,
) -> bool {
    exists|query: &str|
        query@ == batch && call_ensures(
            <C as SimpleConnection>::batch_execute,
            (conn, query),
            executed,
        )
}

/// The batch to submit for a script, given what reading its file gave. Only
/// a script that could be read and holds some text yields a batch, and the
/// batch is that text, unchanged.
pub fn script_batch(script: Result<String, IoFailure>) -> (r: Result<String, RunMigrationsError>)
    ensures
        match batch_of(script) {
            Ok(batch) => r matches Ok(text) && text@ == batch,
            Err(error) => r == Err::<String, RunMigrationsError>(error),
        },
{
    match script {
        Err(failure) => Err(RunMigrationsError::MigrationError(MigrationError::IoError(failure))),
        Ok(text) => {
            if text.as_str().is_empty() {
                Err(RunMigrationsError::EmptyMigration)
            } else {
                Ok(text)
            }
        },
    }
}

/// What a run comes to, given what the connection answered to the batch.
pub fn execution_outcome(executed: Result<(), ConnectionError>) -> (r: Result<
    (),
    RunMigrationsError,
>)
    ensures
        r == outcome_of(executed),
{
    match executed {
        Ok(()) => Ok(()),
        Err(cause) => Err(RunMigrationsError::QueryError(cause)),
    }
}

/// Whether `r` is what running a script against `conn` comes to, given what
/// reading its file gave. Where there is no batch for the script, the run
/// fails with the error that `batch_of` gives: the failure to read the file,
/// or the refusal of an empty migration. Where there is one, the run comes
/// to what `conn` answers to the batch.
pub open spec fn is_run_of<C: SimpleConnection + ?Sized>(
    r: Result<(), RunMigrationsError>,
    conn: &C,
    script: Result<String, IoFailure>,
) -> bool {
    match batch_of(script) {
        Ok(batch) => exists|executed: Result<(), ConnectionError>|
            answers_to(conn, batch, executed) && r == outcome_of(executed),
        Err(error) => r == Err::<(), RunMigrationsError>(error),
    }
}

/// Runs a script against `conn`, given what reading its file gave. A script
/// that could not be read fails the run with that failure, and a script
/// without text fails it as an empty migration. Otherwise the run comes to
/// what `conn` answers when the whole text is submitted to it.
pub fn run_sql_from_file<C: SimpleConnection + ?Sized>(
    conn: &C,
    script: Result<String, IoFailure>,
) -> (r: Result<(), RunMigrationsError>)
    ensures
        is_run_of(r, conn, script),
{
    match script_batch(script) {
        Ok(batch) => execution_outcome(conn.batch_execute(batch.as_str())),
        Err(error) => Err(error),
    }
}

/// A script without text is never submitted: there is no batch for it, and
/// running it fails as an empty migration.
pub proof fn lemma_empty_script_is_not_submitted(text: String)
    requires
        text@.len() == 0,
    ensures
        batch_of(Ok(text)) == Err::<Seq<char>, RunMigrationsError>(
            RunMigrationsError::EmptyMigration,
        ),
{
}

/// A script with text is submitted whole: the one batch for it is its text.
pub proof fn lemma_script_is_submitted_whole(text: String)
    requires
        text@.len() > 0,
    ensures
        batch_of(Ok(text)) == Ok::<Seq<char>, RunMigrationsError>(text@),
{
}

} // verus!
