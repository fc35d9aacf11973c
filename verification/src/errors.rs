//! The failures this crate reports.

use std::path::PathBuf;
use vstd::prelude::*;

verus! {

/// Why the file system did not deliver what was asked of it.
#[derive(Debug, PartialEq, Eq)]
pub enum IoFailure {
    /// The operating system reported an error; the text describes it.
    Os(String),
    /// The name of a directory entry is not valid Unicode.
    UndecodableName,
}

/// The failure that a connection reported for a batch of statements.
#[derive(Debug, PartialEq, Eq)]
pub struct ConnectionError {
    /// The connection's description of what went wrong.
    pub message: String,
}

/// Why a directory could not be loaded as a migration.
#[derive(Debug, PartialEq, Eq)]
pub enum MigrationError {
    /// The path does not name a migration: a required script is missing, or
    /// the path stands for no version, because it has no final component or
    /// because that component leaves the version empty.
    UnknownMigrationFormat(PathBuf),
    /// The metadata document could not be decoded, or one of its values
    /// could not be read as the type that was asked for.
    InvalidMetadata(toml::de::Error),
    /// Listing the directory or reading one of its files failed.
    IoError(IoFailure),
}

/// Why running or reverting a migration failed.
#[derive(Debug, PartialEq, Eq)]
pub enum RunMigrationsError {
    /// The migration itself could not be read.
    MigrationError(MigrationError),
    /// The connection rejected the batch.
    QueryError(ConnectionError),
    /// The script holds no text at all, so nothing was submitted.
    EmptyMigration,
}

} // verus!
