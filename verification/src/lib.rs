//! Versioned schema migrations kept as directories of SQL scripts.
//!
//! A migration is a directory that holds an `up.sql` and a `down.sql` script
//! and, optionally, a `metadata.toml` document. This crate decides which
//! directories qualify, derives a migration's version from the name of its
//! directory, looks values up in its metadata, and decides what is submitted
//! to a database connection when a script is run.
//!
//! The crate performs no input or output of its own. Whoever calls it lists
//! the directory and reads the files, and hands over what came back,
//! failures included. What those outcomes mean is decided here, and each
//! public function states its result in its contract.

pub mod connection;
pub mod directory;
pub mod errors;
pub mod metadata;
pub mod migration;
pub mod paths;
pub mod version;

pub use connection::{execution_outcome, run_sql_from_file, script_batch, SimpleConnection};
pub use directory::{file_names, valid_sql_migration_directory, Entry, Listing};
pub use errors::{ConnectionError, IoFailure, MigrationError, RunMigrationsError};
pub use metadata::{typed_answer, DummyMetadata, Metadata, MetadataValue, TomlMetadata};
pub use migration::{
    file_name, migration_from, name, shown_path, Migration, MigrationFileName, MigrationName,
    SqlFileMigration,
};
pub use version::{version_from_name, version_from_path};
