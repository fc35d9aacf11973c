use migrations_internals::{
    file_name, migration_from, name, shown_path, ConnectionError, DummyMetadata, IoFailure,
    Listing, Migration, MigrationError, RunMigrationsError, SimpleConnection, SqlFileMigration,
};
use std::cell::RefCell;
use std::path::PathBuf;

struct Recorder {
    batches: RefCell<Vec<String>>,
}

impl SimpleConnection for Recorder {
    fn batch_execute(&self, query: &str) -> Result<(), ConnectionError> {
        self.batches.borrow_mut().push(query.to_string());
        Ok(())
    }
}

struct Plain {
    version: String,
    path: Option<PathBuf>,
}

impl Migration<DummyMetadata> for Plain {
    fn version(&self) -> &str {
        &self.version
    }

    fn run(&self, conn: &dyn SimpleConnection) -> Result<(), RunMigrationsError> {
        conn.batch_execute("CREATE TABLE plain (id INTEGER)")
            .map_err(RunMigrationsError::QueryError)
    }

    fn revert(&self, conn: &dyn SimpleConnection) -> Result<(), RunMigrationsError> {
        conn.batch_execute("DROP TABLE plain").map_err(RunMigrationsError::QueryError)
    }

    fn file_path(&self) -> Option<&PathBuf> {
        self.path.as_ref()
    }
}

struct Bare;

impl Migration<DummyMetadata> for Bare {
    fn version(&self) -> &str {
        "bare"
    }

    fn run(&self, _conn: &dyn SimpleConnection) -> Result<(), RunMigrationsError> {
        Ok(())
    }

    fn revert(&self, _conn: &dyn SimpleConnection) -> Result<(), RunMigrationsError> {
        Ok(())
    }
}

fn plain(version: &str, path: Option<&str>) -> Plain {
    Plain { version: version.to_string(), path: path.map(PathBuf::from) }
}

fn scripts() -> Listing {
    Ok(vec![Ok("down.sql".to_string()), Ok("up.sql".to_string())])
}

#[test]
fn migration_has_neither_path_nor_metadata_unless_it_says_so() {
    assert_eq!(None, Bare.file_path());
    assert!(Bare.metadata().is_none());
    assert_eq!("bare", name(&Bare).render());
    assert_eq!(None, file_name(&Bare, "up.sql").render());
}

#[test]
fn name_of_a_migration_with_a_path_is_its_directory() {
    let migration = plain("20180101000000", Some("migrations/2018-01-01-000000_create_users"));

    assert_eq!("2018-01-01-000000_create_users", name(&migration).render());
}

#[test]
fn name_of_a_migration_without_a_path_is_its_version() {
    let migration = plain("20180101000000", None);

    assert_eq!("20180101000000", name(&migration).render());
}

#[test]
fn name_falls_back_to_the_version_where_the_path_has_no_final_component() {
    let migration = plain("7", Some("migrations/.."));

    assert_eq!("7", name(&migration).render());
}

#[test]
fn file_of_a_migration_with_a_path_is_shown_inside_it() {
    let migration = plain("1", Some("migrations/1_first"));
    let expected = PathBuf::from("migrations/1_first").join("up.sql");

    assert_eq!(
        Some(expected.to_str().unwrap().to_string()),
        file_name(&migration, "up.sql").render()
    );
}

#[test]
fn file_of_a_migration_without_a_path_cannot_be_shown() {
    let migration = plain("1", None);

    assert_eq!(None, file_name(&migration, "up.sql").render());
}

#[test]
fn helpers_keep_what_they_were_given() {
    let migration = plain("1", None);

    assert_eq!("1", name(&migration).migration.version);
    assert_eq!("down.sql", file_name(&migration, "down.sql").sql_file);
    assert_eq!("1", file_name(&migration, "down.sql").migration.version);
}

#[test]
fn boxed_migration_behaves_as_the_migration() {
    let boxed: Box<dyn Migration<DummyMetadata>> =
        Box::new(plain("42", Some("migrations/42_answer")));
    let conn = Recorder { batches: RefCell::new(Vec::new()) };

    assert_eq!("42", boxed.version());
    assert_eq!(Some(&PathBuf::from("migrations/42_answer")), boxed.file_path());
    assert!(boxed.metadata().is_none());
    assert_eq!(Ok(()), boxed.run(&conn));
    assert_eq!(Ok(()), boxed.revert(&conn));
    assert_eq!(
        vec!["CREATE TABLE plain (id INTEGER)".to_string(), "DROP TABLE plain".to_string()],
        *conn.batches.borrow()
    );
    assert_eq!("42_answer", name(&boxed).render());
}

#[test]
fn borrowed_migration_behaves_as_the_migration() {
    let migration = plain("42", None);
    let borrowed: &dyn Migration<DummyMetadata> = &migration;
    let conn = Recorder { batches: RefCell::new(Vec::new()) };

    assert_eq!("42", Migration::version(&borrowed));
    assert_eq!(None, Migration::file_path(&borrowed));
    assert!(Migration::metadata(&borrowed).is_none());
    assert_eq!(Ok(()), Migration::run(&borrowed, &conn));
    assert_eq!(vec!["CREATE TABLE plain (id INTEGER)".to_string()], *conn.batches.borrow());
    assert_eq!("42", name(&borrowed).render());
    assert_eq!(None, file_name(&borrowed, "up.sql").render());
}

#[test]
fn migration_is_loaded_with_the_version_of_its_directory() {
    let path = PathBuf::from("migrations").join("2018-01-01-000000_create_users");

    let migration = migration_from(path.clone(), scripts(), None).unwrap();

    assert_eq!("20180101000000", migration.version());
    assert_eq!(Some(&path), migration.file_path());
    assert!(migration.metadata().is_none());
}

#[test]
fn directory_without_both_scripts_is_of_unknown_format() {
    let path = PathBuf::from("migrations/1_first");
    let only_up = Ok(vec![Ok("up.sql".to_string())]);

    let loaded = migration_from(path.clone(), only_up, None);

    assert_eq!(Some(MigrationError::UnknownMigrationFormat(path)), loaded.err());
}

#[test]
fn directory_that_cannot_be_listed_is_of_unknown_format() {
    let path = PathBuf::from("migrations/1_first");
    let failure = Err(IoFailure::Os("No such file or directory (os error 2)".to_string()));

    let loaded = migration_from(path.clone(), failure, None);

    assert_eq!(Some(MigrationError::UnknownMigrationFormat(path)), loaded.err());
}

#[test]
fn undecodable_name_fails_the_load() {
    let path = PathBuf::from("migrations/1_first");
    let folder = Ok(vec![
        Ok("up.sql".to_string()),
        Ok("down.sql".to_string()),
        Err(IoFailure::UndecodableName),
    ]);

    let loaded = migration_from(path, folder, None);

    assert_eq!(Some(MigrationError::IoError(IoFailure::UndecodableName)), loaded.err());
}

#[test]
fn unreadable_entry_makes_the_format_unknown() {
    let path = PathBuf::from("migrations/1_first");
    let folder = Ok(vec![
        Ok("up.sql".to_string()),
        Ok("down.sql".to_string()),
        Err(IoFailure::Os("Input/output error (os error 5)".to_string())),
    ]);

    let loaded = migration_from(path.clone(), folder, None);

    assert_eq!(Some(MigrationError::UnknownMigrationFormat(path)), loaded.err());
}

#[test]
fn format_is_judged_before_the_metadata() {
    let path = PathBuf::from("migrations/1_first");
    let nothing = Ok(Vec::new());

    let loaded = migration_from(path.clone(), nothing, Some(Ok(b"not toml at all [".to_vec())));

    assert_eq!(Some(MigrationError::UnknownMigrationFormat(path)), loaded.err());
}

#[test]
fn path_without_final_component_is_of_unknown_format() {
    let path = PathBuf::from("..");

    let loaded = migration_from(path.clone(), scripts(), None);

    assert_eq!(Some(MigrationError::UnknownMigrationFormat(path)), loaded.err());
}

#[test]
fn invalid_metadata_fails_the_load() {
    let path = PathBuf::from("migrations/1_first");

    let loaded = migration_from(path, scripts(), Some(Ok(b"run_in_transaction".to_vec())));

    assert!(matches!(loaded.err(), Some(MigrationError::InvalidMetadata(_))));
}

#[test]
fn unreadable_metadata_fails_the_load() {
    let path = PathBuf::from("migrations/1_first");
    let failure = IoFailure::Os("Is a directory (os error 21)".to_string());

    let loaded = migration_from(path, scripts(), Some(Err(failure)));

    assert_eq!(
        Some(MigrationError::IoError(IoFailure::Os("Is a directory (os error 21)".to_string()))),
        loaded.err()
    );
}

#[test]
fn scripts_and_metadata_are_looked_for_inside_the_directory() {
    let directory = PathBuf::from("migrations/1_first");
    let migration = SqlFileMigration::new(directory.clone(), "1".to_string(), None).unwrap();

    assert_eq!(directory.join("up.sql"), migration.up_path());
    assert_eq!(directory.join("down.sql"), migration.down_path());
    assert_eq!(directory.join("metadata.toml"), SqlFileMigration::metadata_path(&directory));
}

#[test]
fn directory_whose_name_begins_with_an_underscore_is_of_unknown_format() {
    let path = PathBuf::from("migrations").join("_create");

    let loaded = migration_from(path.clone(), scripts(), None);

    assert_eq!(Some(MigrationError::UnknownMigrationFormat(path)), loaded.err());
}

#[test]
fn directory_whose_first_segment_is_hyphens_only_is_of_unknown_format() {
    let path = PathBuf::from("migrations").join("--_x");

    let loaded = migration_from(path.clone(), scripts(), None);

    assert_eq!(Some(MigrationError::UnknownMigrationFormat(path)), loaded.err());
}

#[test]
fn empty_version_is_refused_before_the_metadata_is_looked_at() {
    let path = PathBuf::from("migrations").join("_create");

    let loaded = migration_from(path.clone(), scripts(), Some(Ok(b"not toml [".to_vec())));

    assert_eq!(Some(MigrationError::UnknownMigrationFormat(path)), loaded.err());
}

#[test]
fn shown_path_is_the_text_of_the_path() {
    assert_eq!("migrations/1_first/up.sql", shown_path(Some("migrations/1_first/up.sql".into())));
    assert_eq!("", shown_path(Some(String::new())));
}

#[test]
fn path_that_is_not_text_is_shown_by_a_fixed_text() {
    assert_eq!("Invalid utf8 in filename", shown_path(None));
}

fn first() -> SqlFileMigration {
    SqlFileMigration::new(PathBuf::from("migrations/1_first"), "1".to_string(), None).unwrap()
}

#[test]
fn running_an_empty_up_script_fails_without_calling_the_connection() {
    let conn = Recorder { batches: RefCell::new(Vec::new()) };

    assert_eq!(Err(RunMigrationsError::EmptyMigration), first().run(&conn, Ok(String::new())));
    assert!(conn.batches.borrow().is_empty());
}

#[test]
fn reverting_with_an_empty_down_script_fails_without_calling_the_connection() {
    let conn = Recorder { batches: RefCell::new(Vec::new()) };

    assert_eq!(Err(RunMigrationsError::EmptyMigration), first().revert(&conn, Ok(String::new())));
    assert!(conn.batches.borrow().is_empty());
}

#[test]
fn running_submits_the_up_script_whole_and_once() {
    let conn = Recorder { batches: RefCell::new(Vec::new()) };
    let up_sql = "  CREATE TABLE users (id INTEGER);\nCREATE TABLE posts (id INTEGER);  \n";

    assert_eq!(Ok(()), first().run(&conn, Ok(up_sql.to_string())));
    assert_eq!(vec![up_sql.to_string()], *conn.batches.borrow());
}

#[test]
fn reverting_submits_the_down_script_whole_and_once() {
    let conn = Recorder { batches: RefCell::new(Vec::new()) };
    let down_sql = "DROP TABLE posts;\nDROP TABLE users;\n";

    assert_eq!(Ok(()), first().revert(&conn, Ok(down_sql.to_string())));
    assert_eq!(vec![down_sql.to_string()], *conn.batches.borrow());
}

#[test]
fn running_a_script_that_could_not_be_read_fails_with_that_failure() {
    let conn = Recorder { batches: RefCell::new(Vec::new()) };
    let failure = IoFailure::Os("No such file or directory (os error 2)".to_string());

    assert_eq!(
        Err(RunMigrationsError::MigrationError(MigrationError::IoError(IoFailure::Os(
            "No such file or directory (os error 2)".to_string()
        )))),
        first().run(&conn, Err(failure))
    );
    assert!(conn.batches.borrow().is_empty());
}
