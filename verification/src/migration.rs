//! Migrations, and the migration kept as a directory of SQL scripts.

use crate::connection::{is_run_of, run_sql_from_file, SimpleConnection};
use crate::directory::{down_sql, up_sql, valid_sql_migration_directory, validity, Listing};
use crate::errors::{IoFailure, MigrationError, RunMigrationsError};
use crate::metadata::{
    answers, entry_of, lookup, parsed, Document, Metadata, MetadataValue, TomlMetadata,
};
use crate::paths::{file_name_text, final_component_text, join, joined, path_text, to_text};
use crate::version::{path_version, version_from_path};
use std::path::PathBuf;
use vstd::prelude::*;

verus! {

/// A change to a database schema that can be applied and taken back.
pub trait Migration<M: Metadata + Sized> {
    /// The version of the migration.
    fn version(&self) -> &str;

    /// Applies the migration.
    fn run(&self, conn: &dyn SimpleConnection) -> Result<(), RunMigrationsError>;

    /// Takes the migration back.
    fn revert(&self, conn: &dyn SimpleConnection) -> Result<(), RunMigrationsError>;

    /// The path of the migration's files, for a migration that is kept in
    /// files. A migration that does not say otherwise has none.
    fn file_path(&self) -> (path: Option<&PathBuf>)
        default_ensures
            path is None,
    {
        None
    }

    /// The metadata of the migration, if it has any. A migration that does
    /// not say otherwise has none.
    fn metadata(&self) -> (metadata: Option<&M>)
        default_ensures
            metadata is None,
    {
        None
    }
}

/// Whether `version` is what `migration` gives as its version.
pub open spec fn gives_version<M: Metadata + Sized, T: Migration<M> + ?Sized>(
    migration: &T,
    version: &str,
) -> bool {
    call_ensures(<T as Migration<M>>::version, (migration,), version)
}

/// Whether `path` is what `migration` gives as its path.
pub open spec fn gives_file_path<M: Metadata + Sized, T: Migration<M> + ?Sized>(
    migration: &T,
    path: Option<&PathBuf>,
) -> bool {
    call_ensures(<T as Migration<M>>::file_path, (migration,), path)
}

/// Whether `metadata` is what `migration` gives as its metadata.
pub open spec fn gives_metadata<M: Metadata + Sized, T: Migration<M> + ?Sized>(
    migration: &T,
    metadata: Option<&M>,
) -> bool {
    call_ensures(<T as Migration<M>>::metadata, (migration,), metadata)
}

impl<M: Metadata + Sized, T: Migration<M> + ?Sized> Migration<M> for Box<T> {
    fn version(&self) -> (version: &str)
        ensures
            gives_version::<M, T>(&**self, version),
    {
        (**self).version()
    }

    fn run(&self, conn: &dyn SimpleConnection) -> (r: Result<(), RunMigrationsError>)
        ensures
            call_ensures(<T as Migration<M>>::run, (&**self, conn), r),
    {
        (**self).run(conn)
    }

    fn revert(&self, conn: &dyn SimpleConnection) -> (r: Result<(), RunMigrationsError>)
        ensures
            call_ensures(<T as Migration<M>>::revert, (&**self, conn), r),
    {
        (**self).revert(conn)
    }

    fn file_path(&self) -> (path: Option<&PathBuf>)
        ensures
            gives_file_path::<M, T>(&**self, path),
    {
        (**self).file_path()
    }

    fn metadata(&self) -> (metadata: Option<&M>)
        ensures
            gives_metadata::<M, T>(&**self, metadata),
    {
        (**self).metadata()
    }
}

impl<'a, M: Metadata + Sized, T: Migration<M> + ?Sized> Migration<M> for &'a T {
    fn version(&self) -> (version: &str)
        ensures
            gives_version::<M, T>(&**self, version),
    {
        (**self).version()
    }

    fn run(&self, conn: &dyn SimpleConnection) -> (r: Result<(), RunMigrationsError>)
        ensures
            call_ensures(<T as Migration<M>>::run, (&**self, conn), r),
    {
        (**self).run(conn)
    }

    fn revert(&self, conn: &dyn SimpleConnection) -> (r: Result<(), RunMigrationsError>)
        ensures
            call_ensures(<T as Migration<M>>::revert, (&**self, conn), r),
    {
        (**self).revert(conn)
    }

    fn file_path(&self) -> (path: Option<&PathBuf>)
        ensures
            gives_file_path::<M, T>(&**self, path),
    {
        (**self).file_path()
    }

    fn metadata(&self) -> (metadata: Option<&M>)
        ensures
            gives_metadata::<M, T>(&**self, metadata),
    {
        (**self).metadata()
    }
}

/// The name that a path gives a migration: its final component, where there
/// is a path and its final component is text.
pub open spec fn name_in_path(file_path: Option<&PathBuf>) -> Option<Seq<char>> {
    match file_path {
        Some(path) => final_component_text(*path),
        None => None,
    }
}

/// What is shown in place of a path that is not text.
pub open spec fn invalid_path_text() -> Seq<char> {
    "Invalid utf8 in filename"@
}

/// The path under which a file of a migration is shown: nothing for a
/// migration without a path, else the migration's path extended by the
/// file's name, as text, or a fixed text in its place where it is not text.
pub open spec fn display_file_name(file_path: Option<&PathBuf>, sql_file: Seq<char>) -> Option<
    Seq<char>,
> {
    match file_path {
        Some(path) => Some(
            match path_text(joined(*path, sql_file)) {
                Some(text) => text,
                None => invalid_path_text(),
            },
        ),
        None => None,
    }
}

/// A migration, to be shown by its name.
pub struct MigrationName<'a, T: ?Sized> {
    pub migration: &'a T,
}

/// `migration`, to be shown by its name.
pub fn name<'a, T: ?Sized>(migration: &'a T) -> (r: MigrationName<'a, T>)
    ensures
        r.migration == migration,
{
    MigrationName { migration }
}

impl<'a, T: ?Sized> MigrationName<'a, T> {
    /// The name under which the migration is shown: the name that its path
    /// gives it, and its version where the path gives none. The migration is
    /// asked for its path, and for its version only where that is shown.
    pub fn render<M: Metadata + Sized>(&self) -> (text: String) where T: Migration<M>
        ensures
            exists|path: Option<&PathBuf>|
                gives_file_path::<M, T>(self.migration, path) && match name_in_path(path) {
                    Some(name) => text@ == name,
                    None => exists|version: &str|
                        gives_version::<M, T>(self.migration, version) && text@ == version@,
                },
    {
        let path = self.migration.file_path();
        let file_name = match path {
            Some(path) => file_name_text(path),
            None => None,
        };
        let text = match file_name {
            Some(name) => name,
            None => self.migration.version().to_owned(),
        };
        assert(gives_file_path::<M, T>(self.migration, path));
        text
    }
}

/// The text that shows a path, given what reading the path as text gave:
/// that text, and `invalid_path_text` in the place of a path that is not
/// text.
pub fn shown_path(text: Option<String>) -> (shown: String)
    ensures
        shown@ == match text {
            Some(t) => t@,
            None => invalid_path_text(),
        },
{
    match text {
        Some(text) => text,
        None => "Invalid utf8 in filename".to_owned(),
    }
}

/// A file of a migration, to be shown by its path.
pub struct MigrationFileName<'a, T: ?Sized> {
    pub migration: &'a T,
    pub sql_file: &'a str,
}

/// The file called `sql_file` of `migration`, to be shown by its path.
pub fn file_name<'a, T: ?Sized>(migration: &'a T, sql_file: &'a str) -> (r: MigrationFileName<
    'a,
    T,
>)
    ensures
        r.migration == migration,
        r.sql_file == sql_file,
{
    MigrationFileName { migration, sql_file }
}

impl<'a, T: ?Sized> MigrationFileName<'a, T> {
    /// The path of the file: `display_file_name` of the path that the
    /// migration gives and of the file's name. A migration without a path
    /// has no such file, and the answer is `None`.
    pub fn render<M: Metadata + Sized>(&self) -> (text: Option<String>) where T: Migration<M>
        ensures
            exists|path: Option<&PathBuf>|
                gives_file_path::<M, T>(self.migration, path) && match display_file_name(
                    path,
                    self.sql_file@,
                ) {
                    Some(shown) => text matches Some(t) && t@ == shown,
                    None => text is None,
                },
    {
        let path = self.migration.file_path();
        let text = match path {
            None => None,
            Some(path) => {
                let file = join(path, self.sql_file);
                Some(shown_path(to_text(&file)))
            },
        };
        assert(gives_file_path::<M, T>(self.migration, path));
        text
    }
}

/// The file that holds the metadata of a migration.
pub open spec fn metadata_toml() -> Seq<char> {
    "metadata.toml"@
}

/// What a migration kept as SQL scripts is, as the contracts speak of it.
pub struct SqlFileMigrationView {
    pub directory: PathBuf,
    pub version: Seq<char>,
    pub metadata: Option<Document>,
}

/// A migration kept as a directory of SQL scripts. Its version is never
/// empty.
pub struct SqlFileMigration {
    directory: PathBuf,
    version: String,
    metadata: Option<TomlMetadata>,
}

impl View for SqlFileMigration {
    type V = SqlFileMigrationView;

    closed spec fn view(&self) -> SqlFileMigrationView {
        SqlFileMigrationView {
            directory: self.directory,
            version: self.version@,
            metadata: match self.metadata {
                Some(metadata) => Some(metadata@),
                None => None,
            },
        }
    }
}

/// Whether `r` is what loading a migration comes to, for the directory and
/// version given and for what looking for its metadata file gave: `None`
/// for a directory without the file, else the file's bytes or the failure
/// to read them. An empty version is no version, and the directory is then
/// of unknown format, whatever its metadata. Without the file the migration
/// has no metadata; bytes that are a document become its metadata; other
/// bytes are invalid metadata, for the cause that the decoder reports.
pub open spec fn is_loaded(
    r: Result<SqlFileMigration, MigrationError>,
    directory: PathBuf,
    version: Seq<char>,
    metadata_file: Option<Result<Vec<u8>, IoFailure>>,
) -> bool {
    if version.len() == 0 {
        r == Err::<SqlFileMigration, MigrationError>(
            MigrationError::UnknownMigrationFormat(directory),
        )
    } else {
        match metadata_file {
            None => r matches Ok(migration) && migration@ == (SqlFileMigrationView {
                directory,
                version,
                metadata: None,
            }),
            Some(Err(failure)) => r == Err::<SqlFileMigration, MigrationError>(
                MigrationError::IoError(failure),
            ),
            Some(Ok(bytes)) => match parsed(bytes@) {
                Ok(document) => r matches Ok(migration) && migration@ == (SqlFileMigrationView {
                    directory,
                    version,
                    metadata: Some(document),
                }),
                Err(cause) => r == Err::<SqlFileMigration, MigrationError>(
                    MigrationError::InvalidMetadata(cause),
                ),
            },
        }
    }
}

impl SqlFileMigration {
    /// What holds of every migration of this kind: it has a version.
    #[verifier::type_invariant]
    spec fn has_version(self) -> bool {
        self.version@.len() > 0
    }

    /// The migration in `directory` with the version given. `metadata_file`
    /// is what looking for `metadata.toml` in the directory gave. A version
    /// is never empty: with an empty one the directory is of unknown format.
    pub fn new(
        directory: PathBuf,
        version: String,
        metadata_file: Option<Result<Vec<u8>, IoFailure>>,
    ) -> (r: Result<SqlFileMigration, MigrationError>)
        ensures
            is_loaded(r, directory, version@, metadata_file),
    {
        if version.as_str().is_empty() {
            return Err(MigrationError::UnknownMigrationFormat(directory));
        }
        let metadata = match metadata_file {
            None => None,
            Some(Err(failure)) => {
                return Err(MigrationError::IoError(failure));
            },
            Some(Ok(bytes)) => match TomlMetadata::from_slice(bytes.as_slice()) {
                Ok(metadata) => Some(metadata),
                Err(error) => {
                    return Err(error);
                },
            },
        };
        Ok(SqlFileMigration { directory, version, metadata })
    }

    /// The directory of the migration.
    pub fn file_path(&self) -> (path: Option<&PathBuf>)
        ensures
            path == Some(&self@.directory),
    {
        Some(&self.directory)
    }

    /// The version of the migration, which is not empty.
    pub fn version(&self) -> (version: &str)
        ensures
            version@ == self@.version,
            version@.len() > 0,
    {
        proof {
            use_type_invariant(self);
        }
        self.version.as_str()
    }

    /// The metadata of the migration, if its directory held any.
    pub fn metadata(&self) -> (metadata: Option<&TomlMetadata>)
        ensures
            match metadata {
                Some(found) => self@.metadata == Some(found@),
                None => self@.metadata is None,
            },
    {
        self.metadata.as_ref()
    }

    /// Where the metadata of a migration in `directory` is looked for.
    pub fn metadata_path(directory: &PathBuf) -> (path: PathBuf)
        ensures
            path == joined(*directory, metadata_toml()),
    {
        join(directory, "metadata.toml")
    }

    /// Applies the migration: runs the script that applies it against
    /// `conn`. `up_sql` is what reading the file at `up_path` gave. A script
    /// that could not be read fails the run with that failure, and a script
    /// without text fails it as an empty migration. Otherwise the run comes
    /// to what `conn` answers when the whole text is submitted to it.
    pub fn run<C: SimpleConnection + ?Sized>(
        &self,
        conn: &C,
        up_sql: Result<String, IoFailure>,
    ) -> (r: Result<(), RunMigrationsError>)
        ensures
            is_run_of(r, conn, up_sql),
    {
        run_sql_from_file(conn, up_sql)
    }

    /// Takes the migration back: runs the script that reverts it against
    /// `conn`. `down_sql` is what reading the file at `down_path` gave. The
    /// run comes to what it would for any script, as `run` says.
    pub fn revert<C: SimpleConnection + ?Sized>(
        &self,
        conn: &C,
        down_sql: Result<String, IoFailure>,
    ) -> (r: Result<(), RunMigrationsError>)
        ensures
            is_run_of(r, conn, down_sql),
    {
        run_sql_from_file(conn, down_sql)
    }

    /// The script that applies the migration.
    pub fn up_path(&self) -> (path: PathBuf)
        ensures
            path == joined(self@.directory, up_sql()),
    {
        join(&self.directory, "up.sql")
    }

    /// The script that takes the migration back.
    pub fn down_path(&self) -> (path: PathBuf)
        ensures
            path == joined(self@.directory, down_sql()),
    {
        join(&self.directory, "down.sql")
    }
}

/// Whether `r` is what loading the migration at `path` comes to, given the
/// listing of that directory and what looking for its metadata file gave. A
/// listing that cannot be judged fails the load with its error. A directory
/// that is no migration, or a path that stands for no version, is of unknown
/// format. Else the migration is loaded with the version that the path
/// stands for.
pub open spec fn is_migration_from(
    r: Result<SqlFileMigration, MigrationError>,
    path: PathBuf,
    listing: Listing,
    metadata_file: Option<Result<Vec<u8>, IoFailure>>,
) -> bool {
    match validity(listing) {
        Err(error) => r == Err::<SqlFileMigration, MigrationError>(error),
        Ok(false) => r == Err::<SqlFileMigration, MigrationError>(
            MigrationError::UnknownMigrationFormat(path),
        ),
        Ok(true) => match path_version(path) {
            Some(version) => is_loaded(r, path, version, metadata_file),
            None => r == Err::<SqlFileMigration, MigrationError>(
                MigrationError::UnknownMigrationFormat(path),
            ),
        },
    }
}

/// Loads the migration in the directory `path`. `listing` is the listing of
/// that directory, and `metadata_file` what looking for `metadata.toml` in
/// it gave.
pub fn migration_from(
    path: PathBuf,
    listing: Listing,
    metadata_file: Option<Result<Vec<u8>, IoFailure>>,
) -> (r: Result<SqlFileMigration, MigrationError>)
    ensures
        is_migration_from(r, path, listing, metadata_file),
{
    match valid_sql_migration_directory(listing) {
        Err(error) => Err(error),
        Ok(false) => Err(MigrationError::UnknownMigrationFormat(path)),
        Ok(true) => match version_from_path(&path) {
            Ok(version) => SqlFileMigration::new(path, version, metadata_file),
            Err(error) => Err(error),
        },
    }
}

/// A migration that is loaded has the version that its path stands for,
/// and that version is not empty.
pub proof fn lemma_loaded_version_is_not_empty(
    r: Result<SqlFileMigration, MigrationError>,
    path: PathBuf,
    listing: Listing,
    metadata_file: Option<Result<Vec<u8>, IoFailure>>,
)
    requires
        is_migration_from(r, path, listing, metadata_file),
        r is Ok,
    ensures
        path_version(path) == Some(r->Ok_0@.version),
        r->Ok_0@.version.len() > 0,
{
}

/// A migration that is loaded from a valid directory without a metadata
/// file has no metadata.
pub proof fn lemma_loaded_without_metadata_file(
    r: Result<SqlFileMigration, MigrationError>,
    path: PathBuf,
    listing: Listing,
)
    requires
        validity(listing) == Ok::<bool, MigrationError>(true),
        path_version(path) is Some,
        is_migration_from(r, path, listing, None),
    ensures
        r matches Ok(migration) && migration@.metadata is None,
{
}

/// The metadata of a migration that is loaded from a valid directory is the
/// document in its metadata file, so that a lookup in it is answered from
/// that document: a key that the document lacks with nothing, a value that
/// can be read as a `T` with that value, and a value that cannot with
/// invalid metadata. `answer` stands for what `get` returns on the metadata
/// of the loaded migration.
pub proof fn lemma_metadata_round_trip<T: MetadataValue>(
    r: Result<SqlFileMigration, MigrationError>,
    path: PathBuf,
    listing: Listing,
    bytes: Vec<u8>,
    key: Seq<char>,
    answer: Option<Result<T, MigrationError>>,
)
    requires
        validity(listing) == Ok::<bool, MigrationError>(true),
        path_version(path) is Some,
        parsed(bytes@) matches Ok(document),
        is_migration_from(r, path, listing, Some(Ok(bytes))),
        r matches Ok(migration) ==> migration@.metadata matches Some(held) ==> answers(
            answer,
            lookup::<T>(held, key),
        ),
    ensures
        r matches Ok(migration) && migration@.metadata == Some(parsed(bytes@)->Ok_0),
        match entry_of(parsed(bytes@)->Ok_0, key) {
            None => answer is None,
            Some(found) => match T::decoded(found) {
                Some(value) => answer matches Some(Ok(read)) && read@ == value,
                None => answer matches Some(Err(MigrationError::InvalidMetadata(_))),
            },
        },
{
}

} // verus!
