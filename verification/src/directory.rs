//! Which directories are migrations.
//!
//! A directory is a migration if it holds a file called `up.sql` and a file
//! called `down.sql`. Entries whose names begin with a dot are not looked at,
//! and other entries do no harm.
//!
//! The caller lists the directory and hands the listing over: either the
//! failure to open the directory, or its entries in the order in which they
//! were read, each one a name or the failure to read it. An entry whose name
//! is not valid Unicode counts as one that could not be read, with the
//! failure `IoFailure::UndecodableName`.

use crate::errors::{IoFailure, MigrationError};
use vstd::prelude::*;

verus! {

/// An entry of a directory as it was read: its name, or the failure to read
/// it.
pub type Entry = Result<String, IoFailure>;

/// A directory as it was listed: its entries in the order in which they were
/// read, or the failure to open it.
pub type Listing = Result<Vec<Entry>, IoFailure>;

/// The script that applies a migration.
pub open spec fn up_sql() -> Seq<char> {
    "up.sql"@
}

/// The script that reverts a migration.
pub open spec fn down_sql() -> Seq<char> {
    "down.sql"@
}

/// Whether an entry called `name` is hidden: its name begins with a dot.
pub open spec fn is_hidden(name: Seq<char>) -> bool {
    name.len() > 0 && name[0] == '.'
}

/// The failure of the first entry of `entries` that could not be read, if
/// there is one.
pub open spec fn first_failure(entries: Seq<Entry>) -> Option<IoFailure>
    decreases entries.len(),
{
    if entries.len() == 0 {
        None
    } else {
        match entries[0] {
            Err(failure) => Some(failure),
            Ok(_) => first_failure(entries.skip(1)),
        }
    }
}

/// The names of `entries`, in their order. An entry that could not be read
/// stands in it with the empty name.
pub open spec fn names_of(entries: Seq<Entry>) -> Seq<Seq<char>> {
    Seq::new(
        entries.len(),
        |i: int|
            match entries[i] {
                Ok(name) => name@,
                Err(_) => Seq::empty(),
            },
    )
}

/// Those of `names` that are not hidden, in their order.
pub open spec fn visible(names: Seq<Seq<char>>) -> Seq<Seq<char>> {
    names.filter(|name: Seq<char>| !is_hidden(name))
}

/// The file names that a listing shows: the failure to open the directory,
/// else the failure of the first entry that could not be read, else the names
/// of the entries that are not hidden.
pub open spec fn listed(listing: Listing) -> Result<Seq<Seq<char>>, MigrationError> {
    match listing {
        Err(failure) => Err(MigrationError::IoError(failure)),
        Ok(entries) => match first_failure(entries@) {
            Some(failure) => Err(MigrationError::IoError(failure)),
            None => Ok(visible(names_of(entries@))),
        },
    }
}

/// Whether the listing of a directory is that of a migration. It is one if
/// both scripts are among the names it shows. It is none if a script is
/// missing, if the directory could not be opened, or if reading an entry
/// failed. A name that is not valid Unicode is not passed over in that way:
/// it is reported.
pub open spec fn validity(listing: Listing) -> Result<bool, MigrationError> {
    match listed(listing) {
        Ok(names) => Ok(names.contains(down_sql()) && names.contains(up_sql())),
        Err(error) => if listing is Ok && error == MigrationError::IoError(
            IoFailure::UndecodableName,
        ) {
            Err(error)
        } else {
            Ok(false)
        },
    }
}

/// Where the first `count` entries were all read, the first failure is that
/// of the entry at `count`, and there is none if no entry is left.
proof fn lemma_first_failure_after(entries: Seq<Entry>, count: int)
    requires
        0 <= count <= entries.len(),
        forall|j: int| 0 <= j < count ==> entries[j] is Ok,
    ensures
        count == entries.len() ==> first_failure(entries) is None,
        count < entries.len() && entries[count] is Err ==> first_failure(entries) == Some(
            entries[count]->Err_0,
        ),
    decreases count,
{
    if count > 0 {
        lemma_first_failure_after(entries.skip(1), count - 1);
    }
}

/// Whether `name` begins with a dot.
fn hidden(name: &str) -> (r: bool)
    ensures
        r == is_hidden(name@),
{
    let mut chars = name.chars();
    match chars.next() {
        Some(first) => first == '.',
        None => false,
    }
}

/// The names of the files in a directory, hidden ones left out, in the order
/// of the listing. Fails with the failure to open the directory, or with
/// that of the first entry that could not be read.
pub fn file_names(listing: Listing) -> (r: Result<Vec<String>, MigrationError>)
    ensures
        match listed(listing) {
            Ok(names) => r matches Ok(found) && found.deep_view() == names,
            Err(error) => r == Err::<Vec<String>, MigrationError>(error),
        },
{
    let entries = match listing {
        Ok(entries) => entries,
        Err(failure) => {
            return Err(MigrationError::IoError(failure));
        },
    };
    let ghost all = entries@;
    let mut names: Vec<String> = Vec::new();
    for entry in rest: entries
        invariant
            listing matches Ok(given) && given@ == all,
            rest.seq() == all,
            forall|j: int| 0 <= j < rest.index() ==> all[j] is Ok,
            names.deep_view() == visible(names_of(all.take(rest.index() as int))),
    {
        let ghost seen = rest.index() as int;
        match entry {
            Err(failure) => {
                proof {
                    lemma_first_failure_after(all, seen);
                }
                return Err(MigrationError::IoError(failure));
            },
            Ok(name) => {
                proof {
                    assert(names_of(all.take(seen + 1)) == names_of(all.take(seen)).push(name@));
                    names_of(all.take(seen)).lemma_filter_push(
                        name@,
                        |name: Seq<char>| !is_hidden(name),
                    );
                }
                if !hidden(name.as_str()) {
                    names.push(name);
                }
            },
        }
    }
    proof {
        lemma_first_failure_after(all, all.len() as int);
        assert(all.take(all.len() as int) == all);
    }
    Ok(names)
}

/// Whether `wanted` is one of `names`.
fn contains(names: &Vec<String>, wanted: &str) -> (r: bool)
    ensures
        r == names.deep_view().contains(wanted@),
{
    let sought = wanted.to_owned();
    let mut i: usize = 0;
    while i < names.len()
        invariant
            0 <= i <= names.len(),
            sought@ == wanted@,
            forall|j: int| 0 <= j < i ==> names.deep_view()[j] != wanted@,
        decreases names.len() - i,
    {
        if names[i] == sought {
            assert(names.deep_view()[i as int] == wanted@);
            return true;
        }
        i += 1;
    }
    false
}

/// Whether the listing of a directory is that of a migration: whether it
/// shows both a `down.sql` and an `up.sql`. A directory that could not be
/// read is none; a name in it that is not valid Unicode is an error.
pub fn valid_sql_migration_directory(listing: Listing) -> (r: Result<bool, MigrationError>)
    ensures
        r == validity(listing),
{
    let opened = listing.is_ok();
    match file_names(listing) {
        Ok(names) => Ok(contains(&names, "down.sql") && contains(&names, "up.sql")),
        Err(MigrationError::IoError(IoFailure::UndecodableName)) => {
            if opened {
                Err(MigrationError::IoError(IoFailure::UndecodableName))
            } else {
                Ok(false)
            }
        },
        Err(_) => Ok(false),
    }
}

/// A directory whose entries could all be read, and which holds both an
/// `up.sql` and a `down.sql`, is a migration, whatever else it holds.
pub proof fn lemma_directory_with_both_scripts_is_valid(entries: Vec<Entry>)
    requires
        forall|i: int| 0 <= i < entries@.len() ==> entries@[i] is Ok,
        names_of(entries@).contains(up_sql()),
        names_of(entries@).contains(down_sql()),
    ensures
        validity(Ok(entries)) == Ok::<bool, MigrationError>(true),
{
    reveal_strlit("up.sql");
    reveal_strlit("down.sql");
    lemma_first_failure_after(entries@, entries@.len() as int);
    let names = names_of(entries@);
    let shown = |name: Seq<char>| !is_hidden(name);
    let up = names.index_of(up_sql());
    names.lemma_filter_contains(shown, up);
    let down = names.index_of(down_sql());
    names.lemma_filter_contains(shown, down);
}

/// A directory that lacks an `up.sql` or a `down.sql` is no migration, and
/// so the empty directory is none. This holds of every listing but one in
/// which a name that is not valid Unicode is met before any other failure:
/// that name is reported instead.
pub proof fn lemma_directory_missing_a_script_is_invalid(entries: Vec<Entry>)
    requires
        !names_of(entries@).contains(up_sql()) || !names_of(entries@).contains(down_sql()),
        first_failure(entries@) != Some(IoFailure::UndecodableName),
    ensures
        validity(Ok(entries)) == Ok::<bool, MigrationError>(false),
{
    let names = names_of(entries@);
    let shown = |name: Seq<char>| !is_hidden(name);
    if names.filter(shown).contains(up_sql()) {
        names.lemma_filter_contains_rev(shown, up_sql());
    }
    if names.filter(shown).contains(down_sql()) {
        names.lemma_filter_contains_rev(shown, down_sql());
    }
}

/// A directory that could not be opened is no migration.
pub proof fn lemma_unopened_directory_is_invalid(failure: IoFailure)
    ensures
        validity(Err(failure)) == Ok::<bool, MigrationError>(false),
{
}

} // verus!
