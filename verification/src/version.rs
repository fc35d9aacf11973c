//! The version of a migration, taken from the name of its directory.

use crate::errors::MigrationError;
use crate::paths::{file_name_lossy, final_component};
use std::path::PathBuf;
use vstd::prelude::*;
use vstd::std_specs::iter::IteratorSpec;

verus! {

/// `String::push`: the character is appended to the end of the string.
pub assume_specification[ String::push ](s: &mut String, c: char)
    ensures
        final(s)@ == old(s)@.push(c),
;

/// The part of `name` before its first underscore; the whole of it where it
/// has none.
pub open spec fn first_segment(name: Seq<char>) -> Seq<char> {
    match name.index_of_first('_') {
        Some(end) => name.take(end),
        None => name,
    }
}

/// `text` with every hyphen taken out.
pub open spec fn without_hyphens(text: Seq<char>) -> Seq<char> {
    text.filter(|c: char| c != '-')
}

/// What a directory called `name` gives for a version: the first
/// underscore-delimited segment of the name, hyphens removed. Where that is
/// empty, the name stands for no version.
pub open spec fn version_of(name: Seq<char>) -> Seq<char> {
    without_hyphens(first_segment(name))
}

/// Where no underscore stands before `end`, the first segment of `name` is
/// its first `end` characters if an underscore stands at `end` or `end` is
/// the length of `name`.
proof fn lemma_first_segment_ends(name: Seq<char>, end: int)
    requires
        0 <= end <= name.len(),
        forall|j: int| 0 <= j < end ==> name[j] != '_',
        end < name.len() ==> name[end] == '_',
    ensures
        first_segment(name) == name.take(end),
{
    name.index_of_first_ensures('_');
}

/// What a directory called `name` gives for a version. The result is empty
/// where the name begins with an underscore, or holds nothing but hyphens
/// before its first underscore: such a name stands for no version.
pub fn version_from_name(name: &str) -> (version: String)
    ensures
        version@ == version_of(name@),
{
    let mut version = String::new();
    let mut rest = name.chars();
    let ghost mut seen: int = 0;
    loop
        invariant_except_break
            rest.remaining() == name@.skip(seen),
        invariant
            0 <= seen <= name@.len(),
            forall|j: int| 0 <= j < seen ==> name@[j] != '_',
            version@ == without_hyphens(name@.take(seen)),
        ensures
            seen == name@.len() || name@[seen] == '_',
        decreases name@.len() - seen,
    {
        match rest.next() {
            None => {
                break;
            },
            Some(c) => {
                if c == '_' {
                    break;
                }
                proof {
                    assert(name@.take(seen + 1) == name@.take(seen).push(c));
                    name@.take(seen).lemma_filter_push(c, |c: char| c != '-');
                    seen = seen + 1;
                }
                if c != '-' {
                    version.push(c);
                }
            },
        }
    }
    proof {
        lemma_first_segment_ends(name@, seen);
    }
    version
}

/// The version that the directory `path` stands for: the version of its
/// final component. A path without a final component stands for none, and
/// neither does one whose final component leaves nothing for a version: a
/// version is never empty.
pub open spec fn path_version(path: PathBuf) -> Option<Seq<char>> {
    match final_component(path) {
        Some(name) => if version_of(name).len() > 0 {
            Some(version_of(name))
        } else {
            None
        },
        None => None,
    }
}

/// The version of the migration in the directory `path`, taken from the
/// final component of the path. A path that stands for no version names no
/// migration: that is so where it has no final component, and where the
/// first segment of that component is empty once its hyphens are removed.
pub fn version_from_path(path: &PathBuf) -> (r: Result<String, MigrationError>)
    ensures
        match path_version(*path) {
            Some(expected) => r matches Ok(version) && version@ == expected,
            None => r == Err::<String, MigrationError>(
                MigrationError::UnknownMigrationFormat(*path),
            ),
        },
{
    match file_name_lossy(path) {
        Some(name) => {
            let version = version_from_name(name.as_str());
            if version.as_str().is_empty() {
                Err(MigrationError::UnknownMigrationFormat(path.clone()))
            } else {
                Ok(version)
            }
        },
        None => Err(MigrationError::UnknownMigrationFormat(path.clone())),
    }
}

} // verus!
