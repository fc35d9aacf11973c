//! What this crate asks of a file-system path.
//!
//! Paths are taken as the standard library holds them. Verus sees nothing
//! inside a `PathBuf`, so each question that the crate asks of a path is
//! answered by the standard library, and the answer is given a name. The
//! contracts of the crate speak of paths through those names; none of them
//! says what a name comes to for a given path.

use std::path::PathBuf;
use vstd::prelude::*;

verus! {

/// `std::path::PathBuf`, which Verus carries as an opaque value.
#[verifier::external_type_specification]
#[verifier::external_body]
pub struct ExPathBuf(PathBuf);

/// What `Path::file_name` gives for `path`, read as text the way
/// `OsStr::to_string_lossy` reads it: the final component of the path, with
/// U+FFFD in place of what is not valid Unicode in it. `None` where the path
/// has no final component, as is the case if it ends in `..`.
pub uninterp spec fn final_component(path: PathBuf) -> Option<Seq<char>>;

/// What `Path::file_name` gives for `path`, read as text the way
/// `OsStr::to_str` reads it: the final component of the path where the path
/// has one and it is valid Unicode, `None` otherwise.
pub uninterp spec fn final_component_text(path: PathBuf) -> Option<Seq<char>>;

/// What `Path::join` gives for `path` and `file`: the path extended by
/// `file`.
pub uninterp spec fn joined(path: PathBuf, file: Seq<char>) -> PathBuf;

/// What `Path::to_str` gives for `path`: the whole path as text where it is
/// valid Unicode, `None` otherwise.
pub uninterp spec fn path_text(path: PathBuf) -> Option<Seq<char>>;

/// `PathBuf::clone`: the clone is the path that was cloned.
pub assume_specification[ <PathBuf as Clone>::clone ](path: &PathBuf) -> (r: PathBuf)
    ensures
        r == *path,
;

/// Calls `Path::file_name` and reads the component with
/// `OsStr::to_string_lossy`. The contract gives the result its name,
/// `final_component`, and claims nothing more of it.
#[verifier::external_body]
pub(crate) fn file_name_lossy(path: &PathBuf) -> (r: Option<String>)
    ensures
        r is Some == final_component(*path) is Some,
        r matches Some(name) ==> final_component(*path) == Some(name@),
{
    match path.file_name() {
        Some(name) => Some(name.to_string_lossy().into_owned()),
        None => None,
    }
}

/// Calls `Path::file_name` and reads the component with `OsStr::to_str`. The
/// contract gives the result its name, `final_component_text`, and claims
/// nothing more of it.
#[verifier::external_body]
pub(crate) fn file_name_text(path: &PathBuf) -> (r: Option<String>)
    ensures
        r is Some == final_component_text(*path) is Some,
        r matches Some(name) ==> final_component_text(*path) == Some(name@),
{
    match path.file_name() {
        Some(name) => match name.to_str() {
            Some(text) => Some(text.to_owned()),
            None => None,
        },
        None => None,
    }
}

/// Calls `Path::join`. The contract gives the result its name, `joined`, and
/// claims nothing more of it.
#[verifier::external_body]
pub(crate) fn join(path: &PathBuf, file: &str) -> (r: PathBuf)
    ensures
        r == joined(*path, file@),
{
    path.join(file)
}

/// Calls `Path::to_str`. The contract gives the result its name, `path_text`,
/// and claims nothing more of it.
#[verifier::external_body]
pub(crate) fn to_text(path: &PathBuf) -> (r: Option<String>)
    ensures
        r is Some == path_text(*path) is Some,
        r matches Some(text) ==> path_text(*path) == Some(text@),
{
    match path.to_str() {
        Some(text) => Some(text.to_owned()),
        None => None,
    }
}

} // verus!
