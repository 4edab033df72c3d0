//! Path predicates. Whether a path is absolute is a property of its text;
//! what exists at a path is a property of the disk at the time of the call,
//! so it is gathered into `PathFacts` and the decisions take it as a value.

use vstd::prelude::*;

verus! {

/// On Unix a path is absolute when it starts with `/`.
pub open spec fn starts_with_root(p: Seq<char>) -> bool {
    p.len() > 0 && p[0] == '/'
}

/// Relies on camino's `Utf8Path::is_absolute`, which on Unix holds exactly
/// when the path starts with the root `/`.
#[verifier::external_body]
pub(crate) fn is_absolute(p: &str) -> (r: bool)
    ensures
        r == starts_with_root(p@),
{
    camino::Utf8Path::new(p).is_absolute()
}

/// Relies on camino's `Utf8Path::exists`: whether something is on disk at
/// the path now. Nothing is promised of the answer.
#[verifier::external_body]
fn path_exists(p: &str) -> (r: bool) {
    camino::Utf8Path::new(p).exists()
}

/// Relies on camino's `Utf8Path::is_file`: whether a regular file is on disk
/// at the path now. Nothing is promised of the answer.
#[verifier::external_body]
fn path_is_file(p: &str) -> (r: bool) {
    camino::Utf8Path::new(p).is_file()
}

/// Relies on camino's `Utf8Path::is_dir`: whether a directory is on disk at
/// the path now. Nothing is promised of the answer.
#[verifier::external_body]
fn path_is_dir(p: &str) -> (r: bool) {
    camino::Utf8Path::new(p).is_dir()
}

/// Relies on `which::which`, which looks through the directories of the
/// current process's `PATH` for an executable file of that name, and on
/// camino's `Utf8PathBuf::try_from`, which turns the found path into text
/// when it is UTF-8. The answer depends on the environment and the disk:
/// nothing is promised of it.
#[verifier::external_body]
pub(crate) fn search_path(name: &str) -> (r: Option<String>) {
    match which::which(name) {
        Ok(found) => camino::Utf8PathBuf::try_from(found).ok().map(|p| p.into_string()),
        Err(_) => None,
    }
}

/// What the disk held at a path when it was looked at.
#[derive(Clone, Copy, Debug, PartialEq, Eq, Structural)]
pub struct PathFacts {
    pub exists: bool,
    pub is_file: bool,
    pub is_dir: bool,
}

impl PathFacts {
    /// Looks at the disk. The three answers come from separate queries.
    pub fn of(p: &str) -> (r: PathFacts) {
        PathFacts { exists: path_exists(p), is_file: path_is_file(p), is_dir: path_is_dir(p) }
    }
}

} // verus!
