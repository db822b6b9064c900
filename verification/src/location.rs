//! Where the database file lies: in the per-user data directory of the
//! platform, under a directory of the application.
//!
//! A path of the file system is opaque to the verifier. A location is
//! therefore kept in two parts: the path to start from, as it was given, and
//! the names that lead from there down to the file. The names are plain
//! values, and the contracts speak of them. What the file system's rules make
//! of a path and a name is named, not spelled out.

use vstd::prelude::*;
use crate::error::StoreError;

verus! {

/// The directory of the application below the per-user data directory.
pub const APP_DIR: &'static str = "genau";

/// The name of the database file in [`APP_DIR`].
pub const DB_FILE: &'static str = "genau.db";

/// `std::path::PathBuf`, a file-system path. Opaque to the verifier.
#[verifier::external_type_specification]
#[verifier::external_body]
pub struct ExPathBuf(std::path::PathBuf);

/// The location of a database file: the path `base`, extended by each name
/// of `below` in turn. With no name below it, `base` itself is the file.
#[derive(Debug, PartialEq, Eq)]
pub struct DatabasePath {
    pub base: std::path::PathBuf,
    pub below: Vec<String>,
}

/// Calls `dirs::data_dir`, which names the per-user data directory of the
/// platform or reports that there is none. Nothing is claimed of the outcome:
/// it depends on the platform and on the environment.
#[verifier::external_body]
fn data_dir() -> (r: Option<std::path::PathBuf>)
{
    dirs::data_dir()
}

/// The path that `std::path::PathBuf::push` makes of the path `base` and
/// the name `name`, by the rules of the platform that the crate is built for.
pub uninterp spec fn path_with(base: std::path::PathBuf, name: Seq<char>) -> std::path::PathBuf;

/// Calls `std::path::PathBuf::push`, which extends `path` by `name`. The
/// call reads nothing but the path and the name, so the path that results is
/// [`path_with`] of the two.
#[verifier::external_body]
fn push(path: &mut std::path::PathBuf, name: &str)
    ensures
        *final(path) == path_with(*old(path), name@),
{
    path.push(name)
}

/// The path `base` extended by each name of `below` in turn, the first name
/// first.
pub open spec fn resolved(base: std::path::PathBuf, below: Seq<Seq<char>>) -> std::path::PathBuf
    decreases below.len(),
{
    if below.len() == 0 {
        base
    } else {
        path_with(resolved(base, below.drop_last()), below.last())
    }
}

impl DatabasePath {
    /// The path of the file for the file system: `base` extended by the
    /// names of `below`, the first name first. With no name below it, the
    /// path is `base` as it was given.
    pub fn resolve(self) -> (path: std::path::PathBuf)
        ensures
            path == resolved(self.base, self.below.deep_view()),
    {
        let ghost base = self.base;
        let mut path = self.base;
        let mut at: usize = 0;
        while at < self.below.len()
            invariant
                at <= self.below.len(),
                path == resolved(base, self.below.deep_view().take(at as int)),
            decreases self.below.len() - at,
        {
            push(&mut path, self.below[at].as_str());
            proof {
                let names = self.below.deep_view();
                assert(names.take(at + 1).drop_last() =~= names.take(at as int));
            }
            at = at + 1;
        }
        assert(self.below.deep_view().take(at as int) =~= self.below.deep_view());
        path
    }
}

/// The location of the database file, given the per-user data directory if
/// the platform names one: in that directory, the file [`DB_FILE`] in the
/// directory [`APP_DIR`].
///
/// Fails exactly where there is no data directory, with
/// [`StoreError::NoDataDirectory`].
pub fn database_path_under(data_dir: Option<std::path::PathBuf>) -> (r: Result<
    DatabasePath,
    StoreError,
>)
    ensures
        match data_dir {
            Some(dir) => r matches Ok(location) && location.base == dir
                && location.below.deep_view() == seq![APP_DIR@, DB_FILE@],
            None => r matches Err(e) && e is NoDataDirectory,
        },
{
    match data_dir {
        None => Err(StoreError::NoDataDirectory),
        Some(dir) => {
            let mut below: Vec<String> = Vec::new();
            below.push(APP_DIR.to_string());
            below.push(DB_FILE.to_string());
            Ok(DatabasePath { base: dir, below })
        },
    }
}

/// The location of the database file on this platform, for the current user.
///
/// Which directory holds the data of the user, and whether there is one, is
/// for the platform to say. Where there is one, the file is [`DB_FILE`] in
/// the directory [`APP_DIR`] below it; the only failure is that there is
/// none.
pub fn get_database_path() -> (r: Result<DatabasePath, StoreError>)
    ensures
        match r {
            Ok(location) => location.below.deep_view() == seq![APP_DIR@, DB_FILE@],
            Err(e) => e is NoDataDirectory,
        },
{
    database_path_under(data_dir())
}

} // verus!
