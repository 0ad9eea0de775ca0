//! Where Trident keeps its files: one data directory holding the database
//! and a `logs` directory.
use vstd::prelude::*;
use std::path::PathBuf;

verus! {

#[verifier::external_type_specification]
#[verifier::external_body]
pub struct ExPathBuf(std::path::PathBuf);

/// File name of the database inside the data directory.
pub const DATABASE_FILE_NAME: &'static str = "trident.db";

/// Name of the log directory inside the data directory.
pub const LOG_DIRECTORY_NAME: &'static str = "logs";

/// The path `std::path::Path::join` makes of `base` and `child`.
pub uninterp spec fn joined_path(base: PathBuf, child: Seq<char>) -> PathBuf;

/// `name` is one plain path component on every platform: not empty, not `.`
/// or `..`, and holding no separator (`/`, `\`) and no drive colon.
pub open spec fn is_plain_file_name(name: Seq<char>) -> bool {
    &&& name.len() > 0
    &&& name != "."@
    &&& name != ".."@
    &&& forall|i: int| 0 <= i < name.len() ==> name[i] != '/' && name[i] != '\\' && name[i] != ':'
}

/// `std::path::Path::join`: `child` adjoined to `base`. How the two are put
/// together follows the platform's path rules (separators, prefixes), which
/// are not stated. Claimed: the result is a function of the two; and a plain
/// file name adjoined to `base` ends in that name as its last component, so
/// paths compare equal (component by component) only when the names are equal:
/// another plain name gives another path.
#[verifier::external_body]
fn join_path(base: &PathBuf, child: &str) -> (joined: PathBuf)
    ensures
        joined == joined_path(*base, child@),
        forall|other: Seq<char>| is_plain_file_name(child@) && is_plain_file_name(other) && other != child@
            ==> #[trigger] joined_path(*base, other) != joined,
{
    base.join(child)
}

proof fn lemma_data_file_names_are_plain_and_distinct()
    ensures
        is_plain_file_name(DATABASE_FILE_NAME@),
        is_plain_file_name(LOG_DIRECTORY_NAME@),
        DATABASE_FILE_NAME@ != LOG_DIRECTORY_NAME@,
{
    reveal_strlit("trident.db");
    reveal_strlit("logs");
    reveal_strlit(".");
    reveal_strlit("..");
    assert(DATABASE_FILE_NAME@.len() != LOG_DIRECTORY_NAME@.len());
}

pub struct AppPaths {
    root: PathBuf,
}

impl AppPaths {
    /// The data directory.
    pub closed spec fn root_path(&self) -> PathBuf {
        self.root
    }

    pub fn from_root(root: PathBuf) -> (paths: Self)
        ensures
            paths.root_path() == root,
    {
        Self { root }
    }

    pub fn root(&self) -> (root: &PathBuf)
        ensures
            *root == self.root_path(),
    {
        &self.root
    }

    /// The database file, `trident.db` in the data directory.
    pub fn database_path(&self) -> (path: PathBuf)
        ensures
            path == joined_path(self.root_path(), DATABASE_FILE_NAME@),
            path != joined_path(self.root_path(), LOG_DIRECTORY_NAME@),
    {
        proof {
            lemma_data_file_names_are_plain_and_distinct();
        }
        join_path(&self.root, DATABASE_FILE_NAME)
    }

    /// The log directory, `logs` in the data directory.
    pub fn log_dir(&self) -> (path: PathBuf)
        ensures
            path == joined_path(self.root_path(), LOG_DIRECTORY_NAME@),
            path != joined_path(self.root_path(), DATABASE_FILE_NAME@),
    {
        proof {
            lemma_data_file_names_are_plain_and_distinct();
        }
        join_path(&self.root, LOG_DIRECTORY_NAME)
    }
}

} // verus!
