//! What the library reads from a repository: commits and working-tree changes.
use vstd::prelude::*;

verus! {

/// One commit of the history.
#[derive(Debug, Clone)]
pub struct CommitSummary {
    pub hash: String,
    /// First line of the commit message.
    pub summary: String,
    /// Full commit message including body and footer (`None` if not fetched).
    pub full_message: Option<String>,
}

/// The state of a changed path.
#[derive(Debug, Clone, PartialEq, Eq)]
pub enum FileStatus {
    Modified,
    Added,
    Deleted,
    Renamed { old_path: String, new_path: String },
    TypeChange,
    Untracked,
    Unknown,
}

/// A changed path of the working tree or index.
#[derive(Debug, Clone)]
pub struct Change {
    pub path: String,
    pub staged: bool,
    pub status: FileStatus,
}

} // verus!
