//! Change records produced by scanning a source-set against its hash storage.

use vstd::prelude::*;

verus! {

/// How a file changed since the last committed scan.
#[derive(Debug, Clone, Copy, PartialEq, Eq, Structural)]
pub enum ChangeKind {
    Added,
    Modified,
    Deleted,
}

/// One changed file.
#[derive(Debug, Clone)]
pub struct FileChange {
    /// Absolute path of the file.
    pub path: String,
    pub kind: ChangeKind,
    /// Content hash after the change; none for a deleted file.
    pub new_hash: Option<String>,
}

/// What scanning a source-set against its hash storage found. `P` is the
/// prepared storage update that a successful build commits.
#[derive(Debug, Clone)]
pub enum AnalysisOutcome<P> {
    /// Nothing changed since the last committed scan.
    NoChanges,
    /// The storage could not be used; the source-set is rebuilt in full.
    Fallback,
    /// These files changed.
    Changes { changes: Vec<FileChange>, prepared: P },
}

} // verus!
