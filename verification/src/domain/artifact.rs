//! Files a command produced or kept.

use vstd::prelude::*;

verus! {

/// What kind of file an artifact is.
#[derive(Debug, Clone, PartialEq, Eq)]
pub enum ArtifactKind {
    Config,
    PlatformLog,
    Other(String),
}

/// One artifact: its kind and path.
#[derive(Debug, Clone, PartialEq, Eq)]
pub struct ArtifactRef {
    pub kind: ArtifactKind,
    pub path: String,
}

/// The artifacts of a command: an optional root directory and the files.
#[derive(Debug, Clone, PartialEq, Eq)]
pub struct ArtifactSet {
    pub root_dir: Option<String>,
    pub items: Vec<ArtifactRef>,
}

impl ArtifactSet {
    /// The empty set.
    pub fn empty() -> (s: Self)
        ensures
            s.root_dir is None,
            s.items@.len() == 0,
    {
        ArtifactSet { root_dir: None, items: Vec::new() }
    }

    /// Whether the set has neither a root directory nor any file.
    pub fn is_empty(&self) -> (b: bool)
        ensures
            b <==> self.root_dir is None && self.items@.len() == 0,
    {
        self.root_dir.is_none() && self.items.len() == 0
    }
}

} // verus!
