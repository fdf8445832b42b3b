//! Results of the build.

use vstd::prelude::*;

verus! {

/// How a source-set is built.
#[derive(Debug, Clone, Copy, PartialEq, Eq, Structural)]
pub enum BuildMode {
    EdtExport,
    Full,
    Partial { file_count: usize },
    Skipped,
}

/// One build step: the source-set, how it was built, whether it succeeded,
/// its message and how long it took.
#[derive(Debug, Clone, PartialEq, Eq)]
pub struct BuildStep {
    pub source_set: String,
    pub mode: BuildMode,
    pub ok: bool,
    pub message: Option<String>,
    pub duration_ms: u64,
}

/// The result of a build.
#[derive(Debug, Clone, PartialEq, Eq)]
pub struct BuildResult {
    pub ok: bool,
    pub steps: Vec<BuildStep>,
    pub duration_ms: u64,
}

} // verus!
