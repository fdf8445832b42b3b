//! Results of loading an artifact into the infobase.

use vstd::prelude::*;
use crate::domain::artifacts::ArtifactBuildMode;
use crate::domain::execution::ExecutionOutcome;

verus! {

#[derive(Debug, Clone, Copy, PartialEq, Eq, Structural)]
pub enum LoadMode {
    Load,
    Merge,
    Update,
}

#[derive(Debug, Clone, Copy, PartialEq, Eq, Structural)]
pub enum LoadTargetKind {
    Unknown,
    Configuration,
    Extension,
}

#[derive(Debug, Clone, Copy, PartialEq, Eq, Structural)]
pub enum CompatibilityState {
    Supported,
    NotSupported,
    Unknown,
}

#[derive(Debug, Clone, PartialEq, Eq)]
pub struct LoadExecutionMetadata {
    pub applied: bool,
    pub target_kind: LoadTargetKind,
    pub compatibility_state: CompatibilityState,
    pub update_db_cfg_ran: bool,
}

#[derive(Debug, Clone)]
pub struct LoadResult {
    pub mode: LoadMode,
    pub artifact_path: String,
    pub artifact_type: ArtifactBuildMode,
    pub extension: Option<String>,
    pub duration_ms: u64,
    pub execution: ExecutionOutcome<LoadExecutionMetadata>,
}

} // verus!
