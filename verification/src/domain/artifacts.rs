//! Results of building release artifacts (`.cf`, `.cfe`, `.epf`, `.erf`).

use vstd::prelude::*;
use crate::domain::execution::ExecutionOutcome;

verus! {

pub const CF_RUNNER_ID: &'static str = "designer-cf";
pub const CFE_RUNNER_ID: &'static str = "designer-cfe";
pub const EPF_RUNNER_ID: &'static str = "designer-epf";
pub const ERF_RUNNER_ID: &'static str = "designer-erf";

/// The kind of artifact built.
#[derive(Debug, Clone, Copy, PartialEq, Eq, Structural)]
pub enum ArtifactBuildMode {
    Unknown,
    ConfigurationCf,
    ExtensionCfe,
    ExternalDataProcessorEpf,
    ExternalReportErf,
}

/// The file extension of each artifact kind.
pub open spec fn mode_extension(m: ArtifactBuildMode) -> Seq<char> {
    match m {
        ArtifactBuildMode::Unknown => "unknown"@,
        ArtifactBuildMode::ConfigurationCf => "cf"@,
        ArtifactBuildMode::ExtensionCfe => "cfe"@,
        ArtifactBuildMode::ExternalDataProcessorEpf => "epf"@,
        ArtifactBuildMode::ExternalReportErf => "erf"@,
    }
}

impl ArtifactBuildMode {
    /// Returns the file extension of the artifact kind.
    pub fn file_extension(self) -> (s: &'static str)
        ensures
            s@ == mode_extension(self),
    {
        match self {
            ArtifactBuildMode::Unknown => "unknown",
            ArtifactBuildMode::ConfigurationCf => "cf",
            ArtifactBuildMode::ExtensionCfe => "cfe",
            ArtifactBuildMode::ExternalDataProcessorEpf => "epf",
            ArtifactBuildMode::ExternalReportErf => "erf",
        }
    }
}

/// What an artifact build produced.
#[derive(Debug, Clone, PartialEq, Eq)]
pub struct ArtifactBuildMetadata {
    pub artifact_type: ArtifactBuildMode,
    pub output_path: String,
    pub file_names: Vec<String>,
    pub published: bool,
}

/// The result of an artifact build.
#[derive(Debug, Clone, PartialEq, Eq)]
pub struct ArtifactsResult {
    pub mode: ArtifactBuildMode,
    pub source_set: Option<String>,
    pub extension: Option<String>,
    pub duration_ms: u64,
    pub execution: ExecutionOutcome<ArtifactBuildMetadata>,
}

} // verus!
