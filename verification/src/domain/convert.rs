//! Results of converting sources between the Designer and EDT formats.

use vstd::prelude::*;

verus! {

/// Which way sources are converted.
#[derive(Debug, Clone, Copy, PartialEq, Eq, Structural)]
pub enum ConvertDirection {
    EdtToDesigner,
    DesignerToEdt,
}

/// The result of a conversion.
#[derive(Debug, Clone, PartialEq, Eq)]
pub struct ConvertResult {
    pub ok: bool,
    pub direction: ConvertDirection,
    pub source_path: String,
    pub target_path: String,
    pub workspace_path: String,
    pub duration_ms: u64,
    pub message: Option<String>,
}

} // verus!
