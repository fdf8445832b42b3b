//! Results of project initialization.

use vstd::prelude::*;

verus! {

/// How an initialization step ended (`Succeeded` is reported as `ok`).
#[derive(Debug, Clone, Copy, PartialEq, Eq, Structural)]
pub enum InitStepStatus {
    Succeeded,
    Skipped,
    Failed,
}

/// One initialization step.
#[derive(Debug, Clone, PartialEq, Eq)]
pub struct InitStep {
    pub target: String,
    pub action: String,
    pub status: InitStepStatus,
    pub message: Option<String>,
    pub duration_ms: u64,
}

/// The result of initialization: whether every step succeeded, and the steps.
#[derive(Debug, Clone, PartialEq, Eq)]
pub struct InitResult {
    pub ok: bool,
    pub steps: Vec<InitStep>,
    pub duration_ms: u64,
}

} // verus!
