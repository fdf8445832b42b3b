//! Results of launching a 1C application.

use vstd::prelude::*;

verus! {

/// Which application is launched.
#[derive(Debug, Clone, Copy, PartialEq, Eq, Structural)]
pub enum LaunchMode {
    Designer,
    Thin,
    Thick,
    /// The thick client in ordinary-application run mode.
    Ordinary,
}

/// The result of a launch.
#[derive(Debug, Clone, PartialEq, Eq)]
pub struct LaunchResult {
    pub ok: bool,
    pub mode: LaunchMode,
    pub pid: Option<u32>,
    pub binary: String,
    pub message: Option<String>,
    pub duration_ms: u64,
}

} // verus!
