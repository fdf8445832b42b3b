//! Results of dumping the infobase to files.

use vstd::prelude::*;

verus! {

/// How much is dumped.
#[derive(Debug, Clone, Copy, PartialEq, Eq, Structural)]
pub enum DumpMode {
    Full,
    Incremental,
    Partial,
}

/// The result of a dump.
#[derive(Debug, Clone, PartialEq, Eq)]
pub struct DumpResult {
    pub ok: bool,
    pub source_set: Option<String>,
    pub extension: Option<String>,
    pub mode: DumpMode,
    pub target_path: String,
    pub platform_log_path: Option<String>,
    pub duration_ms: u64,
    pub message: Option<String>,
}

} // verus!
