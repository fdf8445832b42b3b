//! Results reported by platform commands.

use vstd::prelude::*;

verus! {

/// What a finished process reported.
#[derive(Debug, Clone, PartialEq, Eq)]
pub struct ProcessOutput {
    pub exit_code: i32,
    pub stdout: String,
    pub stderr: String,
}

/// The result of one platform command: the process output and, where the
/// platform wrote one, its log and the log's path.
#[derive(Debug, Clone, PartialEq, Eq)]
pub struct PlatformCommandResult {
    pub process: ProcessOutput,
    pub platform_log: Option<String>,
    pub platform_log_path: Option<String>,
    /// Why the platform log could not be read, when it could not.
    pub platform_log_read_error: Option<String>,
}

} // verus!
