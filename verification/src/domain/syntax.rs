//! Results of syntax checks.

use vstd::prelude::*;
use crate::domain::issue::Issue;

verus! {

#[derive(Debug, Clone, Copy, PartialEq, Eq, Structural)]
pub enum SyntaxCheckStatus {
    Clean,
    IssuesFound,
    ToolFailed,
}

#[derive(Debug, Clone, PartialEq, Eq)]
pub struct SyntaxIssueSummary {
    pub errors: usize,
    pub warnings: usize,
    pub info: usize,
}

#[derive(Debug, Clone)]
pub struct SyntaxCheckResult {
    pub status: SyntaxCheckStatus,
    pub exit_code: i32,
    pub check_name: String,
    pub issues: Vec<Issue>,
    pub summary: SyntaxIssueSummary,
    pub duration_ms: u64,
    pub platform_log_path: Option<String>,
    pub stderr: Option<String>,
    pub log_read_warning: Option<String>,
}

} // verus!
