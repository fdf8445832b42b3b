//! Responses returned by the MCP tools.

use vstd::prelude::*;

verus! {

/// Stable MCP-facing build mode.
#[derive(Debug, Clone, PartialEq, Eq)]
pub enum McpBuildMode {
    EdtExport,
    Full,
    Partial { file_count: usize },
    Skipped,
}

/// MCP build step result.
#[derive(Debug, Clone, PartialEq, Eq)]
pub struct McpBuildStep {
    pub source_set: String,
    pub mode: McpBuildMode,
    pub ok: bool,
    pub message: Option<String>,
    pub duration_ms: u64,
}

/// MCP execution step result.
#[derive(Debug, Clone, PartialEq, Eq)]
pub struct McpStepResult {
    pub name: String,
    pub ok: bool,
    pub duration_ms: u64,
    pub message: Option<String>,
}

/// Stable MCP-facing test status.
#[derive(Debug, Clone, PartialEq, Eq)]
pub enum McpTestStatus {
    Passed,
    Failed,
    Skipped,
    Error,
}

/// MCP test case.
#[derive(Debug, Clone, PartialEq, Eq)]
pub struct McpTestCase {
    pub name: String,
    pub class_name: Option<String>,
    pub status: McpTestStatus,
    pub duration_ms: u64,
    pub failure_message: Option<String>,
    pub stack_trace: Option<String>,
}

/// MCP test suite.
#[derive(Debug, Clone, PartialEq, Eq)]
pub struct McpTestSuite {
    pub name: String,
    pub cases: Vec<McpTestCase>,
    pub duration_ms: u64,
}

/// Stable MCP-facing issue severity.
#[derive(Debug, Clone, PartialEq, Eq)]
pub enum McpIssueSeverity {
    Error,
    Warning,
    Info,
}

/// MCP module issue.
#[derive(Debug, Clone, PartialEq, Eq)]
pub struct McpModuleIssue {
    pub path: String,
    pub line: Option<u32>,
    pub column: Option<u32>,
    pub message: String,
    pub severity: McpIssueSeverity,
}

/// MCP object issue.
#[derive(Debug, Clone, PartialEq, Eq)]
pub struct McpObjectIssue {
    pub object: String,
    pub message: String,
    pub severity: McpIssueSeverity,
}

/// MCP EDT issue.
#[derive(Debug, Clone, PartialEq, Eq)]
pub struct McpEdtIssue {
    pub path: String,
    pub line: Option<u32>,
    pub column: Option<u32>,
    pub message: String,
    pub severity: McpIssueSeverity,
    pub check: Option<String>,
}

/// MCP issue payload.
#[derive(Debug, Clone, PartialEq, Eq)]
pub enum McpIssue {
    Module(McpModuleIssue),
    Object(McpObjectIssue),
    Edt(McpEdtIssue),
}

/// MCP response for `build_project`.
#[derive(Debug, Clone, PartialEq)]
pub struct McpBuildResponse {
    pub success: bool,
    pub message: String,
    pub build_time_ms: Option<u64>,
    pub steps: Option<Vec<McpBuildStep>>,
}

/// MCP response for `run_all_tests` and `run_module_tests`.
#[derive(Debug, Clone, PartialEq)]
pub struct McpTestResponse {
    pub success: bool,
    pub message: String,
    pub total_tests: Option<u32>,
    pub passed_tests: Option<u32>,
    pub failed_tests: Option<u32>,
    pub execution_time_ms: Option<u64>,
    pub enterprise_log_path: Option<String>,
    pub log_file: Option<String>,
    pub test_detail: Option<Vec<McpTestSuite>>,
    pub steps: Option<Vec<McpStepResult>>,
    pub errors: Option<Vec<String>>,
}

/// MCP response for `dump_config`.
#[derive(Debug, Clone, PartialEq)]
pub struct McpDumpResponse {
    pub success: bool,
    pub message: String,
    pub mode: String,
    pub dump_time_ms: Option<u64>,
    pub dumped_objects: Option<usize>,
    pub errors: Option<Vec<String>>,
    pub steps: Option<Vec<McpStepResult>>,
}

/// MCP response for `launch_app`.
#[derive(Debug, Clone, PartialEq)]
pub struct McpLaunchResponse {
    pub success: bool,
    pub message: String,
}

/// MCP response for syntax-check tools.
#[derive(Debug, Clone, PartialEq)]
pub struct McpSyntaxCheckResponse {
    pub success: bool,
    pub message: String,
    pub check_result: Option<String>,
    pub errors: Option<Vec<String>>,
    pub issues: Option<Vec<McpIssue>>,
    pub duration_ms: Option<u64>,
}

} // verus!
