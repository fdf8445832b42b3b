//! Limits the MCP server applies to tool execution, and its bootstrap errors.

use vstd::prelude::*;
use std::time::Duration;
use crate::config::model::AppConfig;
use crate::mcp::telemetry::{duration_from_secs, duration_of_secs};

verus! {

/// At least one, else the configured value.
pub open spec fn at_least_one_usize(n: usize) -> usize {
    if n < 1 { 1 } else { n }
}

/// At least one, else the configured value.
pub open spec fn at_least_one_u64(n: u64) -> u64 {
    if n < 1 { 1 } else { n }
}

/// How many tool calls may run at once: the configured limit, and at least one.
pub fn max_concurrent_calls(config: &AppConfig) -> (n: usize)
    ensures
        n == at_least_one_usize(config.mcp.execution.max_concurrent_calls),
        n >= 1,
{
    let configured = config.mcp.execution.max_concurrent_calls;
    if configured < 1 { 1 } else { configured }
}

/// How many seconds running calls get to finish when the server stops: the
/// configured value, and at least one.
pub fn shutdown_grace_period_secs(config: &AppConfig) -> (secs: u64)
    ensures
        secs == at_least_one_u64(config.mcp.execution.shutdown_grace_period_secs),
        secs >= 1,
{
    let configured = config.mcp.execution.shutdown_grace_period_secs;
    if configured < 1 { 1 } else { configured }
}

/// How long running calls get to finish when the server stops.
pub fn shutdown_grace_period(config: &AppConfig) -> (d: Duration)
    ensures
        d == duration_of_secs(at_least_one_u64(config.mcp.execution.shutdown_grace_period_secs)),
{
    duration_from_secs(shutdown_grace_period_secs(config))
}

/// Bootstrap errors of the MCP stdio server.
#[derive(Debug, Clone, PartialEq, Eq)]
pub enum McpServerError {
    BuildRuntime(String),
    Start(String),
    Task(String),
}

/// The displayed text of a bootstrap error.
pub open spec fn server_error_text(e: McpServerError) -> Seq<char> {
    match e {
        McpServerError::BuildRuntime(m) => "failed to build tokio runtime for MCP stdio: "@ + m@,
        McpServerError::Start(m) => "failed to start MCP stdio server: "@ + m@,
        McpServerError::Task(m) => "MCP stdio server task failed: "@ + m@,
    }
}

impl McpServerError {
    /// Returns the displayed text of the error.
    pub fn message(&self) -> (s: String)
        ensures
            s@ == server_error_text(*self),
    {
        match self {
            McpServerError::BuildRuntime(m) => String::from_str("failed to build tokio runtime for MCP stdio: ").concat(m.as_str()),
            McpServerError::Start(m) => String::from_str("failed to start MCP stdio server: ").concat(m.as_str()),
            McpServerError::Task(m) => String::from_str("MCP stdio server task failed: ").concat(m.as_str()),
        }
    }
}

} // verus!
