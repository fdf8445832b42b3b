//! Structured payloads of MCP tool calls.

use vstd::prelude::*;
use crate::mcp::error::{McpBusinessError, McpBusinessFailure};

verus! {

/// High-level status of a structured tool payload.
#[derive(Debug, Clone, Copy, PartialEq, Eq, Structural)]
pub enum McpToolStatus {
    Success,
    BusinessFailure,
}

/// Structured payload of a successful or business-failed tool call.
#[derive(Debug, Clone, PartialEq)]
pub struct McpToolResult<T> {
    pub status: McpToolStatus,
    pub result: Option<T>,
    pub error: Option<McpBusinessError>,
    pub response: Option<T>,
}

impl<T> McpToolResult<T> {
    /// A success payload: the result, and no error or response.
    pub fn success(result: T) -> (r: Self)
        ensures
            r.status == McpToolStatus::Success,
            r.result == Some(result),
            r.error is None,
            r.response is None,
    {
        McpToolResult { status: McpToolStatus::Success, result: Some(result), error: None, response: None }
    }

    /// A business-failure payload: the error and the typed response, no result.
    pub fn business_failure(failure: McpBusinessFailure<T>) -> (r: Self)
        ensures
            r.status == McpToolStatus::BusinessFailure,
            r.result is None,
            r.error == Some(failure.error),
            r.response == Some(failure.response),
    {
        McpToolResult {
            status: McpToolStatus::BusinessFailure,
            result: None,
            error: Some(failure.error),
            response: Some(failure.response),
        }
    }
}

} // verus!
