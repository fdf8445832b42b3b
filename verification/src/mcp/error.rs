//! Business failures reported by MCP tools.

use vstd::prelude::*;

verus! {

/// A business error as MCP clients see it: a stable code and a message.
#[derive(Debug, Clone, PartialEq, Eq)]
pub struct McpBusinessError {
    pub code: String,
    pub message: String,
}

/// A business failure that still carries the typed response body.
#[derive(Debug, Clone, PartialEq, Eq)]
pub struct McpBusinessFailure<T> {
    pub error: McpBusinessError,
    pub response: T,
}

} // verus!
