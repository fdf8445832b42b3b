//! The MCP server's verified parts: request and response shapes, tool
//! payloads, execution limits and telemetry.

pub mod error;
pub mod request;
pub mod response;
pub mod server;
pub mod telemetry;
pub mod tool_result;
