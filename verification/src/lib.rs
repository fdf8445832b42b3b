//! Verified core of the v8-runner command-line tool: configuration checks,
//! partial-load planning, request mapping, result rendering and the
//! decision logic of the use cases.

pub mod text;
pub mod path;
pub mod path_order;
pub mod probe;
pub mod config;
pub mod change_detection;
pub mod support;
pub mod use_cases;
pub mod cli;
pub mod command_envelope;
pub mod mcp;
pub mod platform;
pub mod domain;
