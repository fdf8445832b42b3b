//! Transport-neutral use cases: their requests, results and decisions.

/// Per-invocation execution metadata shared across transports.
pub mod context;
/// Transport-neutral request DTOs consumed by use cases.
pub mod request;
/// Transport-neutral use-case error and failure contracts.
pub mod result;
/// Decisions of project initialization.
pub mod init_project;
/// Step planning of the build.
pub mod build_project;
/// Sequencing of the build across source-sets.
pub mod build_loop;
pub mod artifacts;
pub mod convert_sources;
pub mod launch_app;
pub mod dump_config;
