//! The error classes that the use cases raise.

use vstd::prelude::*;
use crate::config::validate::ConfigValidationError;

verus! {

/// An error raised inside a use case, by class.
#[derive(Debug, Clone)]
pub enum AppError {
    /// The request or configuration is invalid.
    Validation(String),
    /// A failure of the tool itself (filesystem, locks, bookkeeping).
    Runtime(String),
    /// A failure of the 1C platform or EDT tooling.
    Platform(String),
    /// The configuration failed its consistency checks.
    Config(ConfigValidationError),
}

} // verus!
