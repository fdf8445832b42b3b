//! The machine-readable command payload shared by CLI JSON output and MCP
//! structured content.

use vstd::prelude::*;
use crate::domain::execution::StepResult;

verus! {

/// Structured business error carried by a command envelope.
#[derive(Debug, Clone, PartialEq, Eq)]
pub struct EnvelopeError {
    pub code: String,
    pub kind: String,
    pub message: String,
}

impl EnvelopeError {
    pub fn new(code: &str, kind: &str, message: &str) -> (e: Self)
        ensures
            e.code@ == code@,
            e.kind@ == kind@,
            e.message@ == message@,
    {
        EnvelopeError { code: String::from_str(code), kind: String::from_str(kind), message: String::from_str(message) }
    }
}

/// A command's machine-readable payload.
#[derive(Debug, Clone)]
pub struct Envelope<T> {
    pub ok: bool,
    pub command: String,
    pub duration_ms: u64,
    pub data: T,
    pub warnings: Vec<String>,
    pub steps: Vec<StepResult>,
    pub error: Option<EnvelopeError>,
}

impl<T> Envelope<T> {
    /// A successful envelope, without warnings, steps or error.
    pub fn ok(command: &str, duration_ms: u64, data: T) -> (e: Self)
        ensures
            e.ok,
            e.command@ == command@,
            e.duration_ms == duration_ms,
            e.data == data,
            e.warnings@.len() == 0,
            e.steps@.len() == 0,
            e.error is None,
    {
        Envelope { ok: true, command: String::from_str(command), duration_ms, data, warnings: Vec::new(), steps: Vec::new(), error: None }
    }

    /// A failed envelope, without warnings, steps or error.
    pub fn err(command: &str, duration_ms: u64, data: T) -> (e: Self)
        ensures
            !e.ok,
            e.command@ == command@,
            e.duration_ms == duration_ms,
            e.data == data,
            e.warnings@.len() == 0,
            e.steps@.len() == 0,
            e.error is None,
    {
        Envelope { ok: false, command: String::from_str(command), duration_ms, data, warnings: Vec::new(), steps: Vec::new(), error: None }
    }

    /// The envelope with this error; nothing else changes.
    pub fn with_error(self, error: EnvelopeError) -> (e: Self)
        ensures
            e == (Envelope { error: Some(error), ..self }),
    {
        Envelope { error: Some(error), ..self }
    }
}

} // verus!
