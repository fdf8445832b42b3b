//! The canonical outcome of a command's execution.

use vstd::prelude::*;
use crate::domain::artifact::{ArtifactRef, ArtifactSet};

verus! {

/// Whether the execution succeeded.
#[derive(Debug, Clone, Copy, PartialEq, Eq, Structural)]
pub enum ExecutionStatus {
    Succeeded,
    Failed,
}

/// A structured error of an execution.
#[derive(Debug, Clone, PartialEq, Eq)]
pub struct ExecutionError {
    pub code: String,
    pub message: String,
    pub details: Vec<String>,
    pub artifact: Option<ArtifactRef>,
    pub retryable: bool,
}

/// The outcome of an execution: its status, errors, diagnostics, artifacts
/// and typed payload.
#[derive(Debug, Clone, PartialEq, Eq)]
pub struct ExecutionOutcome<T> {
    pub status: ExecutionStatus,
    pub errors: Vec<ExecutionError>,
    pub diagnostics: Vec<String>,
    pub artifacts: Option<ArtifactSet>,
    pub payload: Option<T>,
}

impl<T> ExecutionOutcome<T> {
    /// An outcome with a status and nothing else.
    pub fn new(status: ExecutionStatus) -> (o: Self)
        ensures
            o.status == status,
            o.errors@.len() == 0,
            o.diagnostics@.len() == 0,
            o.artifacts is None,
            o.payload is None,
    {
        ExecutionOutcome { status, errors: Vec::new(), diagnostics: Vec::new(), artifacts: None, payload: None }
    }

    /// The outcome with a payload.
    pub fn with_payload(self, payload: T) -> (o: Self)
        ensures
            o == (ExecutionOutcome { payload: Some(payload), ..self }),
    {
        ExecutionOutcome { payload: Some(payload), ..self }
    }

    /// The outcome with these errors.
    pub fn with_errors(self, errors: Vec<ExecutionError>) -> (o: Self)
        ensures
            o == (ExecutionOutcome { errors, ..self }),
    {
        ExecutionOutcome { errors, ..self }
    }

    /// The outcome with these diagnostics.
    pub fn with_diagnostics(self, diagnostics: Vec<String>) -> (o: Self)
        ensures
            o == (ExecutionOutcome { diagnostics, ..self }),
    {
        ExecutionOutcome { diagnostics, ..self }
    }

    /// The outcome with these artifacts.
    pub fn with_artifacts(self, artifacts: ArtifactSet) -> (o: Self)
        ensures
            o == (ExecutionOutcome { artifacts: Some(artifacts), ..self }),
    {
        ExecutionOutcome { artifacts: Some(artifacts), ..self }
    }

    /// Whether the execution succeeded.
    pub fn is_ok(&self) -> (b: bool)
        ensures
            b <==> self.status == ExecutionStatus::Succeeded,
    {
        match self.status {
            ExecutionStatus::Succeeded => true,
            ExecutionStatus::Failed => false,
        }
    }
}

/// One step of a command, as machine-readable output reports it.
#[derive(Debug, Clone, PartialEq, Eq)]
pub struct StepResult {
    pub name: String,
    pub ok: bool,
    pub duration_ms: u64,
    pub message: Option<String>,
}

} // verus!
