//! Problems reported by syntax checks.

use vstd::prelude::*;

verus! {

#[derive(Debug, Clone, PartialEq, Eq)]
pub enum Issue {
    Module(ModuleIssue),
    Object(ObjectIssue),
    Edt(EdtIssue),
}

#[derive(Debug, Clone, PartialEq, Eq)]
pub struct ModuleIssue {
    pub path: String,
    pub line: Option<u32>,
    pub column: Option<u32>,
    pub message: String,
    pub severity: IssueSeverity,
}

#[derive(Debug, Clone, PartialEq, Eq)]
pub struct ObjectIssue {
    pub object: String,
    pub message: String,
    pub severity: IssueSeverity,
}

#[derive(Debug, Clone, PartialEq, Eq)]
pub struct EdtIssue {
    pub path: String,
    pub line: Option<u32>,
    pub column: Option<u32>,
    pub message: String,
    pub severity: IssueSeverity,
    pub check: Option<String>,
}

#[derive(Debug, Clone, Copy, PartialEq, Eq, Structural)]
pub enum IssueSeverity {
    Error,
    Warning,
    Info,
}

} // verus!
