//! Transport-neutral use-case errors and failures.

use vstd::prelude::*;
use crate::support::error::AppError;
use crate::config::validate::config_error_text;

verus! {

const VALIDATION_EXIT_CODE: i32 = 2;
const RUNTIME_EXIT_CODE: i32 = 3;
const PLATFORM_EXIT_CODE: i32 = 4;

/// Stable use-case error class used by transport adapters.
#[derive(Debug, Clone, Copy, PartialEq, Eq, Structural)]
pub enum UseCaseErrorKind {
    Validation,
    Runtime,
    Platform,
}

/// The CLI exit code of each error class.
pub open spec fn kind_exit_code(k: UseCaseErrorKind) -> i32 {
    match k {
        UseCaseErrorKind::Validation => 2,
        UseCaseErrorKind::Runtime => 3,
        UseCaseErrorKind::Platform => 4,
    }
}

/// The label that prefixes the text of an error of each class.
pub open spec fn kind_label(k: UseCaseErrorKind) -> Seq<char> {
    match k {
        UseCaseErrorKind::Validation => "validation error"@,
        UseCaseErrorKind::Runtime => "runtime error"@,
        UseCaseErrorKind::Platform => "platform error"@,
    }
}

impl UseCaseErrorKind {
    /// Maps the error kind to the CLI exit code.
    pub fn exit_code(self) -> (c: i32)
        ensures
            c == kind_exit_code(self),
    {
        match self {
            UseCaseErrorKind::Validation => VALIDATION_EXIT_CODE,
            UseCaseErrorKind::Runtime => RUNTIME_EXIT_CODE,
            UseCaseErrorKind::Platform => PLATFORM_EXIT_CODE,
        }
    }

    /// The label that prefixes the text of an error of this class.
    pub fn label(self) -> (s: &'static str)
        ensures
            s@ == kind_label(self),
    {
        match self {
            UseCaseErrorKind::Validation => "validation error",
            UseCaseErrorKind::Runtime => "runtime error",
            UseCaseErrorKind::Platform => "platform error",
        }
    }
}

/// The class of use-case error an [`AppError`] becomes.
pub open spec fn app_error_kind(e: AppError) -> UseCaseErrorKind {
    match e {
        AppError::Validation(_) => UseCaseErrorKind::Validation,
        AppError::Runtime(_) => UseCaseErrorKind::Runtime,
        AppError::Platform(_) => UseCaseErrorKind::Platform,
        AppError::Config(_) => UseCaseErrorKind::Validation,
    }
}

/// The message of the use-case error an [`AppError`] becomes.
pub open spec fn app_error_message(e: AppError) -> Seq<char> {
    match e {
        AppError::Validation(m) => m@,
        AppError::Runtime(m) => m@,
        AppError::Platform(m) => m@,
        AppError::Config(c) => config_error_text(c@),
    }
}

/// Transport-neutral error metadata returned by use cases.
#[derive(Debug, Clone)]
pub struct UseCaseError {
    kind: UseCaseErrorKind,
    message: String,
}

impl UseCaseError {
    pub closed spec fn spec_kind(&self) -> UseCaseErrorKind {
        self.kind
    }

    pub closed spec fn spec_message(&self) -> Seq<char> {
        self.message@
    }

    /// Creates a new use-case error.
    pub fn new(kind: UseCaseErrorKind, message: String) -> (e: Self)
        ensures
            e.spec_kind() == kind,
            e.spec_message() == message@,
    {
        UseCaseError { kind, message }
    }

    /// Returns the error kind.
    pub fn kind(&self) -> (k: UseCaseErrorKind)
        ensures
            k == self.spec_kind(),
    {
        self.kind
    }

    /// Returns the message without the prefixed kind label.
    pub fn message(&self) -> (m: &str)
        ensures
            m@ == self.spec_message(),
    {
        self.message.as_str()
    }

    /// Returns the CLI exit code associated with this error kind.
    pub fn exit_code(&self) -> (c: i32)
        ensures
            c == kind_exit_code(self.spec_kind()),
    {
        self.kind.exit_code()
    }

    /// The displayed text: the class label, a colon and the message.
    pub fn display_text(&self) -> (s: String)
        ensures
            s@ == kind_label(self.spec_kind()) + ": "@ + self.spec_message(),
    {
        String::from_str(self.kind.label()).concat(": ").concat(self.message.as_str())
    }

    /// Classifies an [`AppError`]: a configuration error is a validation error.
    pub fn from_app_error(value: AppError) -> (e: Self)
        ensures
            e.spec_kind() == app_error_kind(value),
            e.spec_message() == app_error_message(value),
    {
        match value {
            AppError::Validation(message) => UseCaseError::new(UseCaseErrorKind::Validation, message),
            AppError::Runtime(message) => UseCaseError::new(UseCaseErrorKind::Runtime, message),
            AppError::Platform(message) => UseCaseError::new(UseCaseErrorKind::Platform, message),
            AppError::Config(error) => UseCaseError::new(UseCaseErrorKind::Validation, error.message()),
        }
    }
}

/// A failed use-case execution with structured payload and transport-neutral error metadata.
#[derive(Debug, Clone)]
pub struct UseCaseFailure<T> {
    pub error: UseCaseError,
    pub payload: Option<T>,
}

impl<T> UseCaseFailure<T> {
    /// Creates a failure that should still be rendered as a structured command payload.
    pub fn with_payload(error: UseCaseError, payload: T) -> (f: Self)
        ensures
            f.error == error,
            f.payload == Some(payload),
    {
        UseCaseFailure { error, payload: Some(payload) }
    }

    /// Creates a failure that should not emit a structured command payload.
    pub fn without_payload(error: UseCaseError) -> (f: Self)
        ensures
            f.error == error,
            f.payload is None,
    {
        UseCaseFailure { error, payload: None }
    }
}

} // verus!
