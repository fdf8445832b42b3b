//! Envelopes of failed CLI commands.

use vstd::prelude::*;
use crate::command_envelope::{Envelope, EnvelopeError};
use crate::use_cases::result::{UseCaseError, UseCaseErrorKind};

verus! {

/// The stable code of each error class in envelopes.
pub open spec fn error_code(k: UseCaseErrorKind) -> Seq<char> {
    match k {
        UseCaseErrorKind::Validation => "invalid_argument"@,
        UseCaseErrorKind::Runtime => "runtime_failure"@,
        UseCaseErrorKind::Platform => "platform_failure"@,
    }
}

/// The kind name of each error class in envelopes.
pub open spec fn error_kind_name(k: UseCaseErrorKind) -> Seq<char> {
    match k {
        UseCaseErrorKind::Validation => "validation"@,
        UseCaseErrorKind::Runtime => "runtime"@,
        UseCaseErrorKind::Platform => "platform"@,
    }
}

/// The envelope error of a use-case error: its class's code and kind name,
/// and its message.
pub fn cli_envelope_error(error: &UseCaseError) -> (e: EnvelopeError)
    ensures
        e.code@ == error_code(error.spec_kind()),
        e.kind@ == error_kind_name(error.spec_kind()),
        e.message@ == error.spec_message(),
{
    let (code, kind) = match error.kind() {
        UseCaseErrorKind::Validation => ("invalid_argument", "validation"),
        UseCaseErrorKind::Runtime => ("runtime_failure", "runtime"),
        UseCaseErrorKind::Platform => ("platform_failure", "platform"),
    };
    EnvelopeError::new(code, kind, error.message())
}

/// The envelope with the error of a use-case failure attached.
pub fn with_cli_error<T>(envelope: Envelope<T>, error: &UseCaseError) -> (e: Envelope<T>)
    ensures
        e.ok == envelope.ok,
        e.command == envelope.command,
        e.duration_ms == envelope.duration_ms,
        e.data == envelope.data,
        e.warnings == envelope.warnings,
        e.steps == envelope.steps,
        e.error matches Some(x) && x.code@ == error_code(error.spec_kind()) && x.kind@ == error_kind_name(error.spec_kind())
            && x.message@ == error.spec_message(),
{
    envelope.with_error(cli_envelope_error(error))
}

/// The failed envelope of a command, carrying the error.
pub fn failure_envelope<T>(command: &str, duration_ms: u64, data: T, error: &UseCaseError) -> (e: Envelope<T>)
    ensures
        !e.ok,
        e.command@ == command@,
        e.duration_ms == duration_ms,
        e.data == data,
        e.warnings@.len() == 0,
        e.steps@.len() == 0,
        e.error matches Some(x) && x.code@ == error_code(error.spec_kind()) && x.kind@ == error_kind_name(error.spec_kind())
            && x.message@ == error.spec_message(),
{
    with_cli_error(Envelope::err(command, duration_ms, data), error)
}

/// The data of an error raised before a command was dispatched: its message.
#[derive(Debug, Clone, PartialEq, Eq)]
pub struct ErrorMessageData {
    pub message: String,
}

/// The envelope of an error raised before a command was dispatched (such as
/// a missing configuration): failed, taking no time, with the error's
/// message as its data.
pub fn pre_dispatch_error_envelope(command: &str, error: &UseCaseError) -> (e: Envelope<ErrorMessageData>)
    ensures
        !e.ok,
        e.command@ == command@,
        e.duration_ms == 0,
        e.data.message@ == error.spec_message(),
        e.warnings@.len() == 0,
        e.steps@.len() == 0,
        e.error matches Some(x) && x.code@ == error_code(error.spec_kind()) && x.kind@ == error_kind_name(error.spec_kind())
            && x.message@ == error.spec_message(),
{
    let data = ErrorMessageData { message: String::from_str(error.message()) };
    failure_envelope(command, 0, data, error)
}

} // verus!
