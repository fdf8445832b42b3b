use v8_runner::support::error::AppError;
use v8_runner::use_cases::result::{UseCaseError, UseCaseErrorKind, UseCaseFailure};

#[test]
fn use_case_error_kinds_keep_stable_cli_exit_codes() {
    assert_eq!(UseCaseErrorKind::Validation.exit_code(), 2);
    assert_eq!(UseCaseErrorKind::Runtime.exit_code(), 3);
    assert_eq!(UseCaseErrorKind::Platform.exit_code(), 4);
}

#[test]
fn use_case_error_text_is_label_and_message() {
    let error = UseCaseError::from_app_error(AppError::Platform("no binary".to_owned()));
    assert_eq!(error.kind(), UseCaseErrorKind::Platform);
    assert_eq!(error.exit_code(), 4);
    assert_eq!(error.display_text(), "platform error: no binary");
    assert_eq!(UseCaseError::new(UseCaseErrorKind::Validation, "x".to_owned()).display_text(), "validation error: x");
}

#[test]
fn failures_carry_a_payload_only_when_asked() {
    let with = UseCaseFailure::with_payload(UseCaseError::new(UseCaseErrorKind::Runtime, "r".to_owned()), 5u32);
    assert_eq!(with.payload, Some(5));
    let without: UseCaseFailure<u32> = UseCaseFailure::without_payload(UseCaseError::new(UseCaseErrorKind::Runtime, "r".to_owned()));
    assert!(without.payload.is_none());
}
