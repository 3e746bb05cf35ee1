use s3rm_rs::deleter::batch::MAX_BATCH_SIZE;
use s3rm_rs::error::{errors_exit_code, exit_code_from_error, is_cancelled_error, S3rmError};
use s3rm_rs::token::create_pipeline_cancellation_token;

#[test]
fn max_batch_size_is_1000() {
    assert_eq!(MAX_BATCH_SIZE, 1000);
}

#[test]
fn library_crate_loads() {
    assert!(true);
}

#[test]
fn create_cancellation_token_from_root() {
    let token = create_pipeline_cancellation_token();
    assert!(!token.is_cancelled());
}

#[test]
fn error_helpers_accessible() {
    let err = S3rmError::Cancelled;
    assert!(is_cancelled_error(Some(&err)));
    assert_eq!(exit_code_from_error(Some(&err)), 0);
}

#[test]
fn error_exit_codes_are_well_defined() {
    let msg = "m".to_string();
    let cases = vec![
        (S3rmError::AwsSdk(msg.clone()), 1),
        (S3rmError::InvalidConfig(msg.clone()), 2),
        (S3rmError::InvalidUri(msg.clone()), 2),
        (S3rmError::InvalidRegex(msg.clone()), 2),
        (S3rmError::LuaScript(msg.clone()), 1),
        (S3rmError::Io(msg.clone()), 1),
        (S3rmError::Cancelled, 0),
        (S3rmError::PartialFailure { deleted: 5, failed: 2 }, 3),
        (S3rmError::Pipeline(msg), 1),
    ];
    for (error, expected) in cases {
        assert_eq!(error.exit_code(), expected);
    }
}

#[test]
fn foreign_errors_exit_with_one() {
    assert_eq!(exit_code_from_error(None), 1);
    assert!(!is_cancelled_error(None));
}

#[test]
fn run_exit_code_takes_the_highest_code() {
    let errors = vec![
        Some(S3rmError::Pipeline("p".to_string())),
        Some(S3rmError::PartialFailure { deleted: 1, failed: 1 }),
        None,
    ];
    assert_eq!(errors_exit_code(&errors), Some(3));
    assert_eq!(errors_exit_code(&vec![None]), Some(1));
    let cancelled = vec![Some(S3rmError::InvalidConfig("c".to_string())), Some(S3rmError::Cancelled)];
    assert_eq!(errors_exit_code(&cancelled), None);
}
