use s3rm_rs::config::{Config, LogLevel, TracingConfig};
use s3rm_rs::error::S3rmError;
use s3rm_rs::safety::{check_before_deletion, confirmation_result, SafetyDecision};

fn make_config(dry_run: bool, force: bool, json_tracing: bool) -> Config {
    let mut config = Config::for_target("test-bucket", "");
    config.force = force;
    config.dry_run = dry_run;
    config.tracing_config = Some(TracingConfig {
        tracing_level: LogLevel::Info,
        json_tracing,
        aws_sdk_tracing: false,
        span_events_tracing: false,
        disable_color_tracing: false,
    });
    config
}

/// The safety check with an answer typed at the prompt, when one is asked.
fn check(config: &Config, interactive: bool, response: &str) -> Result<(), S3rmError> {
    match check_before_deletion(config, interactive) {
        SafetyDecision::Proceed => Ok(()),
        SafetyDecision::Refuse(e) => Err(e),
        SafetyDecision::AskConfirmation => confirmation_result(response),
    }
}

#[test]
fn property_48_non_interactive_with_force_or_dry_run_succeeds() {
    for (force, dry_run) in [(true, false), (false, true), (true, true)] {
        for json in [false, true] {
            assert!(check(&make_config(dry_run, force, json), false, "").is_ok());
        }
    }
}

#[test]
fn property_48_non_interactive_without_force_errors() {
    for json in [false, true] {
        let err = check(&make_config(false, false, json), false, "").unwrap_err();
        assert!(matches!(err, S3rmError::InvalidConfig(_)));
    }
}

#[test]
fn property_48_interactive_env_does_prompt() {
    for response in ["", "no", "YES", "y", "yes please"] {
        let err = check(&make_config(false, false, false), true, response).unwrap_err();
        assert_eq!(err, S3rmError::Cancelled);
    }
    assert!(check(&make_config(false, false, false), true, "  yes\n").is_ok());
}

#[test]
fn property_48_non_interactive_no_tracing_config_errors() {
    let mut config = make_config(false, false, false);
    config.tracing_config = None;
    assert!(check(&config, false, "").is_err());
}

#[test]
fn property_48_non_interactive_no_tracing_config_with_force_succeeds() {
    let mut config = make_config(false, true, false);
    config.tracing_config = None;
    assert!(check(&config, false, "").is_ok());
}

#[test]
fn property_48_json_logging_without_force_errors() {
    let config = make_config(false, false, true);
    assert!(check(&config, true, "no").is_err());
}

#[test]
fn property_48_json_logging_with_force_succeeds() {
    let config = make_config(false, true, true);
    assert!(check(&config, true, "no").is_ok());
}
