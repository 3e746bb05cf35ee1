use s3rm_rs::config::{
    CLITimeoutConfig, Config, FilterConfig, ForceRetryConfig, LogLevel, RetryConfig, TracingConfig,
};
use s3rm_rs::types::StoragePath;

#[test]
fn retry_config_creation() {
    let retry_config = RetryConfig { aws_max_attempts: 3, initial_backoff_milliseconds: 100 };
    assert_eq!(retry_config.aws_max_attempts, 3);
    assert_eq!(retry_config.initial_backoff_milliseconds, 100);
}

#[test]
fn cli_timeout_config_creation() {
    let timeout_config = CLITimeoutConfig {
        operation_timeout_milliseconds: Some(30000),
        operation_attempt_timeout_milliseconds: Some(10000),
        connect_timeout_milliseconds: Some(5000),
        read_timeout_milliseconds: Some(5000),
    };
    assert_eq!(timeout_config.operation_timeout_milliseconds, Some(30000));
    assert_eq!(timeout_config.operation_attempt_timeout_milliseconds, Some(10000));
}

#[test]
fn cli_timeout_config_no_timeouts() {
    let timeout_config = CLITimeoutConfig {
        operation_timeout_milliseconds: None,
        operation_attempt_timeout_milliseconds: None,
        connect_timeout_milliseconds: None,
        read_timeout_milliseconds: None,
    };
    assert!(timeout_config.operation_timeout_milliseconds.is_none());
}

#[test]
fn tracing_config_creation() {
    let tracing_config = TracingConfig {
        tracing_level: LogLevel::Info,
        json_tracing: false,
        aws_sdk_tracing: false,
        span_events_tracing: false,
        disable_color_tracing: false,
    };
    assert_eq!(tracing_config.tracing_level, LogLevel::Info);
    assert!(!tracing_config.json_tracing);
}

#[test]
fn force_retry_config_creation() {
    let force_retry = ForceRetryConfig { force_retry_count: 3, force_retry_interval_milliseconds: 1000 };
    assert_eq!(force_retry.force_retry_count, 3);
    assert_eq!(force_retry.force_retry_interval_milliseconds, 1000);
}

#[test]
fn filter_config_default() {
    let filter_config = FilterConfig::default();
    assert!(filter_config.before_time.is_none());
    assert!(filter_config.after_time.is_none());
    assert!(filter_config.include_regex.is_none());
    assert!(filter_config.exclude_regex.is_none());
    assert!(filter_config.larger_size.is_none());
    assert!(filter_config.smaller_size.is_none());
}

#[test]
fn config_for_target_sets_bucket_and_prefix() {
    let config = Config::for_target("my-bucket", "logs/2024/");
    let StoragePath::S3 { bucket, prefix } = &config.target;
    assert_eq!(bucket, "my-bucket");
    assert_eq!(prefix, "logs/2024/");
}

#[test]
fn config_for_target_sets_force_true() {
    let config = Config::for_target("bucket", "prefix/");
    assert!(config.force);
}

#[test]
fn config_for_target_uses_default_worker_and_batch_size() {
    let config = Config::for_target("bucket", "");
    assert_eq!(config.worker_size, 24);
    assert_eq!(config.batch_size, 200);
}

#[test]
fn config_for_target_has_sensible_defaults() {
    let config = Config::for_target("bucket", "prefix/");
    assert!(!config.dry_run);
    assert!(!config.delete_all_versions);
    assert!(!config.if_match);
    assert!(config.max_delete.is_none());
    assert!(config.tracing_config.is_none());
    assert!(config.target_client_config.is_none());
    assert!(config.rate_limit_objects.is_none());
    assert!(!config.warn_as_error);
    assert!(!config.test_user_defined_callback);
}

#[test]
fn config_default_has_empty_target() {
    let config = Config::default();
    let StoragePath::S3 { bucket, prefix } = &config.target;
    assert!(bucket.is_empty());
    assert!(prefix.is_empty());
}

#[test]
fn config_default_does_not_set_force() {
    let config = Config::default();
    assert!(!config.force);
}

#[test]
fn config_default_field_values() {
    let config = Config::default();
    assert_eq!(config.worker_size, 24);
    assert_eq!(config.batch_size, 200);
    assert!(!config.show_no_progress);
    assert!(config.log_deletion_summary);
    assert!(!config.dry_run);
    assert!(!config.warn_as_error);
    assert_eq!(config.max_parallel_listings, 16);
    assert_eq!(config.object_listing_queue_size, 200_000);
    assert_eq!(config.max_parallel_listing_max_depth, 2);
    assert!(!config.allow_parallel_listings_in_express_one_zone);
    assert_eq!(config.max_keys, 1000);
    assert!(config.auto_complete_shell.is_none());
    assert!(config.event_callback_lua_script.is_none());
    assert!(config.filter_callback_lua_script.is_none());
    assert!(!config.allow_lua_os_library);
    assert!(!config.allow_lua_unsafe_vm);
    assert_eq!(config.lua_vm_memory_limit, 64 * 1024 * 1024);
    assert!(!config.if_match);
    assert!(!config.delete_all_versions);
}

#[test]
fn force_retry_config_default_values() {
    let frc = ForceRetryConfig::default();
    assert_eq!(frc.force_retry_count, 0);
    assert_eq!(frc.force_retry_interval_milliseconds, 1000);
}

#[test]
fn log_levels_are_ordered_by_verbosity() {
    assert!(LogLevel::Error.less_verbose_than(LogLevel::Warn));
    assert!(LogLevel::Warn.less_verbose_than(LogLevel::Info));
    assert!(LogLevel::Debug.less_verbose_than(LogLevel::Trace));
    assert!(!LogLevel::Info.less_verbose_than(LogLevel::Info));
    assert!(!LogLevel::Trace.less_verbose_than(LogLevel::Error));
}
