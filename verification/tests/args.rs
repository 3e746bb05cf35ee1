use s3rm_rs::config::args::{
    build_tracing_config, check_s3_target, is_express_onezone_storage, parse_human_bytes, parse_target, CLIArgs,
};
use s3rm_rs::config::{Config, LogLevel, RequestChecksumCalculation, RequestPayer};
use s3rm_rs::types::{S3Credentials, StoragePath};

/// The arguments of `s3rm <target>` with every option at its default.
fn args(target: &str) -> CLIArgs {
    CLIArgs {
        target: target.to_string(),
        dry_run: false,
        force: false,
        show_no_progress: false,
        delete_all_versions: false,
        batch_size: 200,
        max_delete: None,
        filter_include_regex: None,
        filter_exclude_regex: None,
        filter_include_content_type_regex: None,
        filter_exclude_content_type_regex: None,
        filter_include_metadata_regex: None,
        filter_exclude_metadata_regex: None,
        filter_include_tag_regex: None,
        filter_exclude_tag_regex: None,
        filter_mtime_before: None,
        filter_mtime_after: None,
        filter_smaller_size: None,
        filter_larger_size: None,
        log_level: Some(LogLevel::Warn),
        json_tracing: false,
        aws_sdk_tracing: false,
        span_events_tracing: false,
        disable_color_tracing: false,
        aws_config_file: None,
        aws_shared_credentials_file: None,
        target_profile: None,
        target_access_key: None,
        target_secret_access_key: None,
        target_session_token: None,
        target_region: None,
        target_endpoint_url: None,
        target_force_path_style: false,
        target_accelerate: false,
        target_request_payer: false,
        disable_stalled_stream_protection: false,
        worker_size: 24,
        max_parallel_listings: 16,
        max_parallel_listing_max_depth: 2,
        rate_limit_objects: None,
        object_listing_queue_size: 200000,
        allow_parallel_listings_in_express_one_zone: false,
        aws_max_attempts: 10,
        initial_backoff_milliseconds: 100,
        force_retry_count: 0,
        force_retry_interval_milliseconds: 1000,
        operation_timeout_milliseconds: None,
        operation_attempt_timeout_milliseconds: None,
        connect_timeout_milliseconds: None,
        read_timeout_milliseconds: None,
        filter_callback_lua_script: None,
        event_callback_lua_script: None,
        allow_lua_os_library: false,
        lua_vm_memory_limit: "64MiB".to_string(),
        if_match: false,
        warn_as_error: false,
        max_keys: 1000,
        auto_complete_shell: None,
        allow_lua_unsafe_vm: false,
    }
}

fn bucket_prefix(config: &Config) -> (String, String) {
    let StoragePath::S3 { bucket, prefix } = &config.target;
    (bucket.clone(), prefix.clone())
}

#[test]
fn config_from_default_valued_args() {
    let config = Config::try_from(args("s3://my-bucket/prefix/")).unwrap();
    assert_eq!(bucket_prefix(&config), ("my-bucket".to_string(), "prefix/".to_string()));
    assert!(!config.dry_run);
    assert!(!config.force);
    assert_eq!(config.batch_size, 200);
    assert_eq!(config.worker_size, 24);
    assert!(config.log_deletion_summary);
    assert_eq!(config.lua_vm_memory_limit, 64 * 1024 * 1024);
}

#[test]
fn config_from_full_args() {
    let mut a = args("s3://bucket/logs/");
    a.dry_run = true;
    a.force = true;
    a.batch_size = 500;
    a.worker_size = 50;
    a.delete_all_versions = true;
    a.max_delete = Some(10000);
    a.if_match = true;
    a.filter_include_regex = Some(".*\\.log$".to_string());
    a.filter_larger_size = Some("1KiB".to_string());
    let config = Config::try_from(a).unwrap();
    assert!(config.dry_run);
    assert!(config.force);
    assert_eq!(config.batch_size, 500);
    assert_eq!(config.worker_size, 50);
    assert!(config.delete_all_versions);
    assert_eq!(config.max_delete, Some(10000));
    assert!(config.if_match);
    assert_eq!(config.filter_config.include_regex.as_ref().unwrap().as_str(), ".*\\.log$");
    assert_eq!(config.filter_config.larger_size, Some(1024));
}

#[test]
fn config_express_onezone_defaults_batch_to_1() {
    let config = Config::try_from(args("s3://my-bucket--x-s3/prefix/")).unwrap();
    assert_eq!(config.batch_size, 1);
}

#[test]
fn config_express_onezone_with_parallel_listings_keeps_batch_size() {
    let mut a = args("s3://my-bucket--x-s3/prefix/");
    a.allow_parallel_listings_in_express_one_zone = true;
    a.batch_size = 1000;
    let config = Config::try_from(a).unwrap();
    assert_eq!(config.batch_size, 1000);
}

#[test]
fn config_tracing_config_none_when_silent() {
    let mut a = args("s3://bucket/");
    a.log_level = None;
    let config = Config::try_from(a).unwrap();
    assert!(config.tracing_config.is_none());
}

#[test]
fn config_tracing_config_info_with_verbose() {
    let mut a = args("s3://bucket/");
    a.log_level = Some(LogLevel::Info);
    let config = Config::try_from(a).unwrap();
    assert_eq!(config.tracing_config.unwrap().tracing_level, LogLevel::Info);
}

#[test]
fn config_tracing_config_trace_with_very_verbose() {
    let mut a = args("s3://bucket/");
    a.log_level = Some(LogLevel::Trace);
    let config = Config::try_from(a).unwrap();
    assert_eq!(config.tracing_config.unwrap().tracing_level, LogLevel::Trace);
}

#[test]
fn dry_run_raises_quiet_logging_to_info() {
    let t = build_tracing_config(Some(LogLevel::Warn), true, false, false, false, true).unwrap();
    assert_eq!(t.tracing_level, LogLevel::Info);
    assert!(t.json_tracing);
    let t = build_tracing_config(None, true, true, true, true, true).unwrap();
    assert_eq!(t.tracing_level, LogLevel::Info);
    assert!(!t.json_tracing);
    assert!(build_tracing_config(None, false, false, false, false, false).is_none());
    let t = build_tracing_config(Some(LogLevel::Debug), false, false, false, false, true).unwrap();
    assert_eq!(t.tracing_level, LogLevel::Debug);
}

#[test]
fn config_target_client_config_from_profile() {
    let mut a = args("s3://bucket/");
    a.target_profile = Some("myprofile".to_string());
    let config = Config::try_from(a).unwrap();
    let client_config = config.target_client_config.unwrap();
    assert!(matches!(client_config.credential, S3Credentials::Profile(ref p) if p == "myprofile"));
}

#[test]
fn config_target_client_config_from_access_keys() {
    let mut a = args("s3://bucket/");
    a.target_access_key = Some("AKIA...".to_string());
    a.target_secret_access_key = Some("secret123".to_string());
    let config = Config::try_from(a).unwrap();
    let client_config = config.target_client_config.unwrap();
    match client_config.credential {
        S3Credentials::Credentials { access_keys } => {
            assert_eq!(access_keys.access_key, "AKIA...");
            assert_eq!(access_keys.secret_access_key, "secret123");
            assert!(access_keys.session_token.is_none());
        },
        other => panic!("unexpected credential {other:?}"),
    }
}

#[test]
fn config_target_client_config_from_environment() {
    let config = Config::try_from(args("s3://bucket/")).unwrap();
    let client_config = config.target_client_config.unwrap();
    assert!(matches!(client_config.credential, S3Credentials::FromEnvironment));
    assert_eq!(client_config.request_checksum_calculation, RequestChecksumCalculation::WhenRequired);
    assert!(client_config.request_payer.is_none());
}

#[test]
fn config_request_payer_and_endpoint() {
    let mut a = args("s3://bucket/");
    a.target_request_payer = true;
    a.target_endpoint_url = Some("https://example.com".to_string());
    a.aws_max_attempts = 3;
    let config = Config::try_from(a).unwrap();
    let client_config = config.target_client_config.unwrap();
    assert_eq!(client_config.request_payer, Some(RequestPayer::Requester));
    assert_eq!(client_config.endpoint_url.as_deref(), Some("https://example.com"));
    assert_eq!(client_config.retry_config.aws_max_attempts, 3);
}

#[test]
fn config_rejects_empty_bucket() {
    let result = Config::try_from(args("s3:///prefix"));
    assert_eq!(result.unwrap_err(), "target must be an S3 path (e.g. s3://bucket/prefix)");
}

#[test]
fn config_validates_batch_size_zero() {
    let mut a = args("s3://bucket/");
    a.batch_size = 0;
    let result = Config::try_from(a);
    assert!(result.is_err());
    assert!(result.unwrap_err().contains("Batch size must be at least 1"));
}

#[test]
fn config_validates_batch_size_too_large() {
    let mut a = args("s3://bucket/");
    a.batch_size = 1001;
    let result = Config::try_from(a);
    assert!(result.is_err());
    assert!(result.unwrap_err().contains("Batch size must be at most 1000"));
}

#[test]
fn config_validates_worker_size_zero() {
    let mut a = args("s3://bucket/");
    a.worker_size = 0;
    let result = Config::try_from(a);
    assert!(result.is_err());
    assert!(result.unwrap_err().contains("Worker size must be at least 1"));
}

#[test]
fn config_validates_invalid_regex() {
    let mut a = args("s3://bucket/");
    a.filter_include_regex = Some("[invalid".to_string());
    let result = Config::try_from(a);
    assert!(result.is_err());
    assert!(result.unwrap_err().contains("Invalid regular expression"));
}

#[test]
fn config_reports_the_first_failing_check() {
    let mut a = args("s3:///prefix/");
    a.batch_size = 0;
    assert_eq!(Config::try_from(a).unwrap_err(), "target must be an S3 path (e.g. s3://bucket/prefix)");
    let mut a = args("s3://bucket/");
    a.batch_size = 0;
    a.worker_size = 0;
    assert_eq!(Config::try_from(a).unwrap_err(), "Batch size must be at least 1");
    let mut a = args("s3://bucket/");
    a.worker_size = 0;
    a.filter_exclude_tag_regex = Some("(".to_string());
    assert_eq!(Config::try_from(a).unwrap_err(), "Worker size must be at least 1");
    let mut a = args("s3://bucket/");
    a.filter_exclude_regex = Some("ok".to_string());
    a.filter_exclude_tag_regex = Some("(".to_string());
    a.lua_vm_memory_limit = "lots".to_string();
    assert!(Config::try_from(a).unwrap_err().starts_with("Invalid regular expression: "));
    let mut a = args("s3://bucket/");
    a.batch_size = 1000;
    assert_eq!(Config::try_from(a).unwrap().batch_size, 1000);
    let mut a = args("s3://bucket/");
    a.batch_size = 1;
    a.worker_size = 1;
    let config = Config::try_from(a).unwrap();
    assert_eq!((config.batch_size, config.worker_size), (1, 1));
}

#[test]
fn config_rejects_invalid_lua_memory_limit() {
    let mut a = args("s3://bucket/");
    a.lua_vm_memory_limit = "lots".to_string();
    let message = Config::try_from(a).unwrap_err();
    assert!(message.starts_with("Invalid lua-vm-memory-limit: "));
}

#[test]
fn try_from_checked_refuses_unchecked_values() {
    let mut a = args("s3://bucket/");
    a.filter_include_regex = Some("[invalid".to_string());
    assert!(Config::try_from_checked(a).unwrap().unwrap_err().starts_with("Invalid regular expression: "));
    assert!(Config::try_from_checked(args("gs://bucket/")).is_none());
    let mut a = args("s3://bucket/");
    a.filter_smaller_size = Some("5Zib".to_string());
    assert!(Config::try_from_checked(a).is_none());
    assert!(Config::try_from_checked(args("s3://bucket/")).unwrap().is_ok());
}

#[test]
fn parse_human_bytes_mib() {
    assert_eq!(parse_human_bytes("64MiB").unwrap(), 64 * 1024 * 1024);
}

#[test]
fn parse_human_bytes_gib() {
    assert_eq!(parse_human_bytes("1GiB").unwrap(), 1024 * 1024 * 1024);
}

#[test]
fn parse_human_bytes_kib() {
    assert_eq!(parse_human_bytes("512KiB").unwrap(), 512 * 1024);
}

#[test]
fn parse_human_bytes_plain() {
    assert_eq!(parse_human_bytes("1000").unwrap(), 1000);
}

#[test]
fn parse_human_bytes_invalid() {
    assert!(parse_human_bytes("abc").is_err());
}

#[test]
fn check_s3_target_accepts_and_rejects() {
    assert_eq!(check_s3_target("s3://b").unwrap(), "s3://b");
    assert!(check_s3_target("s3://").is_err());
    assert_eq!(
        check_s3_target("https://b").unwrap_err(),
        "target must be an S3 path (e.g. s3://bucket/prefix)"
    );
}

#[test]
fn parse_target_splits_at_first_slash() {
    let StoragePath::S3 { bucket, prefix } = parse_target("s3://bucket/a/b/c").unwrap();
    assert_eq!(bucket, "bucket");
    assert_eq!(prefix, "a/b/c");
    let StoragePath::S3 { bucket, prefix } = parse_target("s3://bucket").unwrap();
    assert_eq!(bucket, "bucket");
    assert_eq!(prefix, "");
    let StoragePath::S3 { bucket, prefix } = parse_target("s3://bücket/präfix").unwrap();
    assert_eq!(bucket, "bücket");
    assert_eq!(prefix, "präfix");
}

#[test]
fn parse_target_rejects_an_empty_bucket() {
    assert_eq!(parse_target("s3://").unwrap_err(), "target must be an S3 path (e.g. s3://bucket/prefix)");
    assert_eq!(parse_target("s3:///a").unwrap_err(), "target must be an S3 path (e.g. s3://bucket/prefix)");
    assert_eq!(Config::try_from(args("s3://")).unwrap_err(), "target must be an S3 path (e.g. s3://bucket/prefix)");
}

#[test]
fn test_s3_uri_with_deep_prefix_path() {
    let config = Config::try_from(args("s3://my-bucket/a/b/c/d/e/f/g/")).unwrap();
    assert_eq!(bucket_prefix(&config), ("my-bucket".to_string(), "a/b/c/d/e/f/g/".to_string()));
}

#[test]
fn test_s3_uri_with_special_chars_in_prefix() {
    let config = Config::try_from(args("s3://my-bucket/path with spaces/file.txt")).unwrap();
    assert_eq!(bucket_prefix(&config).1, "path with spaces/file.txt");
}

#[test]
fn express_onezone_suffix() {
    assert!(is_express_onezone_storage("my-bucket--x-s3"));
    assert!(!is_express_onezone_storage("my-bucket"));
}
