use s3rm_rs::config::{Config, LogLevel, TracingConfig};
use s3rm_rs::indicator::IndicatorSummary;
use s3rm_rs::lister::{ListingRequest, ObjectLister};
use s3rm_rs::types::DeletionStatistics;
use s3rm_rs::ui_config::{is_progress_indicator_needed, is_show_result_needed};

fn make_config(show_no_progress: bool, tracing_config: Option<TracingConfig>) -> Config {
    let mut config = Config::for_target("test-bucket", "");
    config.show_no_progress = show_no_progress;
    config.tracing_config = tracing_config;
    config
}

fn tracing(level: LogLevel, json_tracing: bool) -> Option<TracingConfig> {
    Some(TracingConfig {
        tracing_level: level,
        json_tracing,
        aws_sdk_tracing: false,
        span_events_tracing: false,
        disable_color_tracing: false,
    })
}

#[test]
fn progress_indicator_needed_default() {
    assert!(is_progress_indicator_needed(&make_config(false, None)));
}

#[test]
fn progress_indicator_suppressed_by_quiet_mode() {
    assert!(!is_progress_indicator_needed(&make_config(true, None)));
}

#[test]
fn progress_indicator_suppressed_by_json_tracing() {
    assert!(!is_progress_indicator_needed(&make_config(false, tracing(LogLevel::Warn, true))));
}

#[test]
fn progress_indicator_suppressed_by_high_verbosity() {
    assert!(!is_progress_indicator_needed(&make_config(false, tracing(LogLevel::Info, false))));
}

#[test]
fn progress_indicator_shown_at_warn_level() {
    assert!(is_progress_indicator_needed(&make_config(false, tracing(LogLevel::Warn, false))));
}

#[test]
fn show_result_needed_default() {
    assert!(is_show_result_needed(&make_config(false, None)));
}

#[test]
fn show_result_suppressed_by_quiet_mode() {
    assert!(!is_show_result_needed(&make_config(true, None)));
}

#[test]
fn show_result_suppressed_by_json_tracing() {
    assert!(!is_show_result_needed(&make_config(false, tracing(LogLevel::Warn, true))));
}

#[test]
fn show_result_shown_at_high_verbosity() {
    assert!(is_show_result_needed(&make_config(false, tracing(LogLevel::Info, false))));
}

#[test]
fn show_indicator_with_stats_completes() {
    let mut summary = IndicatorSummary::new();
    let stats = vec![
        DeletionStatistics::DeleteComplete { key: "test/obj1".to_string() },
        DeletionStatistics::DeleteBytes(1024),
        DeletionStatistics::DeleteError { key: "test/obj2".to_string() },
        DeletionStatistics::DeleteSkip { key: "test/obj3".to_string() },
        DeletionStatistics::DeleteWarning { key: "test/obj4".to_string() },
    ];
    for s in &stats {
        assert!(summary.can_record(s));
        summary.record(s);
    }
    assert_eq!(summary.total_delete_count, 1);
    assert_eq!(summary.total_delete_bytes, 1024);
    assert_eq!(summary.total_error_count, 1);
    assert_eq!(summary.total_skip_count, 1);
    assert_eq!(summary.total_warning_count, 1);
}

#[test]
fn show_indicator_empty_channel_completes() {
    let summary = IndicatorSummary::new();
    assert_eq!(summary.total_delete_count, 0);
    assert_eq!(summary.total_delete_bytes, 0);
    assert_eq!(summary.total_error_count, 0);
    assert_eq!(summary.total_skip_count, 0);
    assert_eq!(summary.total_warning_count, 0);
}

#[test]
fn list_target_dispatches_on_delete_all_versions() {
    let lister = ObjectLister::new();
    let mut config = Config::for_target("b", "");
    assert_eq!(lister.list_target(&config, 1000), ListingRequest::ListObjects { max_keys: 1000 });
    config.delete_all_versions = true;
    assert_eq!(lister.list_target(&config, 5), ListingRequest::ListObjectVersions { max_keys: 5 });
}
