use s3rm_rs::config::{Config, FilterConfig, ForceRetryConfig};
use s3rm_rs::deleter::batch::{BatchDeleter, BatchRequest, DeletedEntry, ErrorEntry};
use s3rm_rs::deleter::format::Tag;
use s3rm_rs::deleter::object_deleter::{
    is_not_found_error, DeleterAction, DeleterStep, DeletionPlan, FailedCall, HeadOutcome, ObjectDeleter,
    TaggingOutcome,
};
use s3rm_rs::deleter::single::SingleDeleter;
use s3rm_rs::deleter::DeleteResult;
use s3rm_rs::event::{DELETE_COMPLETE, DELETE_FAILED, DELETE_FILTERED, DELETE_WARNING};
use s3rm_rs::regex::FilterRegex;
use s3rm_rs::types::{DeletionStatistics, ObjectEntry, ObjectVersionEntry, S3Object, Timestamp};

fn object(key: &str, size: i64) -> S3Object {
    S3Object::NotVersioning(ObjectEntry {
        key: key.to_string(),
        size,
        last_modified: Timestamp::from_secs(1_700_000_000),
        e_tag: Some(format!("etag-{key}")),
    })
}

fn version(key: &str, version_id: &str) -> S3Object {
    S3Object::Versioning(ObjectVersionEntry {
        key: key.to_string(),
        version_id: Some(version_id.to_string()),
        size: 7,
        last_modified: Timestamp::from_secs(0),
        e_tag: None,
        is_latest: Some(false),
    })
}

fn objects(n: usize) -> Vec<S3Object> {
    (0..n).map(|i| object(&format!("key/{i}"), 100)).collect()
}

fn error_entry(key: &str, code: &str) -> ErrorEntry {
    ErrorEntry { key: Some(key.to_string()), version_id: None, code: Some(code.to_string()), message: Some("m".to_string()) }
}

/// Runs a batch deletion against a simulated S3: `DeleteObjects` fails the
/// keys of `batch_errors` with their code; single deletions of a key fail
/// while `single_failures` lists it (each failure consumed once).
fn run_batch(
    objs: Vec<S3Object>,
    batch_size: u16,
    if_match: bool,
    retry: ForceRetryConfig,
    batch_errors: &[(&str, &str)],
    single_failures: &mut Vec<String>,
) -> (DeleteResult, Vec<Vec<(String, Option<String>)>>, Vec<(String, Option<String>, u64)>, Vec<DeletionStatistics>) {
    let mut run = BatchDeleter::new().start(objs, batch_size, if_match, retry);
    let mut batches = Vec::new();
    let mut singles = Vec::new();
    let mut stats = Vec::new();
    loop {
        match run.next_request() {
            BatchRequest::DeleteObjects(ids) => {
                batches.push(ids.iter().map(|i| (i.key.clone(), i.e_tag.clone())).collect::<Vec<_>>());
                let mut deleted = Vec::new();
                let mut errors = Vec::new();
                for id in &ids {
                    match batch_errors.iter().find(|(k, _)| *k == id.key) {
                        Some((k, code)) => errors.push(error_entry(k, code)),
                        None => deleted.push(DeletedEntry { key: Some(id.key.clone()), version_id: id.version_id.clone() }),
                    }
                }
                run.on_delete_objects(&deleted, &errors);
            },
            BatchRequest::DeleteObject { key, if_match, delay_milliseconds, .. } => {
                singles.push((key.clone(), if_match, delay_milliseconds));
                let failed = match single_failures.iter().position(|k| *k == key) {
                    Some(p) => {
                        single_failures.remove(p);
                        true
                    },
                    None => false,
                };
                run.on_delete_object(!failed);
            },
            BatchRequest::SendStats(s) => stats.push(s),
            BatchRequest::Done => break,
        }
    }
    (run.into_result(), batches, singles, stats)
}

#[test]
fn batch_deleter_empty_list() {
    let (result, batches, _, _) = run_batch(vec![], 200, false, ForceRetryConfig::default(), &[], &mut vec![]);
    assert!(result.deleted.is_empty());
    assert!(result.failed.is_empty());
    assert!(batches.is_empty());
}

#[test]
fn batch_deletion_of_one_object_sends_one_request_carrying_it() {
    let (result, batches, singles, _) =
        run_batch(vec![object("test/key.txt", 1024)], 200, false, ForceRetryConfig::default(), &[], &mut vec![]);
    assert_eq!(batches, vec![vec![("test/key.txt".to_string(), None)]]);
    assert!(singles.is_empty());
    assert_eq!(result.deleted.len(), 1);
    assert_eq!(result.deleted[0].key, "test/key.txt");
}

#[test]
fn batch_deleter_respects_batch_size_config() {
    let (result, batches, _, _) = run_batch(objects(5), 2, false, ForceRetryConfig::default(), &[], &mut vec![]);
    assert_eq!(result.deleted.len(), 5);
    assert_eq!(batches.iter().map(|b| b.len()).collect::<Vec<_>>(), vec![2, 2, 1]);
}

#[test]
fn batch_deleter_max_batch_size_enforced() {
    let (result, batches, _, _) = run_batch(objects(2500), 2000, false, ForceRetryConfig::default(), &[], &mut vec![]);
    assert_eq!(result.deleted.len(), 2500);
    assert_eq!(batches.iter().map(|b| b.len()).collect::<Vec<_>>(), vec![1000, 1000, 500]);
}

#[test]
fn batch_deleter_partial_failure() {
    let (result, _, singles, stats) =
        run_batch(objects(4), 200, false, ForceRetryConfig::default(), &[("key/1", "AccessDenied")], &mut vec![]);
    assert_eq!(result.deleted.len(), 3);
    assert_eq!(result.failed.len(), 1);
    assert_eq!(result.failed[0].key, "key/1");
    assert_eq!(result.failed[0].error_code, "AccessDenied");
    assert!(singles.is_empty());
    assert!(matches!(&stats[..], [DeletionStatistics::DeleteError { key }] if key == "key/1"));
}

#[test]
fn batch_deleter_includes_etag_when_if_match() {
    let (_, batches, _, _) = run_batch(objects(2), 200, true, ForceRetryConfig::default(), &[], &mut vec![]);
    assert_eq!(batches[0][0].1.as_deref(), Some("etag-key/0"));
    let (_, batches, _, _) = run_batch(objects(2), 200, false, ForceRetryConfig::default(), &[], &mut vec![]);
    assert!(batches[0][0].1.is_none());
}

#[test]
fn batch_deleter_retryable_error_falls_back_to_single() {
    let (result, _, singles, _) =
        run_batch(objects(3), 200, true, ForceRetryConfig::default(), &[("key/2", "SlowDown")], &mut vec![]);
    assert_eq!(result.deleted.len(), 3);
    assert!(result.failed.is_empty());
    assert_eq!(singles, vec![("key/2".to_string(), Some("etag-key/2".to_string()), 0)]);
}

#[test]
fn batch_deleter_retryable_fallback_exhausted() {
    let retry = ForceRetryConfig { force_retry_count: 2, force_retry_interval_milliseconds: 50 };
    let mut failures = vec!["key/0".to_string(); 3];
    let (result, _, singles, stats) = run_batch(objects(1), 200, false, retry, &[("key/0", "InternalError")], &mut failures);
    assert!(result.deleted.is_empty());
    assert_eq!(result.failed.len(), 1);
    assert_eq!(singles.iter().map(|s| s.2).collect::<Vec<_>>(), vec![0, 50, 50]);
    assert_eq!(stats.len(), 1);
}

#[test]
fn batch_deleter_retryable_fallback_succeeds_on_second_attempt() {
    let retry = ForceRetryConfig { force_retry_count: 3, force_retry_interval_milliseconds: 10 };
    let mut failures = vec!["key/0".to_string()];
    let (result, _, singles, _) = run_batch(objects(1), 200, false, retry, &[("key/0", "ServiceUnavailable")], &mut failures);
    assert_eq!(result.deleted.len(), 1);
    assert_eq!(singles.len(), 2);
}

#[test]
fn batch_deleter_mixed_retryable_non_retryable() {
    let (result, _, singles, _) = run_batch(
        objects(3),
        200,
        false,
        ForceRetryConfig::default(),
        &[("key/0", "AccessDenied"), ("key/1", "RequestTimeout")],
        &mut vec![],
    );
    assert_eq!(result.deleted.len(), 2);
    assert_eq!(result.failed.len(), 1);
    assert_eq!(singles.len(), 1);
}

#[test]
fn single_deleter_single_object() {
    let deleter = SingleDeleter::new();
    let objects = vec![object("key/a", 100)];
    let request = deleter.request(&objects, false);
    assert_eq!(request.key, "key/a");
    let result = deleter.on_response(request, Ok(())).result.unwrap();
    assert_eq!(result.deleted.len(), 1);
    assert_eq!(result.deleted[0].key, "key/a");
}

#[test]
fn single_deleter_keeps_the_version_id() {
    let deleter = SingleDeleter::new();
    let objs = vec![version("k", "v1")];
    let request = deleter.request(&objs, true);
    assert_eq!(request.key, "k");
    assert_eq!(request.version_id.as_deref(), Some("v1"));
    assert!(request.if_match.is_none());
    let outcome = deleter.on_response(request, Ok(()));
    assert!(outcome.stats.is_none());
    let result = outcome.result.unwrap();
    assert_eq!(result.deleted.len(), 1);
    assert_eq!(result.deleted[0].version_id.as_deref(), Some("v1"));
}

#[test]
fn single_deleter_includes_etag_when_if_match() {
    let deleter = SingleDeleter::new();
    let objs = vec![object("k", 1)];
    assert_eq!(deleter.request(&objs, true).if_match.as_deref(), Some("etag-k"));
    assert!(deleter.request(&objs, false).if_match.is_none());
}

#[test]
fn single_deleter_returns_error_on_failure() {
    let deleter = SingleDeleter::new();
    let objects = vec![object("key/fail", 200)];
    let request = deleter.request(&objects, false);
    assert_eq!(request.key, "key/fail");
    let outcome = deleter.on_response(request, Err("AccessDenied".to_string()));
    assert!(outcome.result.is_err());
    assert_eq!(outcome.result.unwrap_err(), "AccessDenied");
    assert!(matches!(outcome.stats, Some(DeletionStatistics::DeleteError { ref key }) if key == "key/fail"));
}

fn deleter_with(config: Config, registered: bool) -> ObjectDeleter {
    ObjectDeleter::new(config, registered)
}

#[test]
fn object_deleter_no_head_without_filters() {
    let mut config = Config::default();
    config.batch_size = 2;
    let mut d = deleter_with(config, false);
    assert!(matches!(d.process_object(object("a", 1), 1), DeleterStep::Buffered { flush: false }));
    assert!(matches!(d.process_object(object("b", 1), 2), DeleterStep::Buffered { flush: true }));
    let batch = d.take_batch(false).unwrap();
    assert_eq!(batch.len(), 2);
    assert!(d.take_batch(false).is_none());
}

#[test]
fn object_deleter_max_delete_threshold() {
    let mut config = Config::default();
    config.max_delete = Some(1);
    let mut d = deleter_with(config, false);
    assert!(matches!(d.process_object(object("a", 1), 1), DeleterStep::Buffered { .. }));
    match d.process_object(object("b", 1), 2) {
        DeleterStep::MaxDeleteReached { stats, warning } => {
            assert!(matches!(stats, DeletionStatistics::DeleteWarning { ref key } if key == "b"));
            assert_eq!(warning.event_type, DELETE_WARNING);
            assert_eq!(
                warning.message.as_deref(),
                Some("--max-delete has been reached. delete operation has been cancelled.")
            );
        },
        other => panic!("unexpected step {other:?}"),
    }
}

#[test]
fn object_deleter_cancellation() {
    let mut d = deleter_with(Config::default(), false);
    d.process_object(object("a", 1), 1);
    assert!(d.take_batch(true).is_none());
    assert_eq!(d.take_batch(false).unwrap().len(), 1);
}

fn with_filters(filter_config: FilterConfig) -> Config {
    let mut config = Config::default();
    config.filter_config = filter_config;
    config
}

#[test]
fn object_deleter_content_type_include_filter() {
    let fc = FilterConfig { include_content_type_regex: Some(FilterRegex::new("^text/").unwrap()), ..Default::default() };
    let mut d = deleter_with(with_filters(fc), true);
    assert!(matches!(d.process_object(object("a", 1), 1), DeleterStep::HeadObject { ref key, .. } if key == "a"));
    let step = d.after_head_object(HeadOutcome::Found { content_type: Some("image/png".to_string()), metadata: None });
    match step {
        DeleterStep::Skipped { stats: DeletionStatistics::DeleteSkip { key }, event: Some(e) } => {
            assert_eq!(key, "a");
            assert_eq!(e.event_type, DELETE_FILTERED);
            assert_eq!(e.message.as_deref(), Some("Object filtered by include_content_type_regex_filter"));
        },
        other => panic!("unexpected step {other:?}"),
    }
    d.process_object(object("b", 1), 2);
    let step = d.after_head_object(HeadOutcome::Found { content_type: Some("text/plain".to_string()), metadata: None });
    assert!(matches!(step, DeleterStep::Buffered { .. }));
}

#[test]
fn object_deleter_content_type_exclude_filter() {
    let fc = FilterConfig { exclude_content_type_regex: Some(FilterRegex::new("^text/").unwrap()), ..Default::default() };
    let mut d = deleter_with(with_filters(fc), false);
    d.process_object(object("a", 1), 1);
    let step = d.after_head_object(HeadOutcome::Found { content_type: Some("text/plain".to_string()), metadata: None });
    assert!(matches!(step, DeleterStep::Skipped { event: None, .. }));
    d.process_object(object("b", 1), 2);
    let step = d.after_head_object(HeadOutcome::Found { content_type: None, metadata: None });
    assert!(matches!(step, DeleterStep::Buffered { .. }));
}

#[test]
fn object_deleter_metadata_include_filter() {
    let fc = FilterConfig { include_metadata_regex: Some(FilterRegex::new("^a=1,b=x%20y$").unwrap()), ..Default::default() };
    let mut d = deleter_with(with_filters(fc), false);
    d.process_object(object("a", 1), 1);
    let metadata = vec![("b".to_string(), "x y".to_string()), ("a".to_string(), "1".to_string())];
    let step = d.after_head_object(HeadOutcome::Found { content_type: None, metadata: Some(metadata) });
    assert!(matches!(step, DeleterStep::Buffered { .. }));
    d.process_object(object("c", 1), 2);
    let step = d.after_head_object(HeadOutcome::Found { content_type: None, metadata: Some(Vec::new()) });
    assert!(matches!(step, DeleterStep::Skipped { .. }));
}

#[test]
fn object_deleter_tag_include_filter() {
    let fc = FilterConfig { include_tag_regex: Some(FilterRegex::new("env=prod").unwrap()), ..Default::default() };
    let mut d = deleter_with(with_filters(fc), false);
    assert!(matches!(d.process_object(object("a", 1), 1), DeleterStep::GetObjectTagging { .. }));
    let tags = vec![Tag { key: "env".to_string(), value: "prod".to_string() }];
    assert!(matches!(d.after_get_object_tagging(TaggingOutcome::Found(tags)), DeleterStep::Buffered { .. }));
    d.process_object(object("b", 1), 2);
    assert!(matches!(d.after_get_object_tagging(TaggingOutcome::Found(Vec::new())), DeleterStep::Skipped { .. }));
}

#[test]
fn object_deleter_tag_exclude_filter() {
    let fc = FilterConfig { exclude_tag_regex: Some(FilterRegex::new("keep=true").unwrap()), ..Default::default() };
    let mut d = deleter_with(with_filters(fc), false);
    d.process_object(object("a", 1), 1);
    let tags = vec![Tag { key: "keep".to_string(), value: "true".to_string() }];
    assert!(matches!(d.after_get_object_tagging(TaggingOutcome::Found(tags)), DeleterStep::Skipped { .. }));
}

#[test]
fn object_deleter_filter_combination_and_logic() {
    let fc = FilterConfig {
        include_content_type_regex: Some(FilterRegex::new("^text/").unwrap()),
        include_tag_regex: Some(FilterRegex::new("env=prod").unwrap()),
        ..Default::default()
    };
    let mut d = deleter_with(with_filters(fc), false);
    d.process_object(object("a", 1), 1);
    let step = d.after_head_object(HeadOutcome::Found { content_type: Some("text/plain".to_string()), metadata: None });
    assert!(matches!(step, DeleterStep::GetObjectTagging { ref key, .. } if key == "a"));
    let tags = vec![Tag { key: "env".to_string(), value: "dev".to_string() }];
    assert!(matches!(d.after_get_object_tagging(TaggingOutcome::Found(tags)), DeleterStep::Skipped { .. }));
}

#[test]
fn object_deleter_head_not_found_and_failure() {
    let fc = FilterConfig { include_content_type_regex: Some(FilterRegex::new(".*").unwrap()), ..Default::default() };
    let mut d = deleter_with(with_filters(fc), true);
    d.process_object(object("gone", 1), 1);
    assert!(matches!(d.after_head_object(HeadOutcome::NotFound), DeleterStep::Skipped { event: None, .. }));
    d.process_object(object("bad", 1), 2);
    match d.after_head_object(HeadOutcome::Failed) {
        DeleterStep::Failed { message } => assert_eq!(message, "head_object failed for key: bad"),
        other => panic!("unexpected step {other:?}"),
    }
}

#[test]
fn object_deleter_regex_runtime_failure_is_reported() {
    let fc = FilterConfig {
        include_content_type_regex: Some(FilterRegex::with_backtrack_limit(r"(a+)\1b", 1).unwrap()),
        ..Default::default()
    };
    let mut d = deleter_with(with_filters(fc), false);
    d.process_object(object("a", 1), 1);
    let step = d.after_head_object(HeadOutcome::Found { content_type: Some("aaaaaaaaaaaaaaac".to_string()), metadata: None });
    assert!(matches!(step, DeleterStep::RegexFailed { ref filter_name } if filter_name == "include_content_type_regex_filter"));
}

#[test]
fn object_deleter_dry_run_skips_api_calls() {
    let mut config = Config::default();
    config.dry_run = true;
    config.batch_size = 1000;
    let d = deleter_with(config, true);
    let batch = vec![object("dry-run/file1.txt", 100), object("dry-run/file2.txt", 200), object("dry-run/file3.txt", 300)];
    let result = match d.plan_deletion(&batch) {
        DeletionPlan::DryRun(result) => result,
        DeletionPlan::Batch(_) | DeletionPlan::Single(_) => panic!("a dry run makes no deletion call"),
    };
    assert_eq!(result.deleted.len(), 3);
    assert!(result.failed.is_empty());
    let actions = d.finish_batch(&batch, &result);
    let mut deleted_objects = 0;
    let mut deleted_bytes = 0;
    let mut failed_objects = 0;
    let mut forwarded = Vec::new();
    let mut completions = 0;
    for action in &actions {
        match action {
            DeleterAction::AddDeleted(size) => {
                deleted_objects += 1;
                deleted_bytes += size;
            },
            DeleterAction::AddFailed => failed_objects += 1,
            DeleterAction::TriggerEvent(e) if e.event_type == DELETE_COMPLETE => {
                completions += 1;
                assert!(e.dry_run);
            },
            DeleterAction::Forward(o) => forwarded.push(o.key().to_string()),
            _ => {},
        }
    }
    assert_eq!((deleted_objects, deleted_bytes, failed_objects, completions), (3, 600, 0, 3));
    assert_eq!(forwarded, vec!["dry-run/file1.txt", "dry-run/file2.txt", "dry-run/file3.txt"]);
}

#[test]
fn deletion_plan_follows_the_batch_size() {
    let mut config = Config::default();
    config.batch_size = 1;
    config.if_match = true;
    let d = deleter_with(config, false);
    match d.plan_deletion(&vec![object("key/a", 100)]) {
        DeletionPlan::Single(request) => {
            assert_eq!(request.key, "key/a");
            assert_eq!(request.if_match.as_deref(), Some("etag-key/a"));
        },
        _ => panic!("batch size 1 deletes with DeleteObject"),
    }
    let d = deleter_with(Config::default(), false);
    match d.plan_deletion(&vec![object("key/a", 100), object("key/b", 100)]) {
        DeletionPlan::Batch(mut run) => match run.next_request() {
            BatchRequest::DeleteObjects(ids) => assert_eq!(ids.len(), 2),
            other => panic!("unexpected request {other:?}"),
        },
        _ => panic!("batch size 200 deletes with DeleteObjects"),
    }
}

#[test]
fn failed_delete_objects_call_fails_the_deletion() {
    let mut run = BatchDeleter::new().start(objects(3), 2, false, ForceRetryConfig::default());
    match run.next_request() {
        BatchRequest::DeleteObjects(ids) => assert_eq!(ids.len(), 2),
        other => panic!("unexpected request {other:?}"),
    }
    let result = run.on_delete_objects_error("connection reset".to_string());
    assert_eq!(result.unwrap_err(), "connection reset");
}

#[test]
fn warn_as_error_true_failure_cancels_pipeline() {
    let mut config = Config::default();
    config.warn_as_error = true;
    let d = deleter_with(config, false);
    let batch = vec![object("a", 10)];
    let result = DeleteResult {
        deleted: Vec::new(),
        failed: vec![s3rm_rs::deleter::FailedKey {
            key: "a".to_string(),
            version_id: None,
            error_code: "AccessDenied".to_string(),
            error_message: "denied".to_string(),
        }],
    };
    let actions = d.finish_batch(&batch, &result);
    assert_eq!(actions.len(), 3 + 2);
    match &actions[2] {
        DeleterAction::TriggerEvent(e) => {
            assert_eq!(e.event_type, DELETE_FAILED);
            assert_eq!(e.error_message.as_deref(), Some("AccessDenied: denied"));
        },
        other => panic!("unexpected action {other:?}"),
    }
    assert!(matches!(actions[3], DeleterAction::SetWarning));
    assert!(matches!(actions[4], DeleterAction::Cancel));
}

#[test]
fn warn_as_error_false_failure_sets_warning_but_continues() {
    let d = deleter_with(Config::default(), false);
    let batch = vec![object("a", 10)];
    let result = DeleteResult {
        deleted: Vec::new(),
        failed: vec![s3rm_rs::deleter::FailedKey {
            key: "a".to_string(),
            version_id: None,
            error_code: "AccessDenied".to_string(),
            error_message: "denied".to_string(),
        }],
    };
    let actions = d.finish_batch(&batch, &result);
    assert!(matches!(actions[3], DeleterAction::SetWarning));
    assert!(matches!(actions[4], DeleterAction::Forward(_)));
}

#[test]
fn deleted_size_comes_from_last_matching_object() {
    let d = deleter_with(Config::default(), false);
    let batch = vec![object("a", 10), object("a", 20)];
    let result = DeleteResult {
        deleted: vec![s3rm_rs::deleter::DeletedKey { key: "a".to_string(), version_id: None }],
        failed: Vec::new(),
    };
    let actions = d.finish_batch(&batch, &result);
    assert!(matches!(actions[0], DeleterAction::AddDeleted(20)));
    let unknown = DeleteResult {
        deleted: vec![s3rm_rs::deleter::DeletedKey { key: "zzz".to_string(), version_id: None }],
        failed: Vec::new(),
    };
    let actions = d.finish_batch(&batch, &unknown);
    assert!(matches!(actions[0], DeleterAction::AddDeleted(0)));
}

#[test]
fn batch_size_one_uses_single_deletion() {
    let mut config = Config::default();
    config.batch_size = 1;
    let d = deleter_with(config, false);
    assert!(!d.uses_batch_deletion());
    assert!(deleter_with(Config::default(), false).uses_batch_deletion());
}

#[test]
fn not_found_errors_are_recognised() {
    assert!(is_not_found_error(&FailedCall::HeadObject { not_found: true }));
    assert!(!is_not_found_error(&FailedCall::HeadObject { not_found: false }));
    assert!(is_not_found_error(&FailedCall::GetObjectTagging { code: Some("NoSuchKey".to_string()), status: 400 }));
    assert!(is_not_found_error(&FailedCall::GetObjectTagging { code: None, status: 404 }));
    assert!(!is_not_found_error(&FailedCall::GetObjectTagging { code: Some("AccessDenied".to_string()), status: 403 }));
    assert!(!is_not_found_error(&FailedCall::Other));
}
