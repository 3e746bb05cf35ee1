//! Command-line arguments and their conversion into a configuration.
//!
//! The arguments are parsed (with their value checks) by the command-line
//! front end; `Config::try_from` turns checked arguments into a
//! configuration, and `Config::try_from_checked` does the same for
//! arguments whose values have not been checked.

use std::path::PathBuf;

use clap_complete::Shell;
use vstd::prelude::*;

use crate::config::value_parser::{
    byte_text_value, check_human_bytes, conversion_error_text, human_bytes_value, parse_human_bytes as parse_byte_count,
};
use crate::config::{
    regex_view, CLITimeoutConfig, ClientConfig, Config, FilterConfig, ForceRetryConfig, LogLevel, RequestChecksumCalculation,
    RequestPayer, RetryConfig, TracingConfig,
};
use crate::regex::{regex_new_error, FilterRegex};
use crate::text::{ends_with, has_prefix, has_suffix, starts_with};
use crate::time::UtcTime;
use crate::types::{clone_opt_string, AccessKeys, ClientConfigLocation, S3Credentials, StoragePath};

verus! {

/// The command-line arguments, as parsed by the command-line front end.
/// `log_level` is the level chosen by the verbosity flags (`-v`, `-q`),
/// `None` when logging is off.
#[derive(Debug)]
pub struct CLIArgs {
    pub target: String,
    pub dry_run: bool,
    pub force: bool,
    pub show_no_progress: bool,
    pub delete_all_versions: bool,
    pub batch_size: u16,
    pub max_delete: Option<u64>,
    pub filter_include_regex: Option<String>,
    pub filter_exclude_regex: Option<String>,
    pub filter_include_content_type_regex: Option<String>,
    pub filter_exclude_content_type_regex: Option<String>,
    pub filter_include_metadata_regex: Option<String>,
    pub filter_exclude_metadata_regex: Option<String>,
    pub filter_include_tag_regex: Option<String>,
    pub filter_exclude_tag_regex: Option<String>,
    pub filter_mtime_before: Option<UtcTime>,
    pub filter_mtime_after: Option<UtcTime>,
    pub filter_smaller_size: Option<String>,
    pub filter_larger_size: Option<String>,
    pub log_level: Option<LogLevel>,
    pub json_tracing: bool,
    pub aws_sdk_tracing: bool,
    pub span_events_tracing: bool,
    pub disable_color_tracing: bool,
    pub aws_config_file: Option<PathBuf>,
    pub aws_shared_credentials_file: Option<PathBuf>,
    pub target_profile: Option<String>,
    pub target_access_key: Option<String>,
    pub target_secret_access_key: Option<String>,
    pub target_session_token: Option<String>,
    pub target_region: Option<String>,
    pub target_endpoint_url: Option<String>,
    pub target_force_path_style: bool,
    pub target_accelerate: bool,
    pub target_request_payer: bool,
    pub disable_stalled_stream_protection: bool,
    pub worker_size: u16,
    pub max_parallel_listings: u16,
    pub max_parallel_listing_max_depth: u16,
    pub rate_limit_objects: Option<u32>,
    pub object_listing_queue_size: u32,
    pub allow_parallel_listings_in_express_one_zone: bool,
    pub aws_max_attempts: u32,
    pub initial_backoff_milliseconds: u64,
    pub force_retry_count: u32,
    pub force_retry_interval_milliseconds: u64,
    pub operation_timeout_milliseconds: Option<u64>,
    pub operation_attempt_timeout_milliseconds: Option<u64>,
    pub connect_timeout_milliseconds: Option<u64>,
    pub read_timeout_milliseconds: Option<u64>,
    pub filter_callback_lua_script: Option<String>,
    pub event_callback_lua_script: Option<String>,
    pub allow_lua_os_library: bool,
    pub lua_vm_memory_limit: String,
    pub if_match: bool,
    pub warn_as_error: bool,
    pub max_keys: i32,
    pub auto_complete_shell: Option<Shell>,
    pub allow_lua_unsafe_vm: bool,
}

/// The error of a target that is not an S3 path.
pub open spec fn invalid_target_message() -> Seq<char> {
    "target must be an S3 path (e.g. s3://bucket/prefix)"@
}

/// A target of the form `s3://` followed by at least one character.
pub open spec fn is_s3_target(s: Seq<char>) -> bool {
    has_prefix(s, "s3://"@) && s.len() > 5
}

/// Checks the target argument: `s3://` followed by at least one
/// character. Returns the target unchanged.
pub fn check_s3_target(s: &str) -> (r: Result<String, String>)
    ensures
        is_s3_target(s@) ==> (r matches Ok(t) && t@ == s@),
        !is_s3_target(s@) ==> (r matches Err(m) && m@ == invalid_target_message()),
{
    if starts_with(s, "s3://") && s.unicode_len() > 5 {
        Ok(s.to_owned())
    } else {
        Err(String::from_str("target must be an S3 path (e.g. s3://bucket/prefix)"))
    }
}

/// The byte count of a human-readable size when it parses and fits in a
/// `usize`.
pub open spec fn usize_bytes_value(text: Seq<char>) -> Option<usize> {
    match human_bytes_value(text) {
        Some(n) => if n <= usize::MAX {
            Some(n as usize)
        } else {
            None
        },
        None => None,
    }
}

/// The byte count of a human-readable size as a `usize`.
pub fn parse_human_bytes(s: &str) -> (r: Result<usize, String>)
    ensures
        match usize_bytes_value(s@) {
            Some(n) => r == Ok::<usize, String>(n),
            None => r is Err,
        },
        byte_text_value(s@) matches Err(e) ==> (r matches Err(m) && m@ == e),
{
    match parse_byte_count(s) {
        Err(e) => Err(e),
        Ok(v) => match usize::try_from(v) {
            Ok(n) => Ok(n),
            Err(e) => Err(conversion_error_text(e)),
        },
    }
}

/// Whether a bucket is an S3 Express One Zone directory bucket (its name
/// ends with `--x-s3`).
pub fn is_express_onezone_storage(bucket: &str) -> (r: bool)
    ensures
        r == has_suffix(bucket@, "--x-s3"@),
{
    ends_with(bucket, "--x-s3")
}

/// No character of `s` before position `n` is a slash.
pub open spec fn slash_free(s: Seq<char>, n: int) -> bool {
    forall|k: int| 0 <= k < n ==> s[k] != '/'
}

/// Position `i` of `s` holds its first slash.
pub open spec fn is_first_slash(s: Seq<char>, i: int) -> bool {
    0 <= i < s.len() && s[i] == '/' && slash_free(s, i)
}

/// The bucket and prefix of an `s3://` target: what follows the scheme,
/// split at its first slash (the prefix is empty when there is none).
pub open spec fn target_bucket_prefix(target: Seq<char>) -> (Seq<char>, Seq<char>) {
    let rest = target.subrange(5, target.len() as int);
    if exists|i: int| is_first_slash(rest, i) {
        let i = choose|i: int| is_first_slash(rest, i);
        (rest.take(i), rest.subrange(i + 1, rest.len() as int))
    } else {
        (rest, Seq::empty())
    }
}

/// Splits an `s3://` target into bucket and prefix; the bucket must not be
/// empty.
pub fn parse_target(target: &str) -> (r: Result<StoragePath, String>)
    requires
        has_prefix(target@, "s3://"@),
    ensures
        target_bucket_prefix(target@).0.len() == 0 ==> (r matches Err(m) && m@ == invalid_target_message()),
        target_bucket_prefix(target@).0.len() > 0 ==> (r matches Ok(p) && p.parts() == target_bucket_prefix(
            target@,
        )),
{
    proof {
        reveal_strlit("s3://");
    }
    let ghost rest = target@.subrange(5, target@.len() as int);
    let n = target.unicode_len();
    let mut idx: usize = n;
    let mut i: usize = 5;
    while i < n
        invariant
            5 <= i <= n,
            n == target@.len(),
            rest == target@.subrange(5, n as int),
            idx == n || (5 <= idx < i && is_first_slash(rest, idx - 5)),
            idx == n ==> slash_free(rest, i - 5),
        decreases n - i,
    {
        if idx == n && target.get_char(i) == '/' {
            idx = i;
        }
        i = i + 1;
    }
    let bucket: &str;
    let prefix: &str;
    if idx < n {
        proof {
            assert forall|j: int| is_first_slash(rest, j) implies j == idx - 5 by {
                if j < idx - 5 {
                    assert(rest[j] != '/');
                } else if j > idx - 5 {
                    assert(rest[idx - 5] != '/');
                }
            }
            assert(is_first_slash(rest, idx - 5));
        }
        bucket = target.substring_char(5, idx);
        prefix = target.substring_char(idx + 1, n);
        proof {
            assert(bucket@ =~= rest.take(idx - 5));
            assert(prefix@ =~= rest.subrange(idx - 5 + 1, rest.len() as int));
        }
    } else {
        proof {
            assert(!exists|j: int| is_first_slash(rest, j));
        }
        bucket = target.substring_char(5, n);
        prefix = "";
        proof {
            reveal_strlit("");
        }
    }
    if bucket.unicode_len() == 0 {
        return Err(String::from_str("target must be an S3 path (e.g. s3://bucket/prefix)"));
    }
    Ok(StoragePath::S3 { bucket: bucket.to_owned(), prefix: prefix.to_owned() })
}

/// The regex of an optional pattern: compiled with default options.
pub open spec fn pattern_view(p: Option<String>) -> Option<(Seq<char>, Option<usize>)> {
    match p {
        Some(s) => Some((s@, None)),
        None => None,
    }
}

/// The compile error of an optional pattern, `None` when there is no
/// pattern or it compiles.
pub open spec fn pattern_error(p: Option<String>) -> Option<Seq<char>> {
    match p {
        Some(s) => regex_new_error(s@),
        None => None,
    }
}

/// The first of two optional errors.
pub open spec fn first_error(a: Option<Seq<char>>, b: Option<Seq<char>>) -> Option<Seq<char>> {
    if a is Some {
        a
    } else {
        b
    }
}

/// The compile error of the first filter pattern that does not compile, in
/// the order of the options: key, content type, metadata, tag; include
/// before exclude.
pub open spec fn first_pattern_error(a: CLIArgs) -> Option<Seq<char>> {
    first_error(
        pattern_error(a.filter_include_regex),
        first_error(
            pattern_error(a.filter_exclude_regex),
            first_error(
                pattern_error(a.filter_include_content_type_regex),
                first_error(
                    pattern_error(a.filter_exclude_content_type_regex),
                    first_error(
                        pattern_error(a.filter_include_metadata_regex),
                        first_error(
                            pattern_error(a.filter_exclude_metadata_regex),
                            first_error(
                                pattern_error(a.filter_include_tag_regex),
                                pattern_error(a.filter_exclude_tag_regex),
                            ),
                        ),
                    ),
                ),
            ),
        ),
    )
}

/// The start of the error of a filter pattern that does not compile.
pub open spec fn invalid_regex_prefix() -> Seq<char> {
    "Invalid regular expression: "@
}

/// The byte count of an optional size.
pub open spec fn size_view(s: Option<String>) -> Option<u64> {
    match s {
        Some(t) => Some(usize_bytes_value(t@).unwrap() as u64),
        None => None,
    }
}

/// An optional size parses and fits in a `usize`.
pub open spec fn size_parses(s: Option<String>) -> bool {
    s matches Some(t) ==> usize_bytes_value(t@) is Some
}

/// Compiles an optional pattern; a pattern that does not compile gives
/// `Invalid regular expression: ` and the compile error.
fn compile_pattern(p: &Option<String>) -> (r: Result<Option<FilterRegex>, String>)
    ensures
        match pattern_error(*p) {
            None => r matches Ok(re) && regex_view(re) == pattern_view(*p),
            Some(e) => r matches Err(m) && m@ == invalid_regex_prefix() + e,
        },
{
    match p {
        Some(s) => match FilterRegex::new(s.as_str()) {
            Ok(re) => Ok(Some(re)),
            Err(e) => {
                let mut message = String::from_str("Invalid regular expression: ");
                message.append(e.as_str());
                Err(message)
            },
        },
        None => Ok(None),
    }
}

/// The byte count of an optional size that parses.
fn size_of_text(s: &Option<String>) -> (r: Option<u64>)
    requires
        size_parses(*s),
    ensures
        r == size_view(*s),
{
    match s {
        Some(t) => {
            let n = parse_human_bytes(t.as_str());
            Some(n.unwrap() as u64)
        },
        None => None,
    }
}

impl CLIArgs {
    /// The values carry the checks of the command-line front end that
    /// `Config::try_from` does not repeat: a target that starts with
    /// `s3://`, and sizes that parse.
    pub open spec fn values_checked(&self) -> bool {
        &&& has_prefix(self.target@, "s3://"@)
        &&& size_parses(self.filter_smaller_size)
        &&& size_parses(self.filter_larger_size)
    }
}

impl FilterConfig {
    /// The filters given by the arguments.
    pub open spec fn from_args_spec(&self, a: CLIArgs) -> bool {
        &&& self.before_time == a.filter_mtime_before
        &&& self.after_time == a.filter_mtime_after
        &&& regex_view(self.include_regex) == pattern_view(a.filter_include_regex)
        &&& regex_view(self.exclude_regex) == pattern_view(a.filter_exclude_regex)
        &&& regex_view(self.include_content_type_regex) == pattern_view(a.filter_include_content_type_regex)
        &&& regex_view(self.exclude_content_type_regex) == pattern_view(a.filter_exclude_content_type_regex)
        &&& regex_view(self.include_metadata_regex) == pattern_view(a.filter_include_metadata_regex)
        &&& regex_view(self.exclude_metadata_regex) == pattern_view(a.filter_exclude_metadata_regex)
        &&& regex_view(self.include_tag_regex) == pattern_view(a.filter_include_tag_regex)
        &&& regex_view(self.exclude_tag_regex) == pattern_view(a.filter_exclude_tag_regex)
        &&& self.larger_size == size_view(a.filter_larger_size)
        &&& self.smaller_size == size_view(a.filter_smaller_size)
    }
}

/// Builds the filter configuration of checked arguments; fails with the
/// error of the first pattern that does not compile.
fn build_filter_config(a: &CLIArgs) -> (r: Result<FilterConfig, String>)
    requires
        a.values_checked(),
    ensures
        match first_pattern_error(*a) {
            None => r matches Ok(fc) && fc.from_args_spec(*a),
            Some(e) => r matches Err(m) && m@ == invalid_regex_prefix() + e,
        },
{
    let include_regex = match compile_pattern(&a.filter_include_regex) {
        Ok(re) => re,
        Err(e) => return Err(e),
    };
    let exclude_regex = match compile_pattern(&a.filter_exclude_regex) {
        Ok(re) => re,
        Err(e) => return Err(e),
    };
    let include_content_type_regex = match compile_pattern(&a.filter_include_content_type_regex) {
        Ok(re) => re,
        Err(e) => return Err(e),
    };
    let exclude_content_type_regex = match compile_pattern(&a.filter_exclude_content_type_regex) {
        Ok(re) => re,
        Err(e) => return Err(e),
    };
    let include_metadata_regex = match compile_pattern(&a.filter_include_metadata_regex) {
        Ok(re) => re,
        Err(e) => return Err(e),
    };
    let exclude_metadata_regex = match compile_pattern(&a.filter_exclude_metadata_regex) {
        Ok(re) => re,
        Err(e) => return Err(e),
    };
    let include_tag_regex = match compile_pattern(&a.filter_include_tag_regex) {
        Ok(re) => re,
        Err(e) => return Err(e),
    };
    let exclude_tag_regex = match compile_pattern(&a.filter_exclude_tag_regex) {
        Ok(re) => re,
        Err(e) => return Err(e),
    };
    Ok(
        FilterConfig {
            before_time: a.filter_mtime_before,
            after_time: a.filter_mtime_after,
            include_regex,
            exclude_regex,
            include_content_type_regex,
            exclude_content_type_regex,
            include_metadata_regex,
            exclude_metadata_regex,
            include_tag_regex,
            exclude_tag_regex,
            larger_size: size_of_text(&a.filter_larger_size),
            smaller_size: size_of_text(&a.filter_smaller_size),
        },
    )
}

/// The credentials chosen by the arguments: a profile when given, else the
/// access keys when given (a missing secret read as empty), else the
/// default provider chain.
pub open spec fn credential_from_args(c: S3Credentials, a: CLIArgs) -> bool {
    match a.target_profile {
        Some(p) => c == S3Credentials::Profile(p),
        None => match a.target_access_key {
            Some(k) => {
                &&& c matches S3Credentials::Credentials { access_keys }
                &&& access_keys.access_key == k
                &&& access_keys.secret_access_key@ == match a.target_secret_access_key {
                    Some(s) => s@,
                    None => Seq::empty(),
                }
                &&& access_keys.session_token == a.target_session_token
            },
            None => c is FromEnvironment,
        },
    }
}

/// The client configuration given by the arguments, with the given
/// configuration file locations.
pub open spec fn client_config_from_args(
    cc: ClientConfig,
    a: CLIArgs,
) -> bool {
    &&& cc.client_config_location.aws_config_file == a.aws_config_file
    &&& cc.client_config_location.aws_shared_credentials_file == a.aws_shared_credentials_file
    &&& credential_from_args(cc.credential, a)
    &&& cc.region == a.target_region
    &&& cc.endpoint_url == a.target_endpoint_url
    &&& cc.force_path_style == a.target_force_path_style
    &&& cc.accelerate == a.target_accelerate
    &&& cc.request_payer == if a.target_request_payer {
        Some(RequestPayer::Requester)
    } else {
        None
    }
    &&& cc.retry_config == RetryConfig {
        aws_max_attempts: a.aws_max_attempts,
        initial_backoff_milliseconds: a.initial_backoff_milliseconds,
    }
    &&& cc.cli_timeout_config == CLITimeoutConfig {
        operation_timeout_milliseconds: a.operation_timeout_milliseconds,
        operation_attempt_timeout_milliseconds: a.operation_attempt_timeout_milliseconds,
        connect_timeout_milliseconds: a.connect_timeout_milliseconds,
        read_timeout_milliseconds: a.read_timeout_milliseconds,
    }
    &&& cc.disable_stalled_stream_protection == a.disable_stalled_stream_protection
    &&& cc.request_checksum_calculation == RequestChecksumCalculation::WhenRequired
}

/// Chooses the credentials of the arguments.
fn build_credential(a: &CLIArgs) -> (r: S3Credentials)
    ensures
        credential_from_args(r, *a),
{
    match &a.target_profile {
        Some(p) => S3Credentials::Profile(p.clone()),
        None => match &a.target_access_key {
            Some(k) => {
                let secret = match &a.target_secret_access_key {
                    Some(s) => s.clone(),
                    None => String::new(),
                };
                S3Credentials::Credentials {
                    access_keys: AccessKeys {
                        access_key: k.clone(),
                        secret_access_key: secret,
                        session_token: clone_opt_string(&a.target_session_token),
                    },
                }
            },
            None => S3Credentials::FromEnvironment,
        },
    }
}

/// The tracing configuration of the verbosity and logging arguments: none
/// when logging is off, except in a dry run, which always logs at least at
/// the info level (with default formatting when logging was off).
pub open spec fn tracing_config_of(
    level: Option<LogLevel>,
    json_tracing: bool,
    aws_sdk_tracing: bool,
    span_events_tracing: bool,
    disable_color_tracing: bool,
    dry_run: bool,
) -> Option<TracingConfig> {
    match level {
        None => if dry_run {
            Some(
                TracingConfig {
                    tracing_level: LogLevel::Info,
                    json_tracing: false,
                    aws_sdk_tracing: false,
                    span_events_tracing: false,
                    disable_color_tracing: false,
                },
            )
        } else {
            None
        },
        Some(l) => Some(
            TracingConfig {
                tracing_level: if dry_run && l.rank() < LogLevel::Info.rank() {
                    LogLevel::Info
                } else {
                    l
                },
                json_tracing,
                aws_sdk_tracing,
                span_events_tracing,
                disable_color_tracing,
            },
        ),
    }
}

/// Builds the tracing configuration of the verbosity and logging arguments.
pub fn build_tracing_config(
    level: Option<LogLevel>,
    json_tracing: bool,
    aws_sdk_tracing: bool,
    span_events_tracing: bool,
    disable_color_tracing: bool,
    dry_run: bool,
) -> (r: Option<TracingConfig>)
    ensures
        r == tracing_config_of(level, json_tracing, aws_sdk_tracing, span_events_tracing, disable_color_tracing, dry_run),
{
    match level {
        None => if dry_run {
            Some(
                TracingConfig {
                    tracing_level: LogLevel::Info,
                    json_tracing: false,
                    aws_sdk_tracing: false,
                    span_events_tracing: false,
                    disable_color_tracing: false,
                },
            )
        } else {
            None
        },
        Some(l) => {
            let tracing_level = if dry_run && l.less_verbose_than(LogLevel::Info) {
                LogLevel::Info
            } else {
                l
            };
            Some(TracingConfig { tracing_level, json_tracing, aws_sdk_tracing, span_events_tracing, disable_color_tracing })
        },
    }
}

/// The error of a batch size of 0.
pub open spec fn batch_size_too_small_message() -> Seq<char> {
    "Batch size must be at least 1"@
}

/// The error of a batch size above 1000.
pub open spec fn batch_size_too_large_message() -> Seq<char> {
    "Batch size must be at most 1000"@
}

/// The error of a worker size of 0.
pub open spec fn worker_size_too_small_message() -> Seq<char> {
    "Worker size must be at least 1"@
}

/// The outcome of converting checked arguments into a configuration: the
/// first failing check gives its error, else the configuration.
pub open spec fn config_outcome(args: CLIArgs, r: Result<Config, String>) -> bool {
    let bucket = target_bucket_prefix(args.target@).0;
    if bucket.len() == 0 {
        r matches Err(m) && m@ == invalid_target_message()
    } else if args.batch_size == 0 {
        r matches Err(m) && m@ == batch_size_too_small_message()
    } else if args.batch_size > 1000 {
        r matches Err(m) && m@ == batch_size_too_large_message()
    } else if args.worker_size == 0 {
        r matches Err(m) && m@ == worker_size_too_small_message()
    } else if let Some(e) = first_pattern_error(args) {
        r matches Err(m) && m@ == invalid_regex_prefix() + e
    } else {
        match usize_bytes_value(args.lua_vm_memory_limit@) {
            Some(limit) => r matches Ok(c) && c.from_args_spec(args, limit),
            None => {
                &&& r matches Err(m)
                &&& has_prefix(m@, invalid_lua_limit_prefix())
                &&& byte_text_value(args.lua_vm_memory_limit@) matches Err(e) ==> m@ == invalid_lua_limit_prefix()
                    + e
            },
        }
    }
}

/// A sequence holding a slash has a first slash.
proof fn lemma_a_slash_has_a_first_slash(s: Seq<char>, k: int)
    requires
        0 <= k < s.len(),
        s[k] == '/',
    ensures
        exists|i: int| is_first_slash(s, i),
    decreases k,
{
    if slash_free(s, k) {
        assert(is_first_slash(s, k));
    } else {
        let j = choose|j: int| 0 <= j < k && s[j] == '/';
        lemma_a_slash_has_a_first_slash(s, j);
    }
}

/// Splitting a target: the bucket holds no slash and the target is
/// `s3://`, the bucket, then either nothing (and the prefix is empty) or a
/// slash followed by the prefix.
pub proof fn law_target_is_bucket_then_prefix(target: Seq<char>)
    requires
        has_prefix(target, "s3://"@),
    ensures
        ({
            let (bucket, prefix) = target_bucket_prefix(target);
            &&& forall|k: int| 0 <= k < bucket.len() ==> bucket[k] != '/'
            &&& (target == "s3://"@ + bucket + "/"@ + prefix || (prefix.len() == 0 && target == "s3://"@ + bucket))
        }),
{
    reveal_strlit("s3://");
    reveal_strlit("/");
    let rest = target.subrange(5, target.len() as int);
    assert(target =~= "s3://"@ + rest);
    if exists|i: int| is_first_slash(rest, i) {
        let i = choose|i: int| is_first_slash(rest, i);
        let bucket = rest.take(i);
        let prefix = rest.subrange(i + 1, rest.len() as int);
        assert(rest =~= bucket + "/"@ + prefix);
        assert(target =~= "s3://"@ + bucket + "/"@ + prefix);
    } else {
        assert forall|k: int| 0 <= k < rest.len() implies rest[k] != '/' by {
            if rest[k] == '/' {
                lemma_a_slash_has_a_first_slash(rest, k);
            }
        }
        assert(target =~= "s3://"@ + rest);
    }
}

/// A configuration converted from arguments takes each setting from its
/// own argument: the target's bucket and prefix, the two time bounds of the
/// modification-time filters (the "before" bound from
/// `--filter-mtime-before`, the "after" bound from `--filter-mtime-after`),
/// each regex filter compiled from its own pattern, each size filter from
/// its own size, the flags, the counts (a batch size between 1 and 1000 and
/// a worker size of at least 1), the logging level (at least `Info` in a dry
/// run), and the client settings.
pub proof fn law_config_takes_each_setting_from_its_argument(a: CLIArgs, c: Config)
    requires
        a.values_checked(),
        config_outcome(a, Ok::<Config, String>(c)),
    ensures
        ({
            let (bucket, prefix) = c.target.parts();
            &&& bucket.len() > 0
            &&& forall|k: int| 0 <= k < bucket.len() ==> bucket[k] != '/'
            &&& (a.target@ == "s3://"@ + bucket + "/"@ + prefix || (prefix.len() == 0 && a.target@ == "s3://"@
                + bucket))
        }),
        c.filter_config.before_time == a.filter_mtime_before,
        c.filter_config.after_time == a.filter_mtime_after,
        c.filter_config.include_regex is Some <==> a.filter_include_regex is Some,
        c.filter_config.include_regex matches Some(re) ==> re.pattern_spec() == a.filter_include_regex.unwrap()@
            && re.limit_spec() is None,
        c.filter_config.exclude_regex is Some <==> a.filter_exclude_regex is Some,
        c.filter_config.exclude_regex matches Some(re) ==> re.pattern_spec() == a.filter_exclude_regex.unwrap()@
            && re.limit_spec() is None,
        c.filter_config.include_content_type_regex is Some <==> a.filter_include_content_type_regex is Some,
        c.filter_config.include_content_type_regex matches Some(re) ==> re.pattern_spec()
            == a.filter_include_content_type_regex.unwrap()@,
        c.filter_config.exclude_content_type_regex is Some <==> a.filter_exclude_content_type_regex is Some,
        c.filter_config.exclude_content_type_regex matches Some(re) ==> re.pattern_spec()
            == a.filter_exclude_content_type_regex.unwrap()@,
        c.filter_config.include_metadata_regex is Some <==> a.filter_include_metadata_regex is Some,
        c.filter_config.include_metadata_regex matches Some(re) ==> re.pattern_spec()
            == a.filter_include_metadata_regex.unwrap()@,
        c.filter_config.exclude_metadata_regex is Some <==> a.filter_exclude_metadata_regex is Some,
        c.filter_config.exclude_metadata_regex matches Some(re) ==> re.pattern_spec()
            == a.filter_exclude_metadata_regex.unwrap()@,
        c.filter_config.include_tag_regex is Some <==> a.filter_include_tag_regex is Some,
        c.filter_config.include_tag_regex matches Some(re) ==> re.pattern_spec()
            == a.filter_include_tag_regex.unwrap()@,
        c.filter_config.exclude_tag_regex is Some <==> a.filter_exclude_tag_regex is Some,
        c.filter_config.exclude_tag_regex matches Some(re) ==> re.pattern_spec()
            == a.filter_exclude_tag_regex.unwrap()@,
        c.filter_config.larger_size is Some <==> a.filter_larger_size is Some,
        c.filter_config.larger_size matches Some(n) ==> usize_bytes_value(a.filter_larger_size.unwrap()@) == Some(
            n as usize,
        ),
        c.filter_config.smaller_size is Some <==> a.filter_smaller_size is Some,
        c.filter_config.smaller_size matches Some(n) ==> usize_bytes_value(a.filter_smaller_size.unwrap()@) == Some(
            n as usize,
        ),
        c.dry_run == a.dry_run,
        c.force == a.force,
        c.delete_all_versions == a.delete_all_versions,
        c.if_match == a.if_match,
        c.warn_as_error == a.warn_as_error,
        c.max_delete == a.max_delete,
        c.max_keys == a.max_keys,
        c.worker_size == a.worker_size && c.worker_size >= 1,
        1 <= c.batch_size <= 1000,
        c.batch_size == a.batch_size || (c.batch_size == 1 && !a.allow_parallel_listings_in_express_one_zone),
        a.dry_run ==> (c.tracing_config matches Some(t) && t.tracing_level.rank() >= LogLevel::Info.rank()),
        !a.dry_run ==> (c.tracing_config is Some <==> a.log_level is Some),
        !a.dry_run ==> (c.tracing_config matches Some(t) ==> Some(t.tracing_level) == a.log_level),
        a.log_level is Some ==> (c.tracing_config matches Some(t) && t.json_tracing == a.json_tracing),
        usize_bytes_value(a.lua_vm_memory_limit@) == Some(c.lua_vm_memory_limit),
        c.filter_callback_lua_script == a.filter_callback_lua_script,
        c.event_callback_lua_script == a.event_callback_lua_script,
        c.target_client_config matches Some(cc) && cc.region == a.target_region && cc.endpoint_url
            == a.target_endpoint_url && cc.force_path_style == a.target_force_path_style && cc.accelerate
            == a.target_accelerate && (cc.request_payer is Some <==> a.target_request_payer),
{
    law_target_is_bucket_then_prefix(a.target@);
}

/// The prefix of the error of an invalid Lua VM memory limit.
pub open spec fn invalid_lua_limit_prefix() -> Seq<char> {
    "Invalid lua-vm-memory-limit: "@
}

impl Config {
    /// The configuration given by checked arguments, the Lua VM memory limit
    /// being `lua_vm_memory_limit`: the target split into bucket and prefix,
    /// a batch size of 1 for an Express One Zone bucket unless parallel
    /// listings are allowed there, and every other setting as given.
    pub open spec fn from_args_spec(&self, a: CLIArgs, lua_vm_memory_limit: usize) -> bool {
        let (bucket, prefix) = target_bucket_prefix(a.target@);
        &&& self.target.parts() == (bucket, prefix)
        &&& self.show_no_progress == a.show_no_progress
        &&& self.log_deletion_summary
        &&& self.target_client_config matches Some(cc) && client_config_from_args(cc, a)
        &&& self.force_retry_config == ForceRetryConfig {
            force_retry_count: a.force_retry_count,
            force_retry_interval_milliseconds: a.force_retry_interval_milliseconds,
        }
        &&& self.tracing_config == tracing_config_of(
            a.log_level,
            a.json_tracing,
            a.aws_sdk_tracing,
            a.span_events_tracing,
            a.disable_color_tracing,
            a.dry_run,
        )
        &&& self.worker_size == a.worker_size
        &&& self.warn_as_error == a.warn_as_error
        &&& self.dry_run == a.dry_run
        &&& self.rate_limit_objects == a.rate_limit_objects
        &&& self.max_parallel_listings == a.max_parallel_listings
        &&& self.object_listing_queue_size == a.object_listing_queue_size
        &&& self.max_parallel_listing_max_depth == a.max_parallel_listing_max_depth
        &&& self.allow_parallel_listings_in_express_one_zone == a.allow_parallel_listings_in_express_one_zone
        &&& self.filter_config.from_args_spec(a)
        &&& self.max_keys == a.max_keys
        &&& self.auto_complete_shell == a.auto_complete_shell
        &&& self.event_callback_lua_script == a.event_callback_lua_script
        &&& self.filter_callback_lua_script == a.filter_callback_lua_script
        &&& self.allow_lua_os_library == a.allow_lua_os_library
        &&& self.allow_lua_unsafe_vm == a.allow_lua_unsafe_vm
        &&& self.lua_vm_memory_limit == lua_vm_memory_limit
        &&& self.if_match == a.if_match
        &&& self.max_delete == a.max_delete
        &&& self.batch_size == if has_suffix(bucket, "--x-s3"@) && !a.allow_parallel_listings_in_express_one_zone {
            1
        } else {
            a.batch_size
        }
        &&& self.delete_all_versions == a.delete_all_versions
        &&& self.force == a.force
        &&& !self.test_user_defined_callback
    }

    /// Converts checked arguments into a configuration. Fails, in this
    /// order, when the bucket of the target is empty, when the batch size is
    /// 0 or above 1000, when the worker size is 0, when a filter pattern
    /// does not compile, or when the Lua VM memory limit is not a size that
    /// fits in a `usize`.
    pub fn try_from(args: CLIArgs) -> (r: Result<Config, String>)
        requires
            args.values_checked(),
        ensures
            config_outcome(args, r),
    {
        let target = match parse_target(args.target.as_str()) {
            Ok(t) => t,
            Err(e) => return Err(e),
        };
        if args.batch_size == 0 {
            return Err(String::from_str("Batch size must be at least 1"));
        }
        if args.batch_size > 1000 {
            return Err(String::from_str("Batch size must be at most 1000"));
        }
        if args.worker_size == 0 {
            return Err(String::from_str("Worker size must be at least 1"));
        }
        let filter_config = match build_filter_config(&args) {
            Ok(fc) => fc,
            Err(e) => return Err(e),
        };
        let lua_vm_memory_limit = match parse_human_bytes(args.lua_vm_memory_limit.as_str()) {
            Ok(n) => n,
            Err(e) => {
                let mut message = String::from_str("Invalid lua-vm-memory-limit: ");
                let ghost head = message@;
                message.append(e.as_str());
                proof {
                    assert(message@.subrange(0, head.len() as int) =~= head);
                }
                return Err(message);
            },
        };
        let credential = build_credential(&args);
        let tracing_config = build_tracing_config(
            args.log_level,
            args.json_tracing,
            args.aws_sdk_tracing,
            args.span_events_tracing,
            args.disable_color_tracing,
            args.dry_run,
        );
        let express = match &target {
            StoragePath::S3 { bucket, .. } => is_express_onezone_storage(bucket.as_str()),
        };
        let batch_size = if express && !args.allow_parallel_listings_in_express_one_zone {
            1
        } else {
            args.batch_size
        };
        let ghost a = args;
        let CLIArgs {
            target: _,
            dry_run,
            force,
            show_no_progress,
            delete_all_versions,
            batch_size: _,
            max_delete,
            filter_include_regex: _,
            filter_exclude_regex: _,
            filter_include_content_type_regex: _,
            filter_exclude_content_type_regex: _,
            filter_include_metadata_regex: _,
            filter_exclude_metadata_regex: _,
            filter_include_tag_regex: _,
            filter_exclude_tag_regex: _,
            filter_mtime_before: _,
            filter_mtime_after: _,
            filter_smaller_size: _,
            filter_larger_size: _,
            log_level: _,
            json_tracing: _,
            aws_sdk_tracing: _,
            span_events_tracing: _,
            disable_color_tracing: _,
            aws_config_file,
            aws_shared_credentials_file,
            target_profile: _,
            target_access_key: _,
            target_secret_access_key: _,
            target_session_token: _,
            target_region,
            target_endpoint_url,
            target_force_path_style,
            target_accelerate,
            target_request_payer,
            disable_stalled_stream_protection,
            worker_size,
            max_parallel_listings,
            max_parallel_listing_max_depth,
            rate_limit_objects,
            object_listing_queue_size,
            allow_parallel_listings_in_express_one_zone,
            aws_max_attempts,
            initial_backoff_milliseconds,
            force_retry_count,
            force_retry_interval_milliseconds,
            operation_timeout_milliseconds,
            operation_attempt_timeout_milliseconds,
            connect_timeout_milliseconds,
            read_timeout_milliseconds,
            filter_callback_lua_script,
            event_callback_lua_script,
            allow_lua_os_library,
            lua_vm_memory_limit: _,
            if_match,
            warn_as_error,
            max_keys,
            auto_complete_shell,
            allow_lua_unsafe_vm,
        } = args;
        let client_config = ClientConfig {
            client_config_location: ClientConfigLocation { aws_config_file, aws_shared_credentials_file },
            credential,
            region: target_region,
            endpoint_url: target_endpoint_url,
            force_path_style: target_force_path_style,
            accelerate: target_accelerate,
            request_payer: if target_request_payer {
                Some(RequestPayer::Requester)
            } else {
                None
            },
            retry_config: RetryConfig { aws_max_attempts, initial_backoff_milliseconds },
            cli_timeout_config: CLITimeoutConfig {
                operation_timeout_milliseconds,
                operation_attempt_timeout_milliseconds,
                connect_timeout_milliseconds,
                read_timeout_milliseconds,
            },
            disable_stalled_stream_protection,
            request_checksum_calculation: RequestChecksumCalculation::WhenRequired,
        };
        let config = Config {
            target,
            show_no_progress,
            log_deletion_summary: true,
            target_client_config: Some(client_config),
            force_retry_config: ForceRetryConfig { force_retry_count, force_retry_interval_milliseconds },
            tracing_config,
            worker_size,
            warn_as_error,
            dry_run,
            rate_limit_objects,
            max_parallel_listings,
            object_listing_queue_size,
            max_parallel_listing_max_depth,
            allow_parallel_listings_in_express_one_zone,
            filter_config,
            max_keys,
            auto_complete_shell,
            event_callback_lua_script,
            filter_callback_lua_script,
            allow_lua_os_library,
            allow_lua_unsafe_vm,
            lua_vm_memory_limit,
            if_match,
            max_delete,
            batch_size,
            delete_all_versions,
            force,
            test_user_defined_callback: false,
        };
        Ok(config)
    }

    /// Converts arguments whose values may not have been checked: `None`
    /// when the target does not start with `s3://` or a size fails the
    /// check of the command-line front end, else the outcome of
    /// `Config::try_from`.
    pub fn try_from_checked(args: CLIArgs) -> (r: Option<Result<Config, String>>)
        ensures
            r is Some <==> args.values_checked(),
            r matches Some(res) ==> config_outcome(args, res),
    {
        if !starts_with(args.target.as_str(), "s3://") {
            return None;
        }
        if !size_ok(&args.filter_smaller_size) || !size_ok(&args.filter_larger_size) {
            return None;
        }
        Some(Config::try_from(args))
    }
}

/// Decides whether an optional size parses and fits in a `usize`.
fn size_ok(s: &Option<String>) -> (r: bool)
    ensures
        r == size_parses(*s),
{
    match s {
        Some(t) => parse_human_bytes(t.as_str()).is_ok(),
        None => true,
    }
}

} // verus!
