//! Configuration of the deletion pipeline.

pub mod args;
pub mod value_parser;

use vstd::prelude::*;

use clap_complete::Shell;

use crate::regex::FilterRegex;
use crate::time::UtcTime;
use crate::types::{ClientConfigLocation, S3Credentials, StoragePath};

verus! {

/// Logging verbosity, from the least to the most verbose.
#[derive(Clone, Copy, Debug, PartialEq, Eq, Structural)]
pub enum LogLevel {
    Error,
    Warn,
    Info,
    Debug,
    Trace,
}

impl LogLevel {
    /// The position of the level from the least verbose (1) to the most
    /// verbose (5).
    pub open spec fn rank(self) -> int {
        match self {
            LogLevel::Error => 1,
            LogLevel::Warn => 2,
            LogLevel::Info => 3,
            LogLevel::Debug => 4,
            LogLevel::Trace => 5,
        }
    }

    /// Decides whether `self` is less verbose than `other`.
    pub fn less_verbose_than(self, other: LogLevel) -> (r: bool)
        ensures
            r == (self.rank() < other.rank()),
    {
        let a: u8 = match self {
            LogLevel::Error => 1,
            LogLevel::Warn => 2,
            LogLevel::Info => 3,
            LogLevel::Debug => 4,
            LogLevel::Trace => 5,
        };
        let b: u8 = match other {
            LogLevel::Error => 1,
            LogLevel::Warn => 2,
            LogLevel::Info => 3,
            LogLevel::Debug => 4,
            LogLevel::Trace => 5,
        };
        a < b
    }
}

/// Retry configuration for AWS SDK operations.
#[derive(Clone, Copy, Debug)]
pub struct RetryConfig {
    pub aws_max_attempts: u32,
    pub initial_backoff_milliseconds: u64,
}

/// Timeout configuration for AWS SDK operations.
#[derive(Clone, Copy, Debug)]
pub struct CLITimeoutConfig {
    pub operation_timeout_milliseconds: Option<u64>,
    pub operation_attempt_timeout_milliseconds: Option<u64>,
    pub connect_timeout_milliseconds: Option<u64>,
    pub read_timeout_milliseconds: Option<u64>,
}

/// Tracing (logging) configuration.
#[derive(Clone, Copy, Debug)]
pub struct TracingConfig {
    pub tracing_level: LogLevel,
    pub json_tracing: bool,
    pub aws_sdk_tracing: bool,
    pub span_events_tracing: bool,
    pub disable_color_tracing: bool,
}

/// Application-level retries of single-object deletions, on top of the AWS
/// SDK's own retries.
#[derive(Clone, Copy, Debug)]
pub struct ForceRetryConfig {
    pub force_retry_count: u32,
    pub force_retry_interval_milliseconds: u64,
}

impl Default for ForceRetryConfig {
    fn default() -> (r: Self)
        ensures
            r.force_retry_count == 0,
            r.force_retry_interval_milliseconds == 1000,
    {
        ForceRetryConfig { force_retry_count: 0, force_retry_interval_milliseconds: 1000 }
    }
}

/// Filter configuration for object selection. Every filter is off when its
/// field is `None`.
#[derive(Debug)]
pub struct FilterConfig {
    pub before_time: Option<UtcTime>,
    pub after_time: Option<UtcTime>,
    pub include_regex: Option<FilterRegex>,
    pub exclude_regex: Option<FilterRegex>,
    pub include_content_type_regex: Option<FilterRegex>,
    pub exclude_content_type_regex: Option<FilterRegex>,
    pub include_metadata_regex: Option<FilterRegex>,
    pub exclude_metadata_regex: Option<FilterRegex>,
    pub include_tag_regex: Option<FilterRegex>,
    pub exclude_tag_regex: Option<FilterRegex>,
    pub larger_size: Option<u64>,
    pub smaller_size: Option<u64>,
}

/// The pattern and backtrack limit of an optional regex.
pub open spec fn regex_view(r: Option<FilterRegex>) -> Option<(Seq<char>, Option<usize>)> {
    match r {
        Some(re) => Some((re.pattern_spec(), re.limit_spec())),
        None => None,
    }
}

/// Copies an optional regex.
pub fn clone_opt_regex(r: &Option<FilterRegex>) -> (c: Option<FilterRegex>)
    ensures
        regex_view(c) == regex_view(*r),
{
    match r {
        Some(re) => Some(re.clone()),
        None => None,
    }
}

impl FilterConfig {
    /// Every filter is off.
    pub open spec fn is_empty(&self) -> bool {
        &&& self.before_time is None
        &&& self.after_time is None
        &&& self.include_regex is None
        &&& self.exclude_regex is None
        &&& self.include_content_type_regex is None
        &&& self.exclude_content_type_regex is None
        &&& self.include_metadata_regex is None
        &&& self.exclude_metadata_regex is None
        &&& self.include_tag_regex is None
        &&& self.exclude_tag_regex is None
        &&& self.larger_size is None
        &&& self.smaller_size is None
    }

    /// `self` and `other` describe the same filters.
    pub open spec fn same_as(&self, other: &FilterConfig) -> bool {
        &&& self.before_time == other.before_time
        &&& self.after_time == other.after_time
        &&& regex_view(self.include_regex) == regex_view(other.include_regex)
        &&& regex_view(self.exclude_regex) == regex_view(other.exclude_regex)
        &&& regex_view(self.include_content_type_regex) == regex_view(other.include_content_type_regex)
        &&& regex_view(self.exclude_content_type_regex) == regex_view(other.exclude_content_type_regex)
        &&& regex_view(self.include_metadata_regex) == regex_view(other.include_metadata_regex)
        &&& regex_view(self.exclude_metadata_regex) == regex_view(other.exclude_metadata_regex)
        &&& regex_view(self.include_tag_regex) == regex_view(other.include_tag_regex)
        &&& regex_view(self.exclude_tag_regex) == regex_view(other.exclude_tag_regex)
        &&& self.larger_size == other.larger_size
        &&& self.smaller_size == other.smaller_size
    }
}

impl Default for FilterConfig {
    fn default() -> (r: Self)
        ensures
            r.is_empty(),
    {
        FilterConfig {
            before_time: None,
            after_time: None,
            include_regex: None,
            exclude_regex: None,
            include_content_type_regex: None,
            exclude_content_type_regex: None,
            include_metadata_regex: None,
            exclude_metadata_regex: None,
            include_tag_regex: None,
            exclude_tag_regex: None,
            larger_size: None,
            smaller_size: None,
        }
    }
}

impl Clone for FilterConfig {
    fn clone(&self) -> (r: Self)
        ensures
            r.same_as(self),
    {
        FilterConfig {
            before_time: self.before_time,
            after_time: self.after_time,
            include_regex: clone_opt_regex(&self.include_regex),
            exclude_regex: clone_opt_regex(&self.exclude_regex),
            include_content_type_regex: clone_opt_regex(&self.include_content_type_regex),
            exclude_content_type_regex: clone_opt_regex(&self.exclude_content_type_regex),
            include_metadata_regex: clone_opt_regex(&self.include_metadata_regex),
            exclude_metadata_regex: clone_opt_regex(&self.exclude_metadata_regex),
            include_tag_regex: clone_opt_regex(&self.include_tag_regex),
            exclude_tag_regex: clone_opt_regex(&self.exclude_tag_regex),
            larger_size: self.larger_size,
            smaller_size: self.smaller_size,
        }
    }
}

#[verifier::external_type_specification]
#[verifier::external_body]
pub struct ExShell(Shell);

/// Who pays for the requests to the target bucket.
#[derive(Clone, Copy, Debug, PartialEq, Eq, Structural)]
pub enum RequestPayer {
    /// The requester pays (requester-pays buckets).
    Requester,
}

/// When the S3 client computes request checksums.
#[derive(Clone, Copy, Debug, PartialEq, Eq, Structural)]
pub enum RequestChecksumCalculation {
    WhenSupported,
    WhenRequired,
}

/// AWS S3 client configuration: credentials, region, endpoint, retries and
/// timeouts.
#[derive(Clone, Debug)]
pub struct ClientConfig {
    pub client_config_location: ClientConfigLocation,
    pub credential: S3Credentials,
    pub region: Option<String>,
    pub endpoint_url: Option<String>,
    pub force_path_style: bool,
    pub accelerate: bool,
    pub request_payer: Option<RequestPayer>,
    pub retry_config: RetryConfig,
    pub cli_timeout_config: CLITimeoutConfig,
    pub disable_stalled_stream_protection: bool,
    pub request_checksum_calculation: RequestChecksumCalculation,
}

/// Default number of concurrent deletion workers.
pub const DEFAULT_WORKER_SIZE: u16 = 24;

/// Default number of objects per deletion request.
pub const DEFAULT_BATCH_SIZE: u16 = 200;

/// Default memory limit of the Lua VM: 64 MiB.
pub const DEFAULT_LUA_VM_MEMORY_LIMIT: usize = 67108864;

/// Main configuration of the deletion pipeline: the target, the client,
/// the worker pool, the filters, the safety switches and the callback
/// scripts. The callbacks themselves are registered next to it by the
/// program that runs the pipeline.
#[derive(Clone, Debug)]
pub struct Config {
    pub target: StoragePath,
    pub show_no_progress: bool,
    pub log_deletion_summary: bool,
    pub target_client_config: Option<ClientConfig>,
    pub force_retry_config: ForceRetryConfig,
    pub tracing_config: Option<TracingConfig>,
    pub worker_size: u16,
    pub warn_as_error: bool,
    pub dry_run: bool,
    pub rate_limit_objects: Option<u32>,
    pub max_parallel_listings: u16,
    pub object_listing_queue_size: u32,
    pub max_parallel_listing_max_depth: u16,
    pub allow_parallel_listings_in_express_one_zone: bool,
    pub filter_config: FilterConfig,
    pub max_keys: i32,
    pub auto_complete_shell: Option<Shell>,
    pub event_callback_lua_script: Option<String>,
    pub filter_callback_lua_script: Option<String>,
    pub allow_lua_os_library: bool,
    pub allow_lua_unsafe_vm: bool,
    pub lua_vm_memory_limit: usize,
    pub if_match: bool,
    pub max_delete: Option<u64>,
    pub batch_size: u16,
    pub delete_all_versions: bool,
    pub force: bool,
    pub test_user_defined_callback: bool,
}

impl Config {
    /// Every setting but the target and `force` has its default value.
    pub open spec fn has_default_settings(&self) -> bool {
        &&& !self.show_no_progress
        &&& self.log_deletion_summary
        &&& self.target_client_config is None
        &&& self.force_retry_config.force_retry_count == 0
        &&& self.force_retry_config.force_retry_interval_milliseconds == 1000
        &&& self.tracing_config is None
        &&& self.worker_size == DEFAULT_WORKER_SIZE
        &&& !self.warn_as_error
        &&& !self.dry_run
        &&& self.rate_limit_objects is None
        &&& self.max_parallel_listings == 16
        &&& self.object_listing_queue_size == 200000
        &&& self.max_parallel_listing_max_depth == 2
        &&& !self.allow_parallel_listings_in_express_one_zone
        &&& self.filter_config.is_empty()
        &&& self.max_keys == 1000
        &&& self.auto_complete_shell is None
        &&& self.event_callback_lua_script is None
        &&& self.filter_callback_lua_script is None
        &&& !self.allow_lua_os_library
        &&& !self.allow_lua_unsafe_vm
        &&& self.lua_vm_memory_limit == DEFAULT_LUA_VM_MEMORY_LIMIT
        &&& !self.if_match
        &&& self.max_delete is None
        &&& self.batch_size == DEFAULT_BATCH_SIZE
        &&& !self.delete_all_versions
        &&& !self.test_user_defined_callback
    }

    /// A configuration with the defaults of the command line for the given
    /// bucket and prefix, with `force` set so that no confirmation prompt is
    /// shown.
    pub fn for_target(bucket: &str, prefix: &str) -> (r: Self)
        ensures
            r.has_default_settings(),
            r.target.parts() == (bucket@, prefix@),
            r.force,
    {
        let mut config = Config::default();
        config.target = StoragePath::S3 { bucket: bucket.to_owned(), prefix: prefix.to_owned() };
        config.force = true;
        config
    }
}

impl Default for Config {
    /// The defaults of the command line, with an empty bucket and prefix and
    /// `force` unset.
    fn default() -> (r: Self)
        ensures
            r.has_default_settings(),
            r.target.parts() == (Seq::<char>::empty(), Seq::<char>::empty()),
            !r.force,
    {
        Config {
            target: StoragePath::S3 { bucket: String::new(), prefix: String::new() },
            show_no_progress: false,
            log_deletion_summary: true,
            target_client_config: None,
            force_retry_config: ForceRetryConfig::default(),
            tracing_config: None,
            worker_size: DEFAULT_WORKER_SIZE,
            warn_as_error: false,
            dry_run: false,
            rate_limit_objects: None,
            max_parallel_listings: 16,
            object_listing_queue_size: 200000,
            max_parallel_listing_max_depth: 2,
            allow_parallel_listings_in_express_one_zone: false,
            filter_config: FilterConfig::default(),
            max_keys: 1000,
            auto_complete_shell: None,
            event_callback_lua_script: None,
            filter_callback_lua_script: None,
            allow_lua_os_library: false,
            allow_lua_unsafe_vm: false,
            lua_vm_memory_limit: DEFAULT_LUA_VM_MEMORY_LIMIT,
            if_match: false,
            max_delete: None,
            batch_size: DEFAULT_BATCH_SIZE,
            delete_all_versions: false,
            force: false,
            test_user_defined_callback: false,
        }
    }
}

} // verus!
