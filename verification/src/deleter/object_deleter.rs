//! The deletion worker: what it does with each object it receives from the
//! filter stages, and with each buffered batch once it was deleted.
//!
//! Content-type and metadata filters need a `HeadObject` call, tag filters
//! a `GetObjectTagging` call; objects that pass are buffered and deleted in
//! batches. The worker's decisions are steps of a state machine; the
//! program that runs the pipeline performs the S3 calls and reports their
//! outcomes.

use vstd::prelude::*;

use crate::config::{regex_view, Config, FilterConfig, ForceRetryConfig};
use crate::deleter::batch::{
    find_last_match, last_match, law_last_match_is_the_last_matching_object, next_chunk_end, BatchRun, BatchRunView,
    MAX_BATCH_SIZE,
};
use crate::deleter::single::{single_request_of, SingleDeleter, SingleRequest};
use crate::deleter::{deleted_views, failed_views, DeleteResult, DeletedKey, DeletedView, FailedView};
use crate::deleter::format::{
    format_metadata, format_tags, keys_distinct, metadata_text, pair_views, tag_views, tags_text, Tag,
};
use crate::event::{EventData, EventView, DELETE_COMPLETE, DELETE_FAILED, DELETE_WARNING};
use crate::time::{format_timestamp, timestamp_text};
use crate::filters::{filtered_event, make_filtered_event};
use crate::regex::{regex_is_match, FilterRegex};
use crate::text::str_eq;
use crate::types::{opt_as_str, opt_str_view, opt_view, to_owned_opt, DeletionStatistics, S3Object, StatsView};

verus! {

/// The name of the include content-type filter.
pub open spec fn include_content_type_filter_name() -> Seq<char> {
    "include_content_type_regex_filter"@
}

/// The name of the exclude content-type filter.
pub open spec fn exclude_content_type_filter_name() -> Seq<char> {
    "exclude_content_type_regex_filter"@
}

/// The name of the include metadata filter.
pub open spec fn include_metadata_filter_name() -> Seq<char> {
    "include_metadata_regex_filter"@
}

/// The name of the exclude metadata filter.
pub open spec fn exclude_metadata_filter_name() -> Seq<char> {
    "exclude_metadata_regex_filter"@
}

/// The name of the include tag filter.
pub open spec fn include_tag_filter_name() -> Seq<char> {
    "include_tag_regex_filter"@
}

/// The name of the exclude tag filter.
pub open spec fn exclude_tag_filter_name() -> Seq<char> {
    "exclude_tag_regex_filter"@
}

/// An include filter: passes when it is off; otherwise fails a missing text
/// and passes a text its regex matches. `None` when matching fails.
pub open spec fn include_decision(re: Option<(Seq<char>, Option<usize>)>, text: Option<Seq<char>>) -> Option<bool> {
    match re {
        None => Some(true),
        Some(r) => match text {
            None => Some(false),
            Some(t) => regex_is_match(r.0, r.1, t),
        },
    }
}

/// An exclude filter: passes when it is off or the text is missing;
/// otherwise passes a text its regex does not match. `None` when matching
/// fails.
pub open spec fn exclude_decision(re: Option<(Seq<char>, Option<usize>)>, text: Option<Seq<char>>) -> Option<bool> {
    match re {
        None => Some(true),
        Some(r) => match text {
            None => Some(true),
            Some(t) => match regex_is_match(r.0, r.1, t) {
                Some(m) => Some(!m),
                None => None,
            },
        },
    }
}

/// The text metadata filters match: none for missing or empty metadata.
pub open spec fn metadata_filter_text(metadata: Option<Seq<(Seq<char>, Seq<char>)>>) -> Option<Seq<char>> {
    match metadata {
        Some(m) => if m.len() == 0 {
            None
        } else {
            Some(metadata_text(m))
        },
        None => None,
    }
}

/// The text tag filters match.
pub open spec fn tag_filter_text(tags: Option<Seq<(Seq<char>, Seq<char>)>>) -> Option<Seq<char>> {
    match tags {
        Some(t) => Some(tags_text(t)),
        None => None,
    }
}

/// Decides an include filter on an optional text.
fn include_by_regex(re: &Option<FilterRegex>, text: Option<&str>) -> (r: Option<bool>)
    ensures
        r == include_decision(regex_view(*re), opt_str_view(text)),
{
    match re {
        None => Some(true),
        Some(regex) => match text {
            None => Some(false),
            Some(t) => regex.is_match(t),
        },
    }
}

/// Decides an exclude filter on an optional text.
fn exclude_by_regex(re: &Option<FilterRegex>, text: Option<&str>) -> (r: Option<bool>)
    ensures
        r == exclude_decision(regex_view(*re), opt_str_view(text)),
{
    match re {
        None => Some(true),
        Some(regex) => match text {
            None => Some(true),
            Some(t) => match regex.is_match(t) {
                Some(m) => Some(!m),
                None => None,
            },
        },
    }
}

/// The view of optional metadata.
pub open spec fn metadata_view(metadata: Option<&Vec<(String, String)>>) -> Option<Seq<(Seq<char>, Seq<char>)>> {
    match metadata {
        Some(m) => Some(pair_views(m@)),
        None => None,
    }
}

/// The view of an optional tag set.
pub open spec fn tags_view(tags: Option<&Vec<Tag>>) -> Option<Seq<(Seq<char>, Seq<char>)>> {
    match tags {
        Some(t) => Some(tag_views(t@)),
        None => None,
    }
}

/// Optional metadata is a map: no key occurs twice.
pub open spec fn metadata_is_map(metadata: Option<Seq<(Seq<char>, Seq<char>)>>) -> bool {
    metadata matches Some(m) ==> keys_distinct(m)
}

/// The text of optional metadata, formatted for matching.
fn metadata_text_of(metadata: Option<&Vec<(String, String)>>) -> (r: Option<String>)
    requires
        metadata_is_map(metadata_view(metadata)),
    ensures
        match r {
            Some(s) => metadata_filter_text(metadata_view(metadata)) == Some(s@),
            None => metadata_filter_text(metadata_view(metadata)) is None,
        },
{
    match metadata {
        Some(m) => {
            if m.len() == 0 {
                None
            } else {
                Some(format_metadata(m))
            }
        },
        None => None,
    }
}

/// The text of an optional tag set, formatted for matching.
fn tags_text_of(tags: Option<&Vec<Tag>>) -> (r: Option<String>)
    ensures
        match r {
            Some(s) => tag_filter_text(tags_view(tags)) == Some(s@),
            None => tag_filter_text(tags_view(tags)) is None,
        },
{
    match tags {
        Some(t) => Some(format_tags(t)),
        None => None,
    }
}

/// The content-type, metadata and tag filter decisions of a filter
/// configuration.
impl FilterConfig {
    /// Whether any content-type or metadata filter is on, so that a
    /// `HeadObject` call is needed.
    pub open spec fn needs_head_object(&self) -> bool {
        ||| self.include_content_type_regex is Some
        ||| self.exclude_content_type_regex is Some
        ||| self.include_metadata_regex is Some
        ||| self.exclude_metadata_regex is Some
    }

    /// Whether any tag filter is on, so that a `GetObjectTagging` call is
    /// needed.
    pub open spec fn needs_tagging(&self) -> bool {
        self.include_tag_regex is Some || self.exclude_tag_regex is Some
    }

    /// Decides the include content-type filter.
    pub fn decide_delete_by_include_content_type_regex(&self, content_type: Option<&str>) -> (r: Option<bool>)
        ensures
            r == include_decision(regex_view(self.include_content_type_regex), opt_str_view(content_type)),
    {
        include_by_regex(&self.include_content_type_regex, content_type)
    }

    /// Decides the exclude content-type filter.
    pub fn decide_delete_by_exclude_content_type_regex(&self, content_type: Option<&str>) -> (r: Option<bool>)
        ensures
            r == exclude_decision(regex_view(self.exclude_content_type_regex), opt_str_view(content_type)),
    {
        exclude_by_regex(&self.exclude_content_type_regex, content_type)
    }

    /// Decides the include metadata filter.
    pub fn decide_delete_by_include_metadata_regex(&self, metadata: Option<&Vec<(String, String)>>) -> (r: Option<
        bool,
    >)
        requires
            metadata_is_map(metadata_view(metadata)),
        ensures
            r == include_decision(
                regex_view(self.include_metadata_regex),
                metadata_filter_text(metadata_view(metadata)),
            ),
    {
        if self.include_metadata_regex.is_none() {
            return Some(true);
        }
        let text = metadata_text_of(metadata);
        match text {
            Some(t) => include_by_regex(&self.include_metadata_regex, Some(t.as_str())),
            None => include_by_regex(&self.include_metadata_regex, None),
        }
    }

    /// Decides the exclude metadata filter.
    pub fn decide_delete_by_exclude_metadata_regex(&self, metadata: Option<&Vec<(String, String)>>) -> (r: Option<
        bool,
    >)
        requires
            metadata_is_map(metadata_view(metadata)),
        ensures
            r == exclude_decision(
                regex_view(self.exclude_metadata_regex),
                metadata_filter_text(metadata_view(metadata)),
            ),
    {
        if self.exclude_metadata_regex.is_none() {
            return Some(true);
        }
        let text = metadata_text_of(metadata);
        match text {
            Some(t) => exclude_by_regex(&self.exclude_metadata_regex, Some(t.as_str())),
            None => exclude_by_regex(&self.exclude_metadata_regex, None),
        }
    }

    /// Decides the include tag filter.
    pub fn decide_delete_by_include_tag_regex(&self, tags: Option<&Vec<Tag>>) -> (r: Option<bool>)
        ensures
            r == include_decision(regex_view(self.include_tag_regex), tag_filter_text(tags_view(tags))),
    {
        if self.include_tag_regex.is_none() {
            return Some(true);
        }
        let text = tags_text_of(tags);
        match text {
            Some(t) => include_by_regex(&self.include_tag_regex, Some(t.as_str())),
            None => include_by_regex(&self.include_tag_regex, None),
        }
    }

    /// Decides the exclude tag filter.
    pub fn decide_delete_by_exclude_tag_regex(&self, tags: Option<&Vec<Tag>>) -> (r: Option<bool>)
        ensures
            r == exclude_decision(regex_view(self.exclude_tag_regex), tag_filter_text(tags_view(tags))),
    {
        if self.exclude_tag_regex.is_none() {
            return Some(true);
        }
        let text = tags_text_of(tags);
        match text {
            Some(t) => exclude_by_regex(&self.exclude_tag_regex, Some(t.as_str())),
            None => exclude_by_regex(&self.exclude_tag_regex, None),
        }
    }
}

/// An include filter keeps an object for deletion: it is off, or the text
/// is present and its regex matches it.
pub open spec fn include_passes(re: Option<FilterRegex>, text: Option<Seq<char>>) -> bool {
    match re {
        None => true,
        Some(r) => match text {
            Some(t) => regex_is_match(r.pattern_spec(), r.limit_spec(), t) == Some(true),
            None => false,
        },
    }
}

/// An exclude filter keeps an object for deletion: it is off, the text is
/// missing, or its regex does not match the text.
pub open spec fn exclude_passes(re: Option<FilterRegex>, text: Option<Seq<char>>) -> bool {
    match re {
        None => true,
        Some(r) => match text {
            Some(t) => regex_is_match(r.pattern_spec(), r.limit_spec(), t) == Some(false),
            None => true,
        },
    }
}

/// Every content-type and metadata filter keeps the object; metadata is
/// matched as its formatted text, and missing or empty metadata has no
/// text.
pub open spec fn head_filters_pass(
    fc: FilterConfig,
    content_type: Option<Seq<char>>,
    metadata: Option<Seq<(Seq<char>, Seq<char>)>>,
) -> bool {
    let text = match metadata {
        Some(m) => if m.len() > 0 {
            Some(metadata_text(m))
        } else {
            None
        },
        None => None,
    };
    &&& include_passes(fc.include_content_type_regex, content_type)
    &&& exclude_passes(fc.exclude_content_type_regex, content_type)
    &&& include_passes(fc.include_metadata_regex, text)
    &&& exclude_passes(fc.exclude_metadata_regex, text)
}

/// Every tag filter keeps the object, the tag set matched as its formatted
/// text.
pub open spec fn tag_filters_pass(fc: FilterConfig, tags: Seq<(Seq<char>, Seq<char>)>) -> bool {
    &&& include_passes(fc.include_tag_regex, Some(tags_text(tags)))
    &&& exclude_passes(fc.exclude_tag_regex, Some(tags_text(tags)))
}

/// The outcome of the checks of the content-type, metadata and tag
/// filters: every filter passed, the named filter rejected the object, or
/// matching the named filter's regex failed at run time.
pub enum Verdict {
    Pass,
    Reject(Seq<char>),
    RegexError(Seq<char>),
}

/// A filter decision followed by the remaining checks.
pub open spec fn then_check(decision: Option<bool>, name: Seq<char>, rest: Verdict) -> Verdict {
    match decision {
        Some(true) => rest,
        Some(false) => Verdict::Reject(name),
        None => Verdict::RegexError(name),
    }
}

impl FilterConfig {
    /// The content-type and metadata filters, in order, on the result of a
    /// `HeadObject` call.
    pub open spec fn head_verdict(
        &self,
        content_type: Option<Seq<char>>,
        metadata: Option<Seq<(Seq<char>, Seq<char>)>>,
    ) -> Verdict {
        then_check(
            include_decision(regex_view(self.include_content_type_regex), content_type),
            include_content_type_filter_name(),
            then_check(
                exclude_decision(regex_view(self.exclude_content_type_regex), content_type),
                exclude_content_type_filter_name(),
                then_check(
                    include_decision(regex_view(self.include_metadata_regex), metadata_filter_text(metadata)),
                    include_metadata_filter_name(),
                    then_check(
                        exclude_decision(regex_view(self.exclude_metadata_regex), metadata_filter_text(metadata)),
                        exclude_metadata_filter_name(),
                        Verdict::Pass,
                    ),
                ),
            ),
        )
    }

    /// The tag filters, in order, on the tag set of a `GetObjectTagging`
    /// call.
    pub open spec fn tag_verdict(&self, tags: Seq<(Seq<char>, Seq<char>)>) -> Verdict {
        then_check(
            include_decision(regex_view(self.include_tag_regex), tag_filter_text(Some(tags))),
            include_tag_filter_name(),
            then_check(
                exclude_decision(regex_view(self.exclude_tag_regex), tag_filter_text(Some(tags))),
                exclude_tag_filter_name(),
                Verdict::Pass,
            ),
        )
    }
}

/// What the deletion worker asks for next.
#[derive(Debug)]
pub enum DeleterStep {
    /// The object passed the worker's filters and was buffered; when `flush`
    /// the buffer is full and must be deleted (see `take_batch`).
    Buffered { flush: bool },
    /// Call `HeadObject`, then report with `after_head_object`.
    HeadObject { key: String, version_id: Option<String> },
    /// Call `GetObjectTagging`, then report with `after_get_object_tagging`.
    GetObjectTagging { key: String, version_id: Option<String> },
    /// The object is dropped: send `stats`, and trigger `event` if present.
    Skipped { stats: DeletionStatistics, event: Option<EventData> },
    /// The `--max-delete` threshold was passed: send `stats`, set the
    /// warning flag, trigger the `warning` event and cancel the pipeline.
    MaxDeleteReached { stats: DeletionStatistics, warning: EventData },
    /// An S3 call failed: cancel the pipeline and stop with this error.
    Failed { message: String },
    /// Matching the regex of the named filter failed at run time.
    RegexFailed { filter_name: String },
}

/// The view of a step.
pub enum StepView {
    Buffered(bool),
    HeadObject(Seq<char>, Option<Seq<char>>),
    GetObjectTagging(Seq<char>, Option<Seq<char>>),
    Skipped(StatsView, Option<EventView>),
    MaxDeleteReached(StatsView, EventView),
    Failed(Seq<char>),
    RegexFailed(Seq<char>),
}

/// The view of an optional event.
pub open spec fn opt_event_view(e: Option<EventData>) -> Option<EventView> {
    match e {
        Some(x) => Some(x@),
        None => None,
    }
}

impl View for DeleterStep {
    type V = StepView;

    open spec fn view(&self) -> StepView {
        match self {
            DeleterStep::Buffered { flush } => StepView::Buffered(*flush),
            DeleterStep::HeadObject { key, version_id } => StepView::HeadObject(key@, opt_view(*version_id)),
            DeleterStep::GetObjectTagging { key, version_id } => StepView::GetObjectTagging(
                key@,
                opt_view(*version_id),
            ),
            DeleterStep::Skipped { stats, event } => StepView::Skipped(stats@, opt_event_view(*event)),
            DeleterStep::MaxDeleteReached { stats, warning } => StepView::MaxDeleteReached(stats@, warning@),
            DeleterStep::Failed { message } => StepView::Failed(message@),
            DeleterStep::RegexFailed { filter_name } => StepView::RegexFailed(filter_name@),
        }
    }
}

/// What a failed `HeadObject` or `GetObjectTagging` call reported.
#[derive(Debug)]
pub enum FailedCall {
    /// A `HeadObject` service error; `not_found` when it is the `NotFound`
    /// error.
    HeadObject { not_found: bool },
    /// A `GetObjectTagging` service error, with its error code and HTTP
    /// status.
    GetObjectTagging { code: Option<String>, status: u16 },
    /// Any other failure.
    Other,
}

/// Whether a failed call means that the object no longer exists: the
/// `NotFound` error of `HeadObject`, or a `GetObjectTagging` error with code
/// `NoSuchKey` or `NotFound` or with HTTP status 404.
pub open spec fn not_found_spec(e: FailedCall) -> bool {
    match e {
        FailedCall::HeadObject { not_found } => not_found,
        FailedCall::GetObjectTagging { code, status } => {
            ||| opt_view(code) == Some("NoSuchKey"@)
            ||| opt_view(code) == Some("NotFound"@)
            ||| status == 404
        },
        FailedCall::Other => false,
    }
}

/// Decides whether a failed call means that the object no longer exists.
pub fn is_not_found_error(e: &FailedCall) -> (r: bool)
    ensures
        r == not_found_spec(*e),
{
    match e {
        FailedCall::HeadObject { not_found } => *not_found,
        FailedCall::GetObjectTagging { code, status } => {
            let by_code = match code {
                Some(c) => str_eq(c.as_str(), "NoSuchKey") || str_eq(c.as_str(), "NotFound"),
                None => false,
            };
            by_code || *status == 404
        },
        FailedCall::Other => false,
    }
}

/// The outcome of a `HeadObject` call.
#[derive(Debug)]
pub enum HeadOutcome {
    /// The object's content type and user-defined metadata.
    Found { content_type: Option<String>, metadata: Option<Vec<(String, String)>> },
    /// The object no longer exists.
    NotFound,
    /// Any other failure.
    Failed,
}

/// The outcome of a `GetObjectTagging` call.
#[derive(Debug)]
pub enum TaggingOutcome {
    /// The object's tag set.
    Found(Vec<Tag>),
    /// The object no longer exists.
    NotFound,
    /// Any other failure.
    Failed,
}

/// The view of optional owned metadata.
pub open spec fn owned_metadata_view(metadata: Option<Vec<(String, String)>>) -> Option<
    Seq<(Seq<char>, Seq<char>)>,
> {
    match metadata {
        Some(m) => Some(pair_views(m@)),
        None => None,
    }
}

/// The content-type and metadata filters let an object through exactly when
/// each of them keeps it: in particular an object whose metadata text
/// matches the exclude-metadata regex (or whose content type matches the
/// exclude-content-type regex) is never let through, and neither is one
/// whose text an include regex does not match.
pub proof fn law_head_filters_apply_every_filter(
    fc: FilterConfig,
    content_type: Option<Seq<char>>,
    metadata: Option<Seq<(Seq<char>, Seq<char>)>>,
)
    ensures
        fc.head_verdict(content_type, metadata) is Pass <==> head_filters_pass(fc, content_type, metadata),
{
}

/// The tag filters let an object through exactly when each of them keeps
/// it.
pub proof fn law_tag_filters_apply_every_filter(fc: FilterConfig, tags: Seq<(Seq<char>, Seq<char>)>)
    ensures
        fc.tag_verdict(tags) is Pass <==> tag_filters_pass(fc, tags),
{
}

/// The number of objects deleted per request for a configured batch size:
/// 1 (single deletions) up to the S3 limit of 1000.
pub open spec fn effective_batch_size(batch_size: u16) -> nat {
    if batch_size <= 1 {
        1
    } else if batch_size <= MAX_BATCH_SIZE {
        batch_size as nat
    } else {
        MAX_BATCH_SIZE as nat
    }
}

/// The batch size decides how objects are deleted: with a batch size of 0
/// or 1 a worker flushes after every object and deletes it with its own
/// `DeleteObject` call; with a larger one it flushes every
/// `min(batch size, 1000)` objects and each `DeleteObjects` request of the
/// batch deletion carries at most that many objects.
pub proof fn law_batch_size_decides_the_deletion_api(
    batch_size: u16,
    objects: Seq<S3Object>,
    if_match: bool,
    retry: ForceRetryConfig,
    chunk_start: nat,
)
    ensures
        batch_size <= 1 ==> effective_batch_size(batch_size) == 1,
        batch_size > 1 ==> effective_batch_size(batch_size) == if batch_size as nat <= MAX_BATCH_SIZE {
            batch_size as nat
        } else {
            MAX_BATCH_SIZE as nat
        },
        batch_size >= 1 ==> BatchRunView::initial(objects, batch_size, if_match, retry).chunk_size
            == effective_batch_size(batch_size),
        chunk_start <= objects.len() ==> next_chunk_end(chunk_start, effective_batch_size(batch_size), objects.len())
            - chunk_start <= effective_batch_size(batch_size),
{
}

/// Whether the `n`-th deletion passes the `--max-delete` threshold.
pub open spec fn max_delete_reached(max_delete: Option<u64>, n: u64) -> bool {
    match max_delete {
        Some(m) => n > m,
        None => false,
    }
}

/// The `--max-delete` threshold: with a limit of `m`, the objects numbered
/// 1 to `m` may be deleted and every later one stops the run; without a
/// limit no object does.
pub proof fn law_max_delete_allows_exactly_the_limit(max_delete: Option<u64>, n: u64)
    ensures
        max_delete is None ==> !max_delete_reached(max_delete, n),
        max_delete matches Some(m) ==> (max_delete_reached(max_delete, n) <==> n > m),
{
}

/// The message of the event sent when the `--max-delete` threshold is
/// passed.
pub open spec fn max_delete_message() -> Seq<char> {
    "--max-delete has been reached. delete operation has been cancelled."@
}

/// The `DELETE_WARNING` event sent when the `--max-delete` threshold is
/// passed.
pub open spec fn max_delete_event(object: S3Object) -> EventView {
    EventView { key: Some(object.key_spec()), message: Some(max_delete_message()), ..EventView::of_type(DELETE_WARNING) }
}

/// The step of an object rejected by the named filter.
pub open spec fn filter_skip(object: S3Object, name: Seq<char>, callback_registered: bool) -> StepView {
    StepView::Skipped(
        StatsView::DeleteSkip(object.key_spec()),
        if callback_registered {
            Some(filtered_event(object, name))
        } else {
            None
        },
    )
}

/// The abstract state of a deletion worker: the objects buffered for
/// deletion, and the object awaiting the outcome of an S3 call.
pub struct DeleterView {
    pub buffer: Seq<S3Object>,
    pub pending: Option<S3Object>,
}

/// A deletion worker.
pub struct ObjectDeleter {
    config: Config,
    callback_registered: bool,
    effective_batch_size: usize,
    buffer: Vec<S3Object>,
    pending: Option<S3Object>,
}

impl View for ObjectDeleter {
    type V = DeleterView;

    closed spec fn view(&self) -> DeleterView {
        DeleterView { buffer: self.buffer@, pending: self.pending }
    }
}

impl ObjectDeleter {
    /// The worker's configuration.
    pub closed spec fn config_spec(&self) -> Config {
        self.config
    }

    /// Whether an event callback is registered.
    pub closed spec fn callback_registered_spec(&self) -> bool {
        self.callback_registered
    }

    /// The number of objects deleted per request.
    pub open spec fn batch_limit(&self) -> nat {
        effective_batch_size(self.config_spec().batch_size)
    }

    /// The state invariant: the buffer never holds more than one request.
    pub closed spec fn wf(&self) -> bool {
        &&& self.effective_batch_size as nat == effective_batch_size(self.config.batch_size)
        &&& self.buffer@.len() <= self.effective_batch_size
    }

    /// The worker may receive an object: none awaits an S3 call and the
    /// buffer is not full.
    pub open spec fn ready(&self) -> bool {
        self@.pending is None && self@.buffer.len() < self.batch_limit()
    }

    /// A worker with an empty buffer.
    pub fn new(config: Config, callback_registered: bool) -> (r: Self)
        ensures
            r.wf(),
            r.config_spec() == config,
            r.callback_registered_spec() == callback_registered,
            r@.buffer.len() == 0,
            r@.pending is None,
    {
        let effective = if config.batch_size <= 1 {
            1
        } else if (config.batch_size as usize) <= MAX_BATCH_SIZE {
            config.batch_size as usize
        } else {
            MAX_BATCH_SIZE
        };
        ObjectDeleter { config, callback_registered, effective_batch_size: effective, buffer: Vec::new(), pending: None }
    }

    /// The worker's configuration.
    pub fn config(&self) -> (r: &Config)
        ensures
            *r == self.config_spec(),
    {
        &self.config
    }

    /// Whether buffered objects are deleted with `DeleteObjects` (batch
    /// size above 1) rather than one `DeleteObject` call each.
    pub fn uses_batch_deletion(&self) -> (r: bool)
        ensures
            r == (self.config_spec().batch_size > 1),
    {
        self.config.batch_size > 1
    }

    /// Buffers an object that passed every filter.
    fn buffer_object(&mut self, object: S3Object) -> (r: DeleterStep)
        requires
            old(self).wf(),
            old(self)@.buffer.len() < old(self).batch_limit(),
        ensures
            final(self).wf(),
            final(self).config_spec() == old(self).config_spec(),
            final(self).callback_registered_spec() == old(self).callback_registered_spec(),
            final(self)@ == (DeleterView { buffer: old(self)@.buffer.push(object), pending: None }),
            r@ == StepView::Buffered(old(self)@.buffer.len() + 1 >= old(self).batch_limit()),
    {
        self.buffer.push(object);
        self.pending = None;
        DeleterStep::Buffered { flush: self.buffer.len() >= self.effective_batch_size }
    }

    /// Receives an object from the filter stages, `deleted_count` being its
    /// number among the objects received by all workers (counted from 1).
    pub fn process_object(&mut self, object: S3Object, deleted_count: u64) -> (r: DeleterStep)
        requires
            old(self).wf(),
            old(self).ready(),
        ensures
            final(self).wf(),
            final(self).config_spec() == old(self).config_spec(),
            final(self).callback_registered_spec() == old(self).callback_registered_spec(),
            ({
                let fc = old(self).config_spec().filter_config;
                if max_delete_reached(old(self).config_spec().max_delete, deleted_count) {
                    &&& r@ == StepView::MaxDeleteReached(
                        StatsView::DeleteWarning(object.key_spec()),
                        max_delete_event(object),
                    )
                    &&& final(self)@ == old(self)@
                } else if fc.needs_head_object() {
                    &&& r@ == StepView::HeadObject(object.key_spec(), object.version_id_spec())
                    &&& final(self)@ == (DeleterView { pending: Some(object), ..old(self)@ })
                } else if fc.needs_tagging() {
                    &&& r@ == StepView::GetObjectTagging(object.key_spec(), object.version_id_spec())
                    &&& final(self)@ == (DeleterView { pending: Some(object), ..old(self)@ })
                } else {
                    &&& r@ == StepView::Buffered(old(self)@.buffer.len() + 1 >= old(self).batch_limit())
                    &&& final(self)@ == (DeleterView { buffer: old(self)@.buffer.push(object), pending: None })
                }
            }),
    {
        let reached = match self.config.max_delete {
            Some(m) => deleted_count > m,
            None => false,
        };
        if reached {
            let stats = DeletionStatistics::DeleteWarning { key: object.key().to_owned() };
            let mut event = EventData::new(DELETE_WARNING);
            event.key = Some(object.key().to_owned());
            event.message = Some(
                String::from_str("--max-delete has been reached. delete operation has been cancelled."),
            );
            return DeleterStep::MaxDeleteReached { stats, warning: event };
        }
        let fc = &self.config.filter_config;
        let needs_head = fc.include_content_type_regex.is_some() || fc.exclude_content_type_regex.is_some()
            || fc.include_metadata_regex.is_some() || fc.exclude_metadata_regex.is_some();
        let needs_tagging = fc.include_tag_regex.is_some() || fc.exclude_tag_regex.is_some();
        if needs_head {
            let key = object.key().to_owned();
            let version_id = to_owned_opt(object.version_id());
            self.pending = Some(object);
            DeleterStep::HeadObject { key, version_id }
        } else if needs_tagging {
            let key = object.key().to_owned();
            let version_id = to_owned_opt(object.version_id());
            self.pending = Some(object);
            DeleterStep::GetObjectTagging { key, version_id }
        } else {
            self.buffer_object(object)
        }
    }

    /// Reports the outcome of the `HeadObject` call for the pending object.
    pub fn after_head_object(&mut self, outcome: HeadOutcome) -> (r: DeleterStep)
        requires
            old(self).wf(),
            outcome matches HeadOutcome::Found { metadata, .. } ==> metadata_is_map(owned_metadata_view(metadata)),
            old(self)@.pending is Some,
            old(self)@.buffer.len() < old(self).batch_limit(),
        ensures
            final(self).wf(),
            final(self).config_spec() == old(self).config_spec(),
            final(self).callback_registered_spec() == old(self).callback_registered_spec(),
            ({
                let o = old(self)@.pending.unwrap();
                let fc = old(self).config_spec().filter_config;
                let done = DeleterView { pending: None, ..old(self)@ };
                match outcome {
                    HeadOutcome::NotFound => r@ == StepView::Skipped(StatsView::DeleteSkip(o.key_spec()), None)
                        && final(self)@ == done,
                    HeadOutcome::Failed => r@ == StepView::Failed("head_object failed for key: "@ + o.key_spec())
                        && final(self)@ == done,
                    HeadOutcome::Found { content_type, metadata } => match fc.head_verdict(
                        opt_view(content_type),
                        owned_metadata_view(metadata),
                    ) {
                        Verdict::RegexError(name) => r@ == StepView::RegexFailed(name) && final(self)@ == done,
                        Verdict::Reject(name) => r@ == filter_skip(o, name, old(self).callback_registered_spec())
                            && final(self)@ == done,
                        Verdict::Pass => if fc.needs_tagging() {
                            r@ == StepView::GetObjectTagging(o.key_spec(), o.version_id_spec()) && final(self)@ == old(
                                self,
                            )@
                        } else {
                            r@ == StepView::Buffered(old(self)@.buffer.len() + 1 >= old(self).batch_limit())
                                && final(self)@ == (DeleterView { buffer: old(self)@.buffer.push(o), pending: None })
                        },
                    },
                }
            }),
            (r@ is Buffered || r@ is GetObjectTagging) ==> (outcome matches HeadOutcome::Found {
                content_type,
                metadata,
            } && head_filters_pass(
                old(self).config_spec().filter_config,
                opt_view(content_type),
                owned_metadata_view(metadata),
            )),
    {
        let object = self.pending.take().unwrap();
        match outcome {
            HeadOutcome::NotFound => {
                DeleterStep::Skipped { stats: DeletionStatistics::DeleteSkip { key: object.key().to_owned() }, event: None }
            },
            HeadOutcome::Failed => {
                let mut message = String::from_str("head_object failed for key: ");
                message.append(object.key());
                DeleterStep::Failed { message }
            },
            HeadOutcome::Found { content_type, metadata } => {
                let ct: Option<&str> = match &content_type {
                    Some(c) => Some(c.as_str()),
                    None => None,
                };
                let md: Option<&Vec<(String, String)>> = match &metadata {
                    Some(m) => Some(m),
                    None => None,
                };
                let fc = &self.config.filter_config;
                let name: &str;
                let decision = fc.decide_delete_by_include_content_type_regex(ct);
                if decision == Some(true) {
                    let decision = fc.decide_delete_by_exclude_content_type_regex(ct);
                    if decision == Some(true) {
                        let decision = fc.decide_delete_by_include_metadata_regex(md);
                        if decision == Some(true) {
                            let decision = fc.decide_delete_by_exclude_metadata_regex(md);
                            if decision == Some(true) {
                                return self.after_head_filters(object);
                            }
                            name = "exclude_metadata_regex_filter";
                            proof { reveal_strlit("exclude_metadata_regex_filter"); }
                            return self.reject_or_fail(object, decision, name);
                        }
                        name = "include_metadata_regex_filter";
                        proof { reveal_strlit("include_metadata_regex_filter"); }
                        return self.reject_or_fail(object, decision, name);
                    }
                    name = "exclude_content_type_regex_filter";
                    proof { reveal_strlit("exclude_content_type_regex_filter"); }
                    return self.reject_or_fail(object, decision, name);
                }
                name = "include_content_type_regex_filter";
                proof { reveal_strlit("include_content_type_regex_filter"); }
                self.reject_or_fail(object, decision, name)
            },
        }
    }

    /// Reports the outcome of the `GetObjectTagging` call for the pending
    /// object.
    pub fn after_get_object_tagging(&mut self, outcome: TaggingOutcome) -> (r: DeleterStep)
        requires
            old(self).wf(),
            old(self)@.pending is Some,
            old(self)@.buffer.len() < old(self).batch_limit(),
        ensures
            final(self).wf(),
            final(self).config_spec() == old(self).config_spec(),
            final(self).callback_registered_spec() == old(self).callback_registered_spec(),
            ({
                let o = old(self)@.pending.unwrap();
                let fc = old(self).config_spec().filter_config;
                let done = DeleterView { pending: None, ..old(self)@ };
                match outcome {
                    TaggingOutcome::NotFound => r@ == StepView::Skipped(StatsView::DeleteSkip(o.key_spec()), None)
                        && final(self)@ == done,
                    TaggingOutcome::Failed => r@ == StepView::Failed(
                        "get_object_tagging failed for key: "@ + o.key_spec(),
                    ) && final(self)@ == done,
                    TaggingOutcome::Found(tags) => match fc.tag_verdict(tag_views(tags@)) {
                        Verdict::Pass => r@ == StepView::Buffered(old(self)@.buffer.len() + 1 >= old(self).batch_limit())
                            && final(self)@ == (DeleterView { buffer: old(self)@.buffer.push(o), pending: None }),
                        v => r@ == v.step_of(o, old(self).callback_registered_spec()) && final(self)@ == done,
                    },
                }
            }),
            r@ is Buffered ==> (outcome matches TaggingOutcome::Found(tags) && tag_filters_pass(
                old(self).config_spec().filter_config,
                tag_views(tags@),
            )),
    {
        let object = self.pending.take().unwrap();
        match outcome {
            TaggingOutcome::NotFound => {
                DeleterStep::Skipped { stats: DeletionStatistics::DeleteSkip { key: object.key().to_owned() }, event: None }
            },
            TaggingOutcome::Failed => {
                let mut message = String::from_str("get_object_tagging failed for key: ");
                message.append(object.key());
                DeleterStep::Failed { message }
            },
            TaggingOutcome::Found(tags) => {
                let fc = &self.config.filter_config;
                let decision = fc.decide_delete_by_include_tag_regex(Some(&tags));
                if decision == Some(true) {
                    let decision = fc.decide_delete_by_exclude_tag_regex(Some(&tags));
                    if decision == Some(true) {
                        return self.buffer_object(object);
                    }
                    proof { reveal_strlit("exclude_tag_regex_filter"); }
                    return self.reject_or_fail(object, decision, "exclude_tag_regex_filter");
                }
                proof { reveal_strlit("include_tag_regex_filter"); }
                self.reject_or_fail(object, decision, "include_tag_regex_filter")
            },
        }
    }

    /// Continues with an object that passed the content-type and metadata
    /// filters: ask for its tags when a tag filter is on, else buffer it.
    fn after_head_filters(&mut self, object: S3Object) -> (r: DeleterStep)
        requires
            old(self).wf(),
            old(self)@.buffer.len() < old(self).batch_limit(),
        ensures
            final(self).wf(),
            final(self).config_spec() == old(self).config_spec(),
            final(self).callback_registered_spec() == old(self).callback_registered_spec(),
            if old(self).config_spec().filter_config.needs_tagging() {
                r@ == StepView::GetObjectTagging(object.key_spec(), object.version_id_spec())
                    && final(self)@ == (DeleterView { pending: Some(object), ..old(self)@ })
            } else {
                r@ == StepView::Buffered(old(self)@.buffer.len() + 1 >= old(self).batch_limit())
                    && final(self)@ == (DeleterView { buffer: old(self)@.buffer.push(object), pending: None })
            },
    {
        let needs_tagging = self.config.filter_config.include_tag_regex.is_some()
            || self.config.filter_config.exclude_tag_regex.is_some();
        if needs_tagging {
            let key = object.key().to_owned();
            let version_id = to_owned_opt(object.version_id());
            self.pending = Some(object);
            DeleterStep::GetObjectTagging { key, version_id }
        } else {
            self.buffer_object(object)
        }
    }

    /// The step of an object on which the named filter did not pass:
    /// skipped when it rejected the object, failed when matching failed.
    fn reject_or_fail(&self, object: S3Object, decision: Option<bool>, name: &str) -> (r: DeleterStep)
        requires
            decision != Some(true),
        ensures
            r@ == then_check(decision, name@, Verdict::Pass).step_of(object, self.callback_registered_spec()),
    {
        match decision {
            None => DeleterStep::RegexFailed { filter_name: name.to_owned() },
            _ => {
                let stats = DeletionStatistics::DeleteSkip { key: object.key().to_owned() };
                let event = if self.callback_registered {
                    Some(make_filtered_event(&object, name))
                } else {
                    None
                };
                DeleterStep::Skipped { stats, event }
            },
        }
    }
}

impl Verdict {
    /// The step of an object whose filters did not all pass.
    pub open spec fn step_of(self, object: S3Object, callback_registered: bool) -> StepView {
        match self {
            Verdict::RegexError(name) => StepView::RegexFailed(name),
            Verdict::Reject(name) => filter_skip(object, name, callback_registered),
            Verdict::Pass => StepView::Buffered(false),
        }
    }
}

/// How a batch of buffered objects is deleted.
pub enum DeletionPlan {
    /// A dry run: this result is reported and no deletion call is made.
    DryRun(DeleteResult),
    /// `DeleteObjects` requests, driven by this batch deletion.
    Batch(BatchRun),
    /// One `DeleteObject` call for the one object of the batch.
    Single(SingleRequest),
}

/// What the deletion worker does once a batch was deleted.
#[derive(Debug)]
pub enum DeleterAction {
    /// Add a deleted object of this size to the deletion summary.
    AddDeleted(u64),
    /// Add a failed object to the deletion summary.
    AddFailed,
    /// Send a statistic to the progress indicator.
    SendStats(DeletionStatistics),
    /// Trigger an event.
    TriggerEvent(EventData),
    /// Set the pipeline's warning flag.
    SetWarning,
    /// Cancel the pipeline.
    Cancel,
    /// Send the object to the next stage.
    Forward(S3Object),
}

/// The view of an action.
pub enum ActionView {
    AddDeleted(u64),
    AddFailed,
    SendStats(StatsView),
    TriggerEvent(EventView),
    SetWarning,
    Cancel,
    Forward(S3Object),
}

impl View for DeleterAction {
    type V = ActionView;

    open spec fn view(&self) -> ActionView {
        match self {
            DeleterAction::AddDeleted(n) => ActionView::AddDeleted(*n),
            DeleterAction::AddFailed => ActionView::AddFailed,
            DeleterAction::SendStats(s) => ActionView::SendStats(s@),
            DeleterAction::TriggerEvent(e) => ActionView::TriggerEvent(e@),
            DeleterAction::SetWarning => ActionView::SetWarning,
            DeleterAction::Cancel => ActionView::Cancel,
            DeleterAction::Forward(o) => ActionView::Forward(*o),
        }
    }
}

/// The views of actions.
pub open spec fn action_views(v: Seq<DeleterAction>) -> Seq<ActionView> {
    v.map_values(|a: DeleterAction| a@)
}

/// The size of a deleted key: that of the last object of the batch with its
/// key and version id, or 0.
pub open spec fn deleted_size(batch: Seq<S3Object>, d: DeletedView) -> u64 {
    match last_match(batch, d.0, d.1) {
        Some(i) => batch[i].size_spec() as u64,
        None => 0,
    }
}

/// The last-modified text of a deleted key, taken from the same object as
/// its size, or empty.
pub open spec fn deleted_last_modified(batch: Seq<S3Object>, d: DeletedView) -> Seq<char> {
    match last_match(batch, d.0, d.1) {
        Some(i) => timestamp_text(batch[i].last_modified_spec()),
        None => Seq::empty(),
    }
}

/// The `DELETE_COMPLETE` event of a deleted key.
pub open spec fn completed_event(batch: Seq<S3Object>, d: DeletedView, dry_run: bool) -> EventView {
    EventView {
        dry_run,
        key: Some(d.0),
        version_id: d.1,
        size: Some(deleted_size(batch, d)),
        last_modified: Some(deleted_last_modified(batch, d)),
        ..EventView::of_type(DELETE_COMPLETE)
    }
}

/// The `DELETE_FAILED` event of a failed key: its error as `code: message`.
pub open spec fn failed_event(f: FailedView, dry_run: bool) -> EventView {
    EventView {
        dry_run,
        key: Some(f.0),
        version_id: f.1,
        error_message: Some(f.2 + ": "@ + f.3),
        ..EventView::of_type(DELETE_FAILED)
    }
}

/// The actions of one deleted key.
pub open spec fn deleted_key_actions(batch: Seq<S3Object>, d: DeletedView, dry_run: bool) -> Seq<ActionView> {
    seq![
        ActionView::AddDeleted(deleted_size(batch, d)),
        ActionView::SendStats(StatsView::DeleteComplete(d.0)),
        ActionView::SendStats(StatsView::DeleteBytes(deleted_size(batch, d))),
        ActionView::TriggerEvent(completed_event(batch, d, dry_run)),
    ]
}

/// The actions of one failed key.
pub open spec fn failed_key_actions(f: FailedView, dry_run: bool) -> Seq<ActionView> {
    seq![
        ActionView::AddFailed,
        ActionView::SendStats(StatsView::DeleteWarning(f.0)),
        ActionView::TriggerEvent(failed_event(f, dry_run)),
    ]
}

/// The actions of the deleted keys, in order.
pub open spec fn all_deleted_actions(batch: Seq<S3Object>, ds: Seq<DeletedView>, dry_run: bool) -> Seq<ActionView>
    decreases ds.len(),
{
    if ds.len() == 0 {
        Seq::empty()
    } else {
        all_deleted_actions(batch, ds.drop_last(), dry_run) + deleted_key_actions(batch, ds.last(), dry_run)
    }
}

/// The actions of the failed keys, in order.
pub open spec fn all_failed_actions(fs: Seq<FailedView>, dry_run: bool) -> Seq<ActionView>
    decreases fs.len(),
{
    if fs.len() == 0 {
        Seq::empty()
    } else {
        all_failed_actions(fs.drop_last(), dry_run) + failed_key_actions(fs.last(), dry_run)
    }
}

/// Forwarding every object of the batch, in order.
pub open spec fn forward_actions(batch: Seq<S3Object>) -> Seq<ActionView> {
    batch.map_values(|o: S3Object| ActionView::Forward(o))
}

/// Everything the worker does after deleting a batch: for each deleted key
/// its summary count, statistics and event; for each failed key the same;
/// then, when some key failed, the warning flag, and with
/// `--warn-as-error` the cancellation of the pipeline instead of
/// forwarding the batch.
pub open spec fn batch_actions(
    batch: Seq<S3Object>,
    ds: Seq<DeletedView>,
    fs: Seq<FailedView>,
    dry_run: bool,
    warn_as_error: bool,
) -> Seq<ActionView> {
    all_deleted_actions(batch, ds, dry_run) + all_failed_actions(fs, dry_run) + if fs.len() > 0 {
        if warn_as_error {
            seq![ActionView::SetWarning, ActionView::Cancel]
        } else {
            seq![ActionView::SetWarning] + forward_actions(batch)
        }
    } else {
        forward_actions(batch)
    }
}

/// The object at `j` of the batch has the deleted key and version id.
pub open spec fn names_deleted(batch: Seq<S3Object>, j: int, d: DeletedView) -> bool {
    batch[j].key_spec() == d.0 && batch[j].version_id_spec() == d.1
}

/// The four actions at `at` report the deleted key `d`: its summary count
/// and its `DeleteBytes` statistic carry one size, that of the last object
/// of the batch with the key and version id (0 when none has them), between
/// them the `DeleteComplete` statistic of the key, then its
/// `DELETE_COMPLETE` event with the same size and the run's dry-run flag.
pub open spec fn reports_deleted_key(
    acts: Seq<ActionView>,
    at: int,
    batch: Seq<S3Object>,
    d: DeletedView,
    dry_run: bool,
) -> bool {
    &&& acts[at] matches ActionView::AddDeleted(size)
    &&& acts[at + 1] == ActionView::SendStats(StatsView::DeleteComplete(d.0))
    &&& acts[at + 2] == ActionView::SendStats(StatsView::DeleteBytes(size))
    &&& acts[at + 3] matches ActionView::TriggerEvent(e)
    &&& e.event_type == DELETE_COMPLETE
    &&& e.key == Some(d.0)
    &&& e.version_id == d.1
    &&& e.size == Some(size)
    &&& e.dry_run == dry_run
    &&& (forall|j: int| 0 <= j < batch.len() ==> !#[trigger] names_deleted(batch, j, d)) ==> size == 0
    &&& forall|j: int|
        0 <= j < batch.len() && #[trigger] names_deleted(batch, j, d) && (forall|j2: int|
            j < j2 < batch.len() ==> !names_deleted(batch, j2, d)) ==> size == batch[j].size_spec() as u64
}

/// The three actions at `at` report the failed key `f`: a failed count,
/// its `DeleteWarning` statistic, and its `DELETE_FAILED` event with the
/// run's dry-run flag.
pub open spec fn reports_failed_key(acts: Seq<ActionView>, at: int, f: FailedView, dry_run: bool) -> bool {
    &&& acts[at] == ActionView::AddFailed
    &&& acts[at + 1] == ActionView::SendStats(StatsView::DeleteWarning(f.0))
    &&& acts[at + 2] matches ActionView::TriggerEvent(e)
    &&& e.event_type == DELETE_FAILED
    &&& e.key == Some(f.0)
    &&& e.version_id == f.1
    &&& e.dry_run == dry_run
}

proof fn lemma_deleted_actions_at(batch: Seq<S3Object>, ds: Seq<DeletedView>, dry_run: bool)
    ensures
        all_deleted_actions(batch, ds, dry_run).len() == 4 * ds.len(),
        forall|k: int, m: int|
            0 <= k < ds.len() && 0 <= m < 4 ==> all_deleted_actions(batch, ds, dry_run)[4 * k + m]
                == #[trigger] deleted_key_actions(batch, ds[k], dry_run)[m],
    decreases ds.len(),
{
    if ds.len() > 0 {
        let rest = ds.drop_last();
        lemma_deleted_actions_at(batch, rest, dry_run);
        let a = all_deleted_actions(batch, rest, dry_run);
        let b = deleted_key_actions(batch, ds.last(), dry_run);
        assert(all_deleted_actions(batch, ds, dry_run) == a + b);
        assert forall|k: int, m: int| 0 <= k < ds.len() && 0 <= m < 4 implies all_deleted_actions(
            batch,
            ds,
            dry_run,
        )[4 * k + m] == #[trigger] deleted_key_actions(batch, ds[k], dry_run)[m] by {
            if k < rest.len() {
                assert(rest[k] == ds[k]);
                assert(deleted_key_actions(batch, rest[k], dry_run)[m] == a[4 * k + m]);
            } else {
                assert(k == ds.len() - 1);
                assert(4 * k + m - a.len() == m);
            }
        }
    }
}

proof fn lemma_failed_actions_at(fs: Seq<FailedView>, dry_run: bool)
    ensures
        all_failed_actions(fs, dry_run).len() == 3 * fs.len(),
        forall|k: int, m: int|
            0 <= k < fs.len() && 0 <= m < 3 ==> all_failed_actions(fs, dry_run)[3 * k + m]
                == #[trigger] failed_key_actions(fs[k], dry_run)[m],
    decreases fs.len(),
{
    if fs.len() > 0 {
        let rest = fs.drop_last();
        lemma_failed_actions_at(rest, dry_run);
        let a = all_failed_actions(rest, dry_run);
        let b = failed_key_actions(fs.last(), dry_run);
        assert(all_failed_actions(fs, dry_run) == a + b);
        assert forall|k: int, m: int| 0 <= k < fs.len() && 0 <= m < 3 implies all_failed_actions(fs, dry_run)[3
            * k + m] == #[trigger] failed_key_actions(fs[k], dry_run)[m] by {
            if k < rest.len() {
                assert(rest[k] == fs[k]);
                assert(failed_key_actions(rest[k], dry_run)[m] == a[3 * k + m]);
            } else {
                assert(k == fs.len() - 1);
                assert(3 * k + m - a.len() == m);
            }
        }
    }
}

/// The size reported for a deleted key is that of the last batch object
/// with its key and version id, or 0 when none has them.
proof fn lemma_deleted_size_is_the_last_match(batch: Seq<S3Object>, d: DeletedView)
    ensures
        (forall|j: int| 0 <= j < batch.len() ==> !#[trigger] names_deleted(batch, j, d)) ==> deleted_size(batch, d)
            == 0,
        forall|j: int|
            0 <= j < batch.len() && #[trigger] names_deleted(batch, j, d) && (forall|j2: int|
                j < j2 < batch.len() ==> !names_deleted(batch, j2, d)) ==> deleted_size(batch, d)
                == batch[j].size_spec() as u64,
{
    law_last_match_is_the_last_matching_object(batch, d.0, d.1);
    if let Some(i) = last_match(batch, d.0, d.1) {
        assert(names_deleted(batch, i, d));
        assert forall|j: int|
            0 <= j < batch.len() && #[trigger] names_deleted(batch, j, d) && (forall|j2: int|
                j < j2 < batch.len() ==> !names_deleted(batch, j2, d)) implies deleted_size(batch, d)
            == batch[j].size_spec() as u64 by {
            if j < i {
                assert(names_deleted(batch, i, d));
            } else if j > i {
                assert(batch[j].key_spec() == d.0 && batch[j].version_id_spec() == d.1);
            }
        }
    } else {
        assert forall|j: int| 0 <= j < batch.len() implies !#[trigger] names_deleted(batch, j, d) by {
            assert(!(batch[j].key_spec() == d.0 && batch[j].version_id_spec() == d.1));
        }
    }
}

/// What the worker does after deleting a batch, for any result: each
/// deleted key, in order, gets a summary count and a `DeleteBytes`
/// statistic of the same size (the size of its object in the batch), its
/// `DeleteComplete` statistic and a `DELETE_COMPLETE` event of that size;
/// then each failed key gets a failed count, a `DeleteWarning` statistic
/// and a `DELETE_FAILED` event; last, when nothing failed the whole batch
/// is forwarded in order, when something failed the warning flag is set
/// and, with `--warn-as-error`, the pipeline is cancelled and nothing is
/// forwarded.
pub proof fn law_batch_actions_report_every_key(
    batch: Seq<S3Object>,
    ds: Seq<DeletedView>,
    fs: Seq<FailedView>,
    dry_run: bool,
    warn_as_error: bool,
)
    ensures
        ({
            let acts = batch_actions(batch, ds, fs, dry_run, warn_as_error);
            let tail: int = (4 * ds.len() + 3 * fs.len()) as int;
            &&& forall|k: int| 0 <= k < ds.len() ==> reports_deleted_key(acts, 4 * k, batch, #[trigger] ds[k], dry_run)
            &&& forall|k: int| 0 <= k < fs.len() ==> reports_failed_key(acts, 4 * ds.len() + 3 * k, #[trigger] fs[k], dry_run)
            &&& fs.len() == 0 ==> acts.len() == tail + batch.len() && forall|i: int|
                0 <= i < batch.len() ==> acts[tail + i] == ActionView::Forward(#[trigger] batch[i])
            &&& fs.len() > 0 && warn_as_error ==> acts.len() == tail + 2 && acts[tail] == ActionView::SetWarning
                && acts[tail + 1] == ActionView::Cancel
            &&& fs.len() > 0 && !warn_as_error ==> acts.len() == tail + 1 + batch.len() && acts[tail]
                == ActionView::SetWarning && forall|i: int|
                0 <= i < batch.len() ==> acts[tail + 1 + i] == ActionView::Forward(#[trigger] batch[i])
        }),
{
    let acts = batch_actions(batch, ds, fs, dry_run, warn_as_error);
    assert forall|k: int| 0 <= k < ds.len() implies reports_deleted_key(
        acts,
        4 * k,
        batch,
        #[trigger] ds[k],
        dry_run,
    ) by {
        lemma_deleted_key_reported(batch, ds, fs, dry_run, warn_as_error, k);
    }
    assert forall|k: int| 0 <= k < fs.len() implies reports_failed_key(
        acts,
        4 * ds.len() + 3 * k,
        #[trigger] fs[k],
        dry_run,
    ) by {
        lemma_failed_key_reported(batch, ds, fs, dry_run, warn_as_error, k);
    }
    lemma_batch_actions_tail(batch, ds, fs, dry_run, warn_as_error);
}

proof fn lemma_deleted_key_reported(
    batch: Seq<S3Object>,
    ds: Seq<DeletedView>,
    fs: Seq<FailedView>,
    dry_run: bool,
    warn_as_error: bool,
    k: int,
)
    requires
        0 <= k < ds.len(),
    ensures
        reports_deleted_key(batch_actions(batch, ds, fs, dry_run, warn_as_error), 4 * k, batch, ds[k], dry_run),
{
    let acts = batch_actions(batch, ds, fs, dry_run, warn_as_error);
    let da = all_deleted_actions(batch, ds, dry_run);
    lemma_deleted_actions_at(batch, ds, dry_run);
    let d = ds[k];
    lemma_deleted_size_is_the_last_match(batch, d);
    assert(4 * k + 3 < da.len()) by (nonlinear_arith)
        requires
            0 <= k < ds.len(),
            da.len() == 4 * ds.len(),
    ;
    let dk = deleted_key_actions(batch, d, dry_run);
    assert(acts[4 * k] == dk[0]);
    assert(acts[4 * k + 1] == dk[1]);
    assert(acts[4 * k + 2] == dk[2]);
    assert(acts[4 * k + 3] == dk[3]);
}

proof fn lemma_failed_key_reported(
    batch: Seq<S3Object>,
    ds: Seq<DeletedView>,
    fs: Seq<FailedView>,
    dry_run: bool,
    warn_as_error: bool,
    k: int,
)
    requires
        0 <= k < fs.len(),
    ensures
        reports_failed_key(batch_actions(batch, ds, fs, dry_run, warn_as_error), 4 * ds.len() + 3 * k, fs[k], dry_run),
{
    let acts = batch_actions(batch, ds, fs, dry_run, warn_as_error);
    let da = all_deleted_actions(batch, ds, dry_run);
    let fa = all_failed_actions(fs, dry_run);
    lemma_deleted_actions_at(batch, ds, dry_run);
    lemma_failed_actions_at(fs, dry_run);
    let f = fs[k];
    assert(3 * k + 2 < fa.len()) by (nonlinear_arith)
        requires
            0 <= k < fs.len(),
            fa.len() == 3 * fs.len(),
    ;
    let fk = failed_key_actions(f, dry_run);
    assert((da + fa)[4 * ds.len() + 3 * k] == fa[3 * k]);
    assert((da + fa)[4 * ds.len() + 3 * k + 1] == fa[3 * k + 1]);
    assert((da + fa)[4 * ds.len() + 3 * k + 2] == fa[3 * k + 2]);
    assert(acts[4 * ds.len() + 3 * k] == fk[0]);
    assert(acts[4 * ds.len() + 3 * k + 1] == fk[1]);
    assert(acts[4 * ds.len() + 3 * k + 2] == fk[2]);
}

proof fn lemma_batch_actions_tail(
    batch: Seq<S3Object>,
    ds: Seq<DeletedView>,
    fs: Seq<FailedView>,
    dry_run: bool,
    warn_as_error: bool,
)
    ensures
        ({
            let acts = batch_actions(batch, ds, fs, dry_run, warn_as_error);
            let tail: int = (4 * ds.len() + 3 * fs.len()) as int;
            &&& fs.len() == 0 ==> acts.len() == tail + batch.len() && forall|i: int|
                0 <= i < batch.len() ==> acts[tail + i] == ActionView::Forward(#[trigger] batch[i])
            &&& fs.len() > 0 && warn_as_error ==> acts.len() == tail + 2 && acts[tail] == ActionView::SetWarning
                && acts[tail + 1] == ActionView::Cancel
            &&& fs.len() > 0 && !warn_as_error ==> acts.len() == tail + 1 + batch.len() && acts[tail]
                == ActionView::SetWarning && forall|i: int|
                0 <= i < batch.len() ==> acts[tail + 1 + i] == ActionView::Forward(#[trigger] batch[i])
        }),
{
    lemma_deleted_actions_at(batch, ds, dry_run);
    lemma_failed_actions_at(fs, dry_run);
    let da = all_deleted_actions(batch, ds, dry_run);
    let fa = all_failed_actions(fs, dry_run);
    let head = da + fa;
    assert(head.len() == 4 * ds.len() + 3 * fs.len());
}

/// The deleted key of an object.
pub open spec fn deleted_view_of(o: S3Object) -> DeletedView {
    (o.key_spec(), o.version_id_spec())
}

impl ObjectDeleter {
    /// Takes the buffered objects for deletion, unless the buffer is empty
    /// or the pipeline was cancelled.
    pub fn take_batch(&mut self, cancelled: bool) -> (r: Option<Vec<S3Object>>)
        requires
            old(self).wf(),
        ensures
            final(self).wf(),
            final(self).config_spec() == old(self).config_spec(),
            final(self).callback_registered_spec() == old(self).callback_registered_spec(),
            if old(self)@.buffer.len() == 0 || cancelled {
                r is None && final(self)@ == old(self)@
            } else {
                &&& r matches Some(b) && b@ == old(self)@.buffer && 1 <= b@.len() <= old(self).batch_limit()
                &&& final(self)@ == (DeleterView { buffer: Seq::empty(), ..old(self)@ })
            },
    {
        if self.buffer.len() == 0 || cancelled {
            return None;
        }
        let mut batch: Vec<S3Object> = Vec::new();
        std::mem::swap(&mut batch, &mut self.buffer);
        Some(batch)
    }

    /// The result of a dry run: every object of the batch reported deleted,
    /// in order, with no API call.
    pub fn dry_run_result(&self, batch: &Vec<S3Object>) -> (r: DeleteResult)
        ensures
            deleted_views(r.deleted@) == batch@.map_values(|o: S3Object| deleted_view_of(o)),
            r.failed@.len() == 0,
    {
        let mut result = DeleteResult::new();
        let n = batch.len();
        for i in 0..n
            invariant
                n == batch.len(),
                result.failed@.len() == 0,
                deleted_views(result.deleted@) == batch@.take(i as int).map_values(|o: S3Object| deleted_view_of(o)),
        {
            let d = DeletedKey { key: batch[i].key().to_owned(), version_id: to_owned_opt(batch[i].version_id()) };
            result.deleted.push(d);
            proof {
                assert(batch@.take(i + 1).map_values(|o: S3Object| deleted_view_of(o)) =~= batch@.take(
                    i as int,
                ).map_values(|o: S3Object| deleted_view_of(o)).push(deleted_view_of(batch@[i as int])));
                assert(deleted_views(result.deleted@) =~= batch@.take(i + 1).map_values(
                    |o: S3Object| deleted_view_of(o),
                ));
            }
        }
        assert(batch@.take(n as int) =~= batch@);
        result
    }

    /// How to delete a batch taken from the buffer: a dry run reports every
    /// object deleted and makes no deletion call; otherwise a batch size
    /// above 1 deletes with `DeleteObjects` requests and a batch size of 0
    /// or 1 deletes the batch's one object with a `DeleteObject` call.
    pub fn plan_deletion(&self, batch: &Vec<S3Object>) -> (r: DeletionPlan)
        requires
            self.wf(),
            1 <= batch@.len() <= self.batch_limit(),
        ensures
            self.config_spec().dry_run ==> (r matches DeletionPlan::DryRun(res) && deleted_views(res.deleted@)
                == batch@.map_values(|o: S3Object| deleted_view_of(o)) && res.failed@.len() == 0),
            !self.config_spec().dry_run && self.config_spec().batch_size > 1 ==> (r matches DeletionPlan::Batch(
                run,
            ) && run.wf() && run@ == BatchRunView::initial(
                batch@,
                self.config_spec().batch_size,
                self.config_spec().if_match,
                self.config_spec().force_retry_config,
            )),
            !self.config_spec().dry_run && self.config_spec().batch_size <= 1 ==> (r matches DeletionPlan::Single(
                request,
            ) && request@ == single_request_of(batch@[0], self.config_spec().if_match)),
    {
        if self.config.dry_run {
            DeletionPlan::DryRun(self.dry_run_result(batch))
        } else if self.config.batch_size > 1 {
            let objects = batch.clone();
            proof {
                assert(objects@ =~= batch@);
            }
            DeletionPlan::Batch(
                BatchRun::new(objects, self.config.batch_size, self.config.if_match, self.config.force_retry_config),
            )
        } else {
            DeletionPlan::Single(SingleDeleter::new().request(batch, self.config.if_match))
        }
    }

    /// Everything to do after deleting `batch` with `result` (see
    /// `batch_actions`).
    pub fn finish_batch(&self, batch: &Vec<S3Object>, result: &DeleteResult) -> (r: Vec<DeleterAction>)
        ensures
            action_views(r@) == batch_actions(
                batch@,
                deleted_views(result.deleted@),
                failed_views(result.failed@),
                self.config_spec().dry_run,
                self.config_spec().warn_as_error,
            ),
    {
        let dry_run = self.config.dry_run;
        let ghost ds = deleted_views(result.deleted@);
        let ghost fs = failed_views(result.failed@);
        let mut actions: Vec<DeleterAction> = Vec::new();
        let n = result.deleted.len();
        for i in 0..n
            invariant
                n == result.deleted.len(),
                ds == deleted_views(result.deleted@),
                dry_run == self.config_spec().dry_run,
                action_views(actions@) == all_deleted_actions(batch@, ds.take(i as int), dry_run),
        {
            let dk = &result.deleted[i];
            let ghost d = ds[i as int];
            let found = find_last_match(batch, 0, batch.len(), dk.key.as_str(), opt_as_str(&dk.version_id));
            proof {
                assert(batch@.subrange(0, batch@.len() as int) =~= batch@);
            }
            let (size, last_modified) = match found {
                Some(f) => (batch[f].size() as u64, format_timestamp(batch[f].last_modified())),
                None => (0u64, String::new()),
            };
            let mut event = EventData::new(DELETE_COMPLETE);
            event.dry_run = dry_run;
            event.key = Some(dk.key.clone());
            event.version_id = clone_version(&dk.version_id);
            event.size = Some(size);
            event.last_modified = Some(last_modified);
            let ghost before = actions@;
            actions.push(DeleterAction::AddDeleted(size));
            actions.push(DeleterAction::SendStats(DeletionStatistics::DeleteComplete { key: dk.key.clone() }));
            actions.push(DeleterAction::SendStats(DeletionStatistics::DeleteBytes(size)));
            actions.push(DeleterAction::TriggerEvent(event));
            proof {
                assert(ds.take(i + 1).drop_last() =~= ds.take(i as int));
                assert(ds.take(i + 1).last() == d);
                assert(action_views(actions@) =~= action_views(before) + deleted_key_actions(batch@, d, dry_run));
            }
        }
        assert(ds.take(n as int) =~= ds);
        let m = result.failed.len();
        let ghost after_deleted = action_views(actions@);
        for j in 0..m
            invariant
                m == result.failed.len(),
                fs == failed_views(result.failed@),
                dry_run == self.config_spec().dry_run,
                action_views(actions@) == after_deleted + all_failed_actions(fs.take(j as int), dry_run),
        {
            let fk = &result.failed[j];
            let ghost f = fs[j as int];
            let mut error_message = fk.error_code.clone();
            error_message.append(": ");
            error_message.append(fk.error_message.as_str());
            let mut event = EventData::new(DELETE_FAILED);
            event.dry_run = dry_run;
            event.key = Some(fk.key.clone());
            event.version_id = clone_version(&fk.version_id);
            event.error_message = Some(error_message);
            let ghost before = actions@;
            actions.push(DeleterAction::AddFailed);
            actions.push(DeleterAction::SendStats(DeletionStatistics::DeleteWarning { key: fk.key.clone() }));
            actions.push(DeleterAction::TriggerEvent(event));
            proof {
                assert(fs.take(j + 1).drop_last() =~= fs.take(j as int));
                assert(fs.take(j + 1).last() == f);
                assert(action_views(actions@) =~= action_views(before) + failed_key_actions(f, dry_run));
                assert(all_failed_actions(fs.take(j + 1), dry_run) =~= all_failed_actions(fs.take(j as int), dry_run)
                    + failed_key_actions(f, dry_run));
            }
        }
        assert(fs.take(m as int) =~= fs);
        let ghost prefix = action_views(actions@);
        if m > 0 {
            actions.push(DeleterAction::SetWarning);
            if self.config.warn_as_error {
                actions.push(DeleterAction::Cancel);
                proof {
                    assert(action_views(actions@) =~= prefix + seq![ActionView::SetWarning, ActionView::Cancel]);
                }
                return actions;
            }
        }
        let ghost head = action_views(actions@);
        let k = batch.len();
        for t in 0..k
            invariant
                k == batch.len(),
                action_views(actions@) == head + forward_actions(batch@.take(t as int)),
        {
            let ghost before = actions@;
            actions.push(DeleterAction::Forward(batch[t].clone()));
            proof {
                assert(action_views(actions@) =~= action_views(before).push(ActionView::Forward(batch@[t as int])));
                assert(forward_actions(batch@.take(t + 1)) =~= forward_actions(batch@.take(t as int)).push(
                    ActionView::Forward(batch@[t as int]),
                ));
            }
        }
        proof {
            assert(batch@.take(k as int) =~= batch@);
            if m > 0 {
                assert(head =~= prefix + seq![ActionView::SetWarning]);
            }
        }
        actions
    }
}

/// Copies an optional version id.
fn clone_version(v: &Option<String>) -> (r: Option<String>)
    ensures
        opt_view(r) == opt_view(*v),
{
    match v {
        Some(s) => Some(s.clone()),
        None => None,
    }
}

} // verus!
