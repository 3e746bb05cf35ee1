//! Filter stages of the deletion pipeline.
//!
//! Each filter is a named predicate over a listed object and the filter
//! configuration. Filters are chained with AND semantics: an object reaches
//! the deleter only if every configured filter passes it. An object that a
//! filter rejects is skipped: a `DeleteSkip` statistic is sent and, when an
//! event callback is registered, a `DELETE_FILTERED` event.

use vstd::prelude::*;

use crate::config::FilterConfig;
use crate::event::{EventData, EventView, DELETE_FILTERED};
use crate::regex::regex_is_match;
use crate::time::{
    format_timestamp, timestamp_text, timestamp_to_utc, to_utc, utc_le, utc_lt, utc_time_lt, UtcTime,
};
use crate::types::{to_owned_opt, DeletionStatistics, S3Object, StatsView};

verus! {

// ---------------------------------------------------------------------------
// Predicates
// ---------------------------------------------------------------------------

/// Passes delete markers, and objects whose size is at least `larger_size`.
pub open spec fn larger_or_equal_spec(object: S3Object, larger_size: Option<u64>) -> bool {
    ||| object.is_delete_marker_spec()
    ||| (larger_size is Some && object.size_spec() >= 0 && object.size_spec() >= larger_size->0)
}

/// The larger-size filter: delete markers always pass (they have no
/// meaningful size); an object passes when its size is at least the
/// configured threshold. Without a threshold, or with a negative size, the
/// object is skipped to be safe.
pub fn is_larger_or_equal(object: &S3Object, config: &FilterConfig) -> (r: bool)
    ensures
        r == larger_or_equal_spec(*object, config.larger_size),
{
    if object.is_delete_marker() {
        return true;
    }
    let larger_size = match config.larger_size {
        Some(s) => s,
        None => {
            return false;
        },
    };
    let object_size = object.size();
    if object_size < 0 {
        return false;
    }
    if (object_size as u64) < larger_size {
        return false;
    }
    true
}

/// Passes delete markers, and objects whose size is below `smaller_size`
/// (compared as a signed 64-bit value, as the threshold is converted).
pub open spec fn smaller_spec(object: S3Object, smaller_size: u64) -> bool {
    object.is_delete_marker_spec() || object.size_spec() < (smaller_size as i64)
}

/// The smaller-size filter: delete markers always pass; an object passes
/// when its size is strictly below the configured threshold. The threshold
/// must be set unless the object is a delete marker.
pub fn is_smaller(object: &S3Object, config: &FilterConfig) -> (r: bool)
    requires
        object.is_delete_marker_spec() || config.smaller_size is Some,
    ensures
        r == smaller_spec(*object, config.smaller_size->0),
{
    if object.is_delete_marker() {
        return true;
    }
    let threshold = match config.smaller_size {
        Some(s) => s,
        None => {
            return true;
        },
    };
    if object.size() >= threshold as i64 {
        return false;
    }
    true
}

/// The mtime-after filter passes an object whose last-modified instant is at
/// or after the configured time. Defined when the time is configured and the
/// last-modified instant converts to UTC.
pub open spec fn after_or_equal_spec(object: S3Object, after_time: Option<UtcTime>) -> Option<bool> {
    match (after_time, timestamp_to_utc(object.last_modified_spec())) {
        (Some(after), Some(t)) => Some(!utc_lt(t, after)),
        _ => None,
    }
}

/// The mtime-after filter. The time must be configured and the object's
/// last-modified instant must convert to UTC.
pub fn is_after_or_equal(object: &S3Object, config: &FilterConfig) -> (r: bool)
    requires
        after_or_equal_spec(*object, config.after_time) is Some,
    ensures
        Some(r) == after_or_equal_spec(*object, config.after_time),
{
    match is_after_or_equal_checked(object, config) {
        Some(b) => b,
        None => false,
    }
}

/// The mtime-after filter on every input: `None` where the time is not
/// configured or the last-modified instant does not convert to UTC.
pub fn is_after_or_equal_checked(object: &S3Object, config: &FilterConfig) -> (r: Option<bool>)
    ensures
        r == after_or_equal_spec(*object, config.after_time),
{
    let after = match config.after_time {
        Some(t) => t,
        None => {
            return None;
        },
    };
    let last_modified = match to_utc(object.last_modified()) {
        Some(t) => t,
        None => {
            return None;
        },
    };
    if utc_time_lt(&last_modified, &after) {
        return Some(false);
    }
    Some(true)
}

/// The mtime-before filter passes an object whose last-modified instant is
/// strictly before the configured time.
pub open spec fn before_spec(object: S3Object, before_time: Option<UtcTime>) -> bool {
    match (before_time, timestamp_to_utc(object.last_modified_spec())) {
        (Some(before), Some(t)) => utc_lt(t, before),
        _ => false,
    }
}

/// The mtime-before filter. Without a configured time, or when the
/// last-modified instant does not convert to UTC, the object is skipped to
/// be safe.
pub fn is_before(object: &S3Object, config: &FilterConfig) -> (r: bool)
    ensures
        r == before_spec(*object, config.before_time),
{
    let before_time = match config.before_time {
        Some(t) => t,
        None => {
            return false;
        },
    };
    let last_modified = match to_utc(object.last_modified()) {
        Some(t) => t,
        None => {
            return false;
        },
    };
    if !utc_time_lt(&last_modified, &before_time) {
        return false;
    }
    true
}

/// The include-regex filter passes an object whose key matches the regex.
pub open spec fn include_match_spec(object: S3Object, config: FilterConfig) -> bool {
    match config.include_regex {
        Some(re) => regex_is_match(re.pattern_spec(), re.limit_spec(), object.key_spec()) == Some(true),
        None => false,
    }
}

/// The include-regex filter. Without a regex, or when matching fails at run
/// time, the object is skipped to be safe.
pub fn is_match(object: &S3Object, config: &FilterConfig) -> (r: bool)
    ensures
        r == include_match_spec(*object, *config),
{
    match &config.include_regex {
        Some(re) => match re.is_match(object.key()) {
            Some(matched) => matched,
            None => false,
        },
        None => false,
    }
}

/// The exclude-regex filter passes an object whose key does not match the
/// regex.
pub open spec fn exclude_no_match_spec(object: S3Object, config: FilterConfig) -> bool {
    match config.exclude_regex {
        Some(re) => regex_is_match(re.pattern_spec(), re.limit_spec(), object.key_spec()) == Some(false),
        None => false,
    }
}

/// The exclude-regex filter. Without a regex, or when matching fails at run
/// time, the object is skipped to be safe.
pub fn is_not_match(object: &S3Object, config: &FilterConfig) -> (r: bool)
    ensures
        r == exclude_no_match_spec(*object, *config),
{
    match &config.exclude_regex {
        Some(re) => match re.is_match(object.key()) {
            Some(matched) => !matched,
            None => false,
        },
        None => false,
    }
}

/// The key regex filters: an object passes the include filter only when
/// its regex matches the key and the exclude filter only when its regex
/// does not match it, so that the two filters with one pattern never both
/// pass an object; when matching fails at run time, or a filter has no
/// regex, neither passes it.
pub proof fn law_key_regex_filters(object: S3Object, config: FilterConfig)
    ensures
        include_match_spec(object, config) ==> (config.include_regex matches Some(re) && regex_is_match(
            re.pattern_spec(),
            re.limit_spec(),
            object.key_spec(),
        ) == Some(true)),
        exclude_no_match_spec(object, config) ==> (config.exclude_regex matches Some(re) && regex_is_match(
            re.pattern_spec(),
            re.limit_spec(),
            object.key_spec(),
        ) == Some(false)),
        (config.include_regex matches Some(a) && config.exclude_regex matches Some(b) && a.pattern_spec()
            == b.pattern_spec() && a.limit_spec() == b.limit_spec()) ==> !(include_match_spec(object, config)
            && exclude_no_match_spec(object, config)),
        (config.include_regex matches Some(re) && regex_is_match(re.pattern_spec(), re.limit_spec(), object.key_spec())
            is None) ==> !include_match_spec(object, config),
        (config.exclude_regex matches Some(re) && regex_is_match(re.pattern_spec(), re.limit_spec(), object.key_spec())
            is None) ==> !exclude_no_match_spec(object, config),
{
}

/// The keep-latest-only filter passes object versions and delete markers
/// that are not the latest; latest versions, and objects listed without
/// versions, are kept.
pub open spec fn not_latest_spec(object: S3Object) -> bool {
    !object.is_latest_spec() && !(object is NotVersioning)
}

/// The keep-latest-only filter.
pub fn is_not_latest(object: &S3Object, _config: &FilterConfig) -> (r: bool)
    ensures
        r == not_latest_spec(*object),
{
    if object.is_latest() || matches!(object, S3Object::NotVersioning(_)) {
        return false;
    }
    true
}

/// The delete-marker-only filter passes delete markers only.
pub fn is_delete_marker(object: &S3Object, _config: &FilterConfig) -> (r: bool)
    ensures
        r == object.is_delete_marker_spec(),
{
    if !object.is_delete_marker() {
        return false;
    }
    true
}

// ---------------------------------------------------------------------------
// The shared filter stage
// ---------------------------------------------------------------------------

/// What a filter stage does with one received object.
#[derive(Debug)]
pub enum FilterOutcome {
    /// Send the object to the next stage.
    Forward,
    /// Drop the object: send `stats`, and trigger `event` when present.
    Skip { stats: DeletionStatistics, event: Option<EventData> },
}

/// The `DELETE_FILTERED` event of an object rejected by the filter `name`.
pub open spec fn filtered_event(object: S3Object, name: Seq<char>) -> EventView {
    EventView {
        key: Some(object.key_spec()),
        version_id: object.version_id_spec(),
        size: Some(object.size_spec() as u64),
        last_modified: Some(timestamp_text(object.last_modified_spec())),
        message: Some("Object filtered by "@ + name),
        ..EventView::of_type(DELETE_FILTERED)
    }
}

/// The outcome of a filter stage for an object, given whether the filter
/// passed it and whether an event callback is registered.
pub open spec fn filter_outcome_spec(
    outcome: FilterOutcome,
    object: S3Object,
    name: Seq<char>,
    passed: bool,
    callback_registered: bool,
) -> bool {
    if passed {
        outcome is Forward
    } else {
        match outcome {
            FilterOutcome::Skip { stats, event } => {
                &&& stats@ == StatsView::DeleteSkip(object.key_spec())
                &&& (callback_registered <==> event is Some)
                &&& (event matches Some(e) ==> e@ == filtered_event(object, name))
            },
            FilterOutcome::Forward => false,
        }
    }
}

/// Builds the `DELETE_FILTERED` event of an object rejected by a filter.
pub fn make_filtered_event(object: &S3Object, name: &str) -> (e: EventData)
    ensures
        e@ == filtered_event(*object, name@),
{
    let mut event_data = EventData::new(DELETE_FILTERED);
    event_data.key = Some(object.key().to_owned());
    event_data.version_id = to_owned_opt(object.version_id());
    event_data.size = Some(object.size() as u64);
    event_data.last_modified = Some(format_timestamp(object.last_modified()));
    let mut message = String::from_str("Object filtered by ");
    message.append(name);
    event_data.message = Some(message);
    event_data
}

/// The receive-and-filter step shared by all simple filters.
pub struct ObjectFilterBase {
    name: &'static str,
}

impl ObjectFilterBase {
    pub closed spec fn name_spec(&self) -> Seq<char> {
        self.name@
    }

    pub fn new(name: &'static str) -> (r: Self)
        ensures
            r.name_spec() == name@,
    {
        ObjectFilterBase { name }
    }

    /// The filter's name, as it appears in skip events.
    pub fn name(&self) -> (r: &str)
        ensures
            r@ == self.name_spec(),
    {
        self.name
    }

    /// Decides what happens to `object` once the filter predicate gave
    /// `passed`: forward it, or skip it with a statistic and, when an event
    /// callback is registered, a `DELETE_FILTERED` event.
    pub fn decide(&self, object: &S3Object, passed: bool, callback_registered: bool) -> (r: FilterOutcome)
        ensures
            filter_outcome_spec(r, *object, self.name_spec(), passed, callback_registered),
    {
        if passed {
            return FilterOutcome::Forward;
        }
        let stats = DeletionStatistics::DeleteSkip { key: object.key().to_owned() };
        let event = if callback_registered {
            Some(make_filtered_event(object, self.name))
        } else {
            None
        };
        FilterOutcome::Skip { stats, event }
    }
}

/// What a filter stage does next.
#[derive(Debug)]
pub enum StageStep {
    /// Stop the stage: the pipeline was cancelled or the input is closed.
    Stop,
    /// Send the object to the next stage.
    Forward(S3Object),
    /// Drop the object: send `stats`, and trigger `event` when present.
    Skip { stats: DeletionStatistics, event: Option<EventData> },
}

/// The step of a received object given its filter outcome.
pub open spec fn step_of(object: S3Object, outcome: FilterOutcome) -> StageStep {
    match outcome {
        FilterOutcome::Forward => StageStep::Forward(object),
        FilterOutcome::Skip { stats, event } => StageStep::Skip { stats, event },
    }
}

/// One turn of a filter stage's loop: a cancelled pipeline stops the stage
/// before anything else, a closed input stops it, and a received object is
/// decided by `decide` (called once, on that object) and forwarded as it is
/// or skipped.
pub fn filter_stage_step<F: Fn(&S3Object) -> FilterOutcome>(
    cancelled: bool,
    received: Option<S3Object>,
    decide: F,
) -> (r: StageStep)
    requires
        received matches Some(o) ==> decide.requires((&o,)),
    ensures
        cancelled ==> r is Stop,
        !cancelled && received is None ==> r is Stop,
        !cancelled ==> (received matches Some(o) ==> exists|outcome: FilterOutcome|
            decide.ensures((&o,), outcome) && r == #[trigger] step_of(o, outcome)),
{
    if cancelled {
        return StageStep::Stop;
    }
    match received {
        None => StageStep::Stop,
        Some(object) => {
            let outcome = decide(&object);
            let ghost o = object;
            let ghost out = outcome;
            let r = match outcome {
                FilterOutcome::Forward => StageStep::Forward(object),
                FilterOutcome::Skip { stats, event } => StageStep::Skip { stats, event },
            };
            assert(decide.ensures((&o,), out) && r == step_of(o, out));
            r
        },
    }
}

/// The objects that a run of stage steps sends on, in order.
pub open spec fn forwarded_objects(steps: Seq<StageStep>) -> Seq<S3Object>
    decreases steps.len(),
{
    if steps.len() == 0 {
        Seq::empty()
    } else {
        let rest = forwarded_objects(steps.drop_last());
        match steps.last() {
            StageStep::Forward(o) => rest.push(o),
            _ => rest,
        }
    }
}

/// The objects whose filter outcome is `Forward`, in order.
pub open spec fn passing_objects(objects: Seq<S3Object>, outcomes: Seq<FilterOutcome>) -> Seq<S3Object>
    decreases objects.len(),
{
    if objects.len() == 0 || outcomes.len() != objects.len() {
        Seq::empty()
    } else {
        let rest = passing_objects(objects.drop_last(), outcomes.drop_last());
        if outcomes.last() is Forward {
            rest.push(objects.last())
        } else {
            rest
        }
    }
}

/// A filter stage keeps the input order: when it receives `objects` one by
/// one without being cancelled, the objects it sends on are, in order,
/// exactly those whose outcome is `Forward`; the others are skipped.
pub proof fn law_stage_forwards_in_input_order(objects: Seq<S3Object>, outcomes: Seq<FilterOutcome>)
    requires
        outcomes.len() == objects.len(),
    ensures
        forwarded_objects(Seq::new(objects.len(), |i: int| step_of(objects[i], outcomes[i]))) == passing_objects(
            objects,
            outcomes,
        ),
    decreases objects.len(),
{
    let steps = Seq::new(objects.len(), |i: int| step_of(objects[i], outcomes[i]));
    if objects.len() > 0 {
        let os = objects.drop_last();
        let cs = outcomes.drop_last();
        law_stage_forwards_in_input_order(os, cs);
        assert(steps.drop_last() =~= Seq::new(os.len(), |i: int| step_of(os[i], cs[i])));
    }
}

// ---------------------------------------------------------------------------
// Filter stages
// ---------------------------------------------------------------------------

/// Passes objects of at least the configured size, and delete markers.
pub struct LargerSizeFilter {
    base: ObjectFilterBase,
}

impl LargerSizeFilter {
    pub fn new() -> (r: Self)
        ensures
            r.name_spec() == "LargerSizeFilter"@,
    {
        LargerSizeFilter { base: ObjectFilterBase::new("LargerSizeFilter") }
    }

    pub closed spec fn name_spec(&self) -> Seq<char> {
        self.base.name_spec()
    }

    /// Filters one object.
    pub fn filter_object(&self, object: &S3Object, config: &FilterConfig, callback_registered: bool) -> (r:
        FilterOutcome)
        ensures
            filter_outcome_spec(
                r,
                *object,
                self.name_spec(),
                larger_or_equal_spec(*object, config.larger_size),
                callback_registered,
            ),
    {
        let passed = is_larger_or_equal(object, config);
        self.base.decide(object, passed, callback_registered)
    }
}

/// Passes objects below the configured size, and delete markers.
pub struct SmallerSizeFilter {
    base: ObjectFilterBase,
}

impl SmallerSizeFilter {
    pub fn new() -> (r: Self)
        ensures
            r.name_spec() == "SmallerSizeFilter"@,
    {
        SmallerSizeFilter { base: ObjectFilterBase::new("SmallerSizeFilter") }
    }

    pub closed spec fn name_spec(&self) -> Seq<char> {
        self.base.name_spec()
    }

    /// Filters one object; the threshold must be configured unless the
    /// object is a delete marker.
    pub fn filter_object(&self, object: &S3Object, config: &FilterConfig, callback_registered: bool) -> (r:
        FilterOutcome)
        requires
            object.is_delete_marker_spec() || config.smaller_size is Some,
        ensures
            filter_outcome_spec(
                r,
                *object,
                self.name_spec(),
                smaller_spec(*object, config.smaller_size->0),
                callback_registered,
            ),
    {
        let passed = is_smaller(object, config);
        self.base.decide(object, passed, callback_registered)
    }
}

/// Passes objects modified at or after the configured time.
pub struct MtimeAfterFilter {
    base: ObjectFilterBase,
}

impl MtimeAfterFilter {
    pub fn new() -> (r: Self)
        ensures
            r.name_spec() == "MtimeAfterFilter"@,
    {
        MtimeAfterFilter { base: ObjectFilterBase::new("MtimeAfterFilter") }
    }

    pub closed spec fn name_spec(&self) -> Seq<char> {
        self.base.name_spec()
    }

    /// Filters one object; `None` where the time is not configured or the
    /// object's last-modified instant does not convert to UTC.
    pub fn filter_object(&self, object: &S3Object, config: &FilterConfig, callback_registered: bool) -> (r:
        Option<FilterOutcome>)
        ensures
            r is Some <==> after_or_equal_spec(*object, config.after_time) is Some,
            r matches Some(o) ==> filter_outcome_spec(
                o,
                *object,
                self.name_spec(),
                after_or_equal_spec(*object, config.after_time)->0,
                callback_registered,
            ),
    {
        match is_after_or_equal_checked(object, config) {
            Some(passed) => Some(self.base.decide(object, passed, callback_registered)),
            None => None,
        }
    }
}

/// Passes objects modified strictly before the configured time.
pub struct MtimeBeforeFilter {
    base: ObjectFilterBase,
}

impl MtimeBeforeFilter {
    pub fn new() -> (r: Self)
        ensures
            r.name_spec() == "MtimeBeforeFilter"@,
    {
        MtimeBeforeFilter { base: ObjectFilterBase::new("MtimeBeforeFilter") }
    }

    pub closed spec fn name_spec(&self) -> Seq<char> {
        self.base.name_spec()
    }

    /// Filters one object.
    pub fn filter_object(&self, object: &S3Object, config: &FilterConfig, callback_registered: bool) -> (r:
        FilterOutcome)
        ensures
            filter_outcome_spec(
                r,
                *object,
                self.name_spec(),
                before_spec(*object, config.before_time),
                callback_registered,
            ),
    {
        let passed = is_before(object, config);
        self.base.decide(object, passed, callback_registered)
    }
}

/// Passes objects whose key matches the include regex.
pub struct IncludeRegexFilter {
    base: ObjectFilterBase,
}

impl IncludeRegexFilter {
    pub fn new() -> (r: Self)
        ensures
            r.name_spec() == "IncludeRegexFilter"@,
    {
        IncludeRegexFilter { base: ObjectFilterBase::new("IncludeRegexFilter") }
    }

    pub closed spec fn name_spec(&self) -> Seq<char> {
        self.base.name_spec()
    }

    /// Filters one object.
    pub fn filter_object(&self, object: &S3Object, config: &FilterConfig, callback_registered: bool) -> (r:
        FilterOutcome)
        ensures
            filter_outcome_spec(
                r,
                *object,
                self.name_spec(),
                include_match_spec(*object, *config),
                callback_registered,
            ),
    {
        let passed = is_match(object, config);
        self.base.decide(object, passed, callback_registered)
    }
}

/// Passes objects whose key does not match the exclude regex.
pub struct ExcludeRegexFilter {
    base: ObjectFilterBase,
}

impl ExcludeRegexFilter {
    pub fn new() -> (r: Self)
        ensures
            r.name_spec() == "ExcludeRegexFilter"@,
    {
        ExcludeRegexFilter { base: ObjectFilterBase::new("ExcludeRegexFilter") }
    }

    pub closed spec fn name_spec(&self) -> Seq<char> {
        self.base.name_spec()
    }

    /// Filters one object.
    pub fn filter_object(&self, object: &S3Object, config: &FilterConfig, callback_registered: bool) -> (r:
        FilterOutcome)
        ensures
            filter_outcome_spec(
                r,
                *object,
                self.name_spec(),
                exclude_no_match_spec(*object, *config),
                callback_registered,
            ),
    {
        let passed = is_not_match(object, config);
        self.base.decide(object, passed, callback_registered)
    }
}

/// Passes non-latest versions and delete markers, keeping the latest
/// version of each object.
pub struct KeepLatestOnlyFilter {
    base: ObjectFilterBase,
}

impl KeepLatestOnlyFilter {
    pub fn new() -> (r: Self)
        ensures
            r.name_spec() == "KeepLatestOnlyFilter"@,
    {
        KeepLatestOnlyFilter { base: ObjectFilterBase::new("KeepLatestOnlyFilter") }
    }

    pub closed spec fn name_spec(&self) -> Seq<char> {
        self.base.name_spec()
    }

    /// Filters one object.
    pub fn filter_object(&self, object: &S3Object, config: &FilterConfig, callback_registered: bool) -> (r:
        FilterOutcome)
        ensures
            filter_outcome_spec(r, *object, self.name_spec(), not_latest_spec(*object), callback_registered),
    {
        let passed = is_not_latest(object, config);
        self.base.decide(object, passed, callback_registered)
    }
}

/// Passes delete markers only.
pub struct DeleteMarkerOnlyFilter {
    base: ObjectFilterBase,
}

impl DeleteMarkerOnlyFilter {
    pub fn new() -> (r: Self)
        ensures
            r.name_spec() == "DeleteMarkerOnlyFilter"@,
    {
        DeleteMarkerOnlyFilter { base: ObjectFilterBase::new("DeleteMarkerOnlyFilter") }
    }

    pub closed spec fn name_spec(&self) -> Seq<char> {
        self.base.name_spec()
    }

    /// Filters one object.
    pub fn filter_object(&self, object: &S3Object, config: &FilterConfig, callback_registered: bool) -> (r:
        FilterOutcome)
        ensures
            filter_outcome_spec(
                r,
                *object,
                self.name_spec(),
                object.is_delete_marker_spec(),
                callback_registered,
            ),
    {
        let passed = is_delete_marker(object, config);
        self.base.decide(object, passed, callback_registered)
    }
}

/// The user-defined filter stage: it asks the registered filter callback
/// about each object.
pub struct UserDefinedFilter {}

/// What the user-defined filter stage does with an object.
#[derive(Debug)]
pub enum UserFilterStep {
    /// Send the object to the next stage.
    Forward(S3Object),
    /// Drop the object and send this statistic.
    Skip(DeletionStatistics),
    /// The callback failed: cancel the pipeline and stop with this error.
    Cancel(String),
}

impl UserDefinedFilter {
    pub fn new() -> (r: Self) {
        UserDefinedFilter {  }
    }

    /// Filters one object when no filter callback is registered: every
    /// object is forwarded.
    pub fn filter_object(&self, _object: &S3Object) -> (r: FilterOutcome)
        ensures
            r is Forward,
    {
        FilterOutcome::Forward
    }

    /// Filters one object by the answer of the registered filter callback:
    /// `Ok(true)` forwards it, `Ok(false)` skips it with a `DeleteSkip`
    /// statistic, and an error cancels the pipeline with that error.
    pub fn after_callback(&self, object: S3Object, answer: Result<bool, String>) -> (r: UserFilterStep)
        ensures
            match answer {
                Ok(true) => r == UserFilterStep::Forward(object),
                Ok(false) => r matches UserFilterStep::Skip(s) && s@ == StatsView::DeleteSkip(object.key_spec()),
                Err(e) => r == UserFilterStep::Cancel(e),
            },
    {
        match answer {
            Ok(true) => UserFilterStep::Forward(object),
            Ok(false) => UserFilterStep::Skip(DeletionStatistics::DeleteSkip { key: object.key().to_owned() }),
            Err(e) => UserFilterStep::Cancel(e),
        }
    }
}

// ---------------------------------------------------------------------------
// Laws
// ---------------------------------------------------------------------------

/// Size range: chaining the larger-size filter (threshold `min`) and the
/// smaller-size filter (threshold `max`) passes an object of non-negative
/// size exactly when `min <= size < max`.
pub proof fn law_size_range(object: S3Object, min: u64, max: u64)
    requires
        !object.is_delete_marker_spec(),
        object.size_spec() >= 0,
        max <= i64::MAX,
    ensures
        larger_or_equal_spec(object, Some(min)) && smaller_spec(object, max) <==> min <= object.size_spec()
            < max,
{
}

/// Delete markers pass both size filters, whatever the thresholds.
pub proof fn law_delete_markers_pass_size_filters(object: S3Object, larger: Option<u64>, smaller: u64)
    requires
        object.is_delete_marker_spec(),
    ensures
        larger_or_equal_spec(object, larger),
        smaller_spec(object, smaller),
{
}

/// Time range: when the object's last-modified instant `t` converts to UTC,
/// chaining the mtime-after filter (time `start`) and the mtime-before
/// filter (time `end`) passes the object exactly when `start <= t < end`.
pub proof fn law_time_range(object: S3Object, start: UtcTime, end: UtcTime)
    requires
        timestamp_to_utc(object.last_modified_spec()) is Some,
    ensures
        ({
            let t = timestamp_to_utc(object.last_modified_spec())->0;
            after_or_equal_spec(object, Some(start)) == Some(utc_le(start, t)) && (before_spec(object, Some(end))
                <==> utc_lt(t, end))
        }),
{
}

/// The keep-latest-only and delete-marker-only filters never delete the
/// latest version of an object listed with versions, nor an object listed
/// without versions: keep-latest-only passes only non-latest entries, and
/// delete-marker-only passes only delete markers.
pub proof fn law_latest_versions_kept(object: S3Object)
    ensures
        not_latest_spec(object) ==> !object.is_latest_spec(),
        object is NotVersioning ==> !not_latest_spec(object),
        object is NotVersioning || object is Versioning ==> !object.is_delete_marker_spec(),
{
}

} // verus!
