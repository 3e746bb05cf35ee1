//! Batch deletion with the S3 `DeleteObjects` API.
//!
//! Objects are sent in chunks of at most the configured batch size (and at
//! most 1000, the S3 limit). Keys that a `DeleteObjects` call reports as
//! failed with a retryable error code fall back to single `DeleteObject`
//! calls, retried up to the configured number of extra attempts; other
//! failures are reported as failed keys.

use vstd::prelude::*;

use crate::config::ForceRetryConfig;
use crate::deleter::{deleted_views, failed_views, DeleteResult, DeletedKey, DeletedView, FailedKey, FailedView};
use crate::text::str_eq;
use crate::types::{clone_opt_string, opt_str_view, opt_view, to_owned_opt, DeletionStatistics, S3Object, StatsView};

verus! {

/// Maximum number of objects per `DeleteObjects` call (the S3 limit).
pub const MAX_BATCH_SIZE: usize = 1000;

/// Error codes of a `DeleteObjects` partial failure that are worth retrying
/// with single deletions: transient server errors, throttling, timeouts, and
/// an unknown code.
pub open spec fn retryable_code(code: Seq<char>) -> bool {
    ||| code == "InternalError"@
    ||| code == "SlowDown"@
    ||| code == "ServiceUnavailable"@
    ||| code == "RequestTimeout"@
    ||| code == "unknown"@
}

/// Decides whether a `DeleteObjects` error code is retryable.
pub fn is_retryable_error_code(code: &str) -> (r: bool)
    ensures
        r == retryable_code(code@),
{
    str_eq(code, "InternalError") || str_eq(code, "SlowDown") || str_eq(code, "ServiceUnavailable")
        || str_eq(code, "RequestTimeout") || str_eq(code, "unknown")
}

/// An entry of a `DeleteObjects` request.
#[derive(Debug)]
pub struct ObjectIdentifier {
    pub key: String,
    pub version_id: Option<String>,
    pub e_tag: Option<String>,
}

/// The view of an identifier: key, version id, and the ETag condition.
pub type IdentifierView = (Seq<char>, Option<Seq<char>>, Option<Seq<char>>);

impl View for ObjectIdentifier {
    type V = IdentifierView;

    open spec fn view(&self) -> IdentifierView {
        (self.key@, opt_view(self.version_id), opt_view(self.e_tag))
    }
}

/// The identifier of an object: its key and version id, and its ETag as a
/// deletion condition when `if_match` is set.
pub open spec fn identifier_of(o: S3Object, if_match: bool) -> IdentifierView {
    (o.key_spec(), o.version_id_spec(), if if_match { o.e_tag_spec() } else { None })
}

/// The identifiers of a sequence of objects.
pub open spec fn identifiers_of(objects: Seq<S3Object>, if_match: bool) -> Seq<IdentifierView> {
    objects.map_values(|o: S3Object| identifier_of(o, if_match))
}

/// Each identifier of a `DeleteObjects` request names its object exactly:
/// the object's own key and version id (so that a versioned object is
/// deleted as that version rather than hidden behind a delete marker), and
/// the object's ETag as a condition only when `if_match` is set; the
/// identifiers come in the order of the objects.
pub proof fn law_identifiers_name_their_objects(objects: Seq<S3Object>, if_match: bool)
    ensures
        identifiers_of(objects, if_match).len() == objects.len(),
        forall|i: int|
            0 <= i < objects.len() ==> {
                &&& (#[trigger] identifiers_of(objects, if_match)[i]).0 == objects[i].key_spec()
                &&& identifiers_of(objects, if_match)[i].1 == objects[i].version_id_spec()
                &&& if_match ==> identifiers_of(objects, if_match)[i].2 == objects[i].e_tag_spec()
                &&& !if_match ==> identifiers_of(objects, if_match)[i].2 is None
            },
{
}

/// The views of identifiers.
pub open spec fn identifier_views(v: Seq<ObjectIdentifier>) -> Seq<IdentifierView> {
    v.map_values(|i: ObjectIdentifier| i@)
}

/// The views of pending errors.
pub open spec fn pending_views(v: Seq<PendingError>) -> Seq<PendingView> {
    v.map_values(|e: PendingError| e@)
}

/// The pending errors of the failed keys of a response.
pub open spec fn pendings_of(v: Seq<ErrorEntry>) -> Seq<PendingView> {
    v.map_values(|e: ErrorEntry| pending_of(e))
}

/// The deleted keys of a response.
pub open spec fn deleteds_of(v: Seq<DeletedEntry>) -> Seq<DeletedView> {
    v.map_values(|e: DeletedEntry| deleted_of(e))
}

/// A key reported deleted by a `DeleteObjects` response.
#[derive(Debug)]
pub struct DeletedEntry {
    pub key: Option<String>,
    pub version_id: Option<String>,
}

/// A key reported failed by a `DeleteObjects` response.
#[derive(Debug)]
pub struct ErrorEntry {
    pub key: Option<String>,
    pub version_id: Option<String>,
    pub code: Option<String>,
    pub message: Option<String>,
}

/// A failed key of a response, missing fields filled in, awaiting a
/// decision.
#[derive(Debug)]
pub struct PendingError {
    pub key: String,
    pub version_id: Option<String>,
    pub code: String,
    pub message: String,
    pub retryable: bool,
}

/// The view of a pending error: key, version id, code, message, retryable.
pub type PendingView = (Seq<char>, Option<Seq<char>>, Seq<char>, Seq<char>, bool);

impl View for PendingError {
    type V = PendingView;

    open spec fn view(&self) -> PendingView {
        (self.key@, opt_view(self.version_id), self.code@, self.message@, self.retryable)
    }
}

/// The value of an optional text, or a default.
pub open spec fn or_default(o: Option<Seq<char>>, default: Seq<char>) -> Seq<char> {
    match o {
        Some(s) => s,
        None => default,
    }
}

/// A failed key of a response with missing key and code read as `unknown`
/// and a missing message as `no message`.
pub open spec fn pending_of(e: ErrorEntry) -> PendingView {
    let code = or_default(opt_view(e.code), "unknown"@);
    (
        or_default(opt_view(e.key), "unknown"@),
        opt_view(e.version_id),
        code,
        or_default(opt_view(e.message), "no message"@),
        retryable_code(code),
    )
}

/// The failed keys of a `DeleteObjects` response keep their identity and
/// error: each pending error has the key (`unknown` when missing), the
/// version id, the code (`unknown` when missing) and the message of its
/// response entry, in order; it is retried with single deletions exactly
/// when its code is a transient one (`InternalError`, `SlowDown`,
/// `ServiceUnavailable`, `RequestTimeout`) or missing; and the deleted keys
/// of the response keep their key and version id.
pub proof fn law_response_entries_keep_their_keys(errors: Seq<ErrorEntry>, deleted: Seq<DeletedEntry>)
    ensures
        pendings_of(errors).len() == errors.len(),
        forall|i: int|
            0 <= i < errors.len() ==> {
                let p = #[trigger] pendings_of(errors)[i];
                let e = errors[i];
                &&& (e.key matches Some(k) ==> p.0 == k@)
                &&& (e.key is None ==> p.0 == "unknown"@)
                &&& p.1 == opt_view(e.version_id)
                &&& (e.code matches Some(c) ==> p.2 == c@)
                &&& (e.code is None ==> p.2 == "unknown"@)
                &&& (e.message matches Some(m) ==> p.3 == m@)
                &&& (p.4 <==> (p.2 == "InternalError"@ || p.2 == "SlowDown"@ || p.2 == "ServiceUnavailable"@ || p.2
                    == "RequestTimeout"@ || p.2 == "unknown"@))
            },
        deleteds_of(deleted).len() == deleted.len(),
        forall|i: int|
            0 <= i < deleted.len() ==> {
                let d = #[trigger] deleteds_of(deleted)[i];
                &&& (deleted[i].key matches Some(k) ==> d.0 == k@)
                &&& d.1 == opt_view(deleted[i].version_id)
            },
{
}

/// A deleted key of a response, a missing key read as empty.
pub open spec fn deleted_of(e: DeletedEntry) -> DeletedView {
    (or_default(opt_view(e.key), Seq::empty()), opt_view(e.version_id))
}

/// The index of the last object of `objects` with the given key and version
/// id, if any.
pub open spec fn last_match(objects: Seq<S3Object>, key: Seq<char>, version_id: Option<Seq<char>>) -> Option<
    int,
>
    decreases objects.len(),
{
    if objects.len() == 0 {
        None
    } else if objects.last().key_spec() == key && objects.last().version_id_spec() == version_id {
        Some(objects.len() - 1)
    } else {
        last_match(objects.drop_last(), key, version_id)
    }
}

/// `last_match` finds the last object with the key and version id: the
/// index it gives holds such an object and no later one does, and `None`
/// means that no object has them.
pub proof fn law_last_match_is_the_last_matching_object(
    objects: Seq<S3Object>,
    key: Seq<char>,
    version_id: Option<Seq<char>>,
)
    ensures
        last_match(objects, key, version_id) matches Some(i) ==> {
            &&& 0 <= i < objects.len()
            &&& objects[i].key_spec() == key
            &&& objects[i].version_id_spec() == version_id
            &&& forall|j: int|
                i < j < objects.len() ==> !(#[trigger] objects[j].key_spec() == key && objects[j].version_id_spec()
                    == version_id)
        },
        last_match(objects, key, version_id) is None ==> forall|j: int|
            0 <= j < objects.len() ==> !(#[trigger] objects[j].key_spec() == key && objects[j].version_id_spec()
                == version_id),
    decreases objects.len(),
{
    if objects.len() > 0 {
        let rest = objects.drop_last();
        let n = objects.len() - 1;
        law_last_match_is_the_last_matching_object(rest, key, version_id);
        assert forall|j: int| 0 <= j < rest.len() implies #[trigger] rest[j] == objects[j] by {}
        if !(objects.last().key_spec() == key && objects.last().version_id_spec() == version_id) {
            assert(objects[n] == objects.last());
            assert(last_match(objects, key, version_id) == last_match(rest, key, version_id));
            if let Some(i) = last_match(rest, key, version_id) {
                assert forall|j: int| i < j < objects.len() implies !(#[trigger] objects[j].key_spec() == key
                    && objects[j].version_id_spec() == version_id) by {
                    if j < n {
                        assert(rest[j] == objects[j]);
                    }
                }
            } else {
                assert forall|j: int| 0 <= j < objects.len() implies !(#[trigger] objects[j].key_spec() == key
                    && objects[j].version_id_spec() == version_id) by {
                    if j < n {
                        assert(rest[j] == objects[j]);
                    }
                }
            }
        }
    }
}

/// The ETag condition of a single-object retry: the ETag of the last object
/// of the chunk with the failed key and version id, when `if_match` is set.
pub open spec fn retry_if_match(
    chunk: Seq<S3Object>,
    key: Seq<char>,
    version_id: Option<Seq<char>>,
    if_match: bool,
) -> Option<Seq<char>> {
    if !if_match {
        None
    } else {
        match last_match(chunk, key, version_id) {
            Some(i) => chunk[i].e_tag_spec(),
            None => None,
        }
    }
}

/// The end of the chunk that starts at `end`: `chunk_size` objects later,
/// or the end of the objects.
pub open spec fn next_chunk_end(end: nat, chunk_size: nat, n: nat) -> nat {
    if end + chunk_size <= n {
        end + chunk_size
    } else {
        n
    }
}

/// The end of the `k`-th chunk of `n` objects in chunks of `chunk_size`.
pub open spec fn chunk_end_after(chunk_size: nat, n: nat, k: nat) -> nat
    decreases k,
{
    if k == 0 {
        0
    } else {
        next_chunk_end(chunk_end_after(chunk_size, n, (k - 1) as nat), chunk_size, n)
    }
}

/// The chunks are consecutive: the `k`-th one ends after `k` full chunks,
/// or at the end of the objects, so that every chunk but the last holds
/// exactly `chunk_size` objects and none holds more.
pub proof fn law_chunk_end_after(chunk_size: nat, n: nat, k: nat)
    requires
        chunk_size >= 1,
    ensures
        chunk_end_after(chunk_size, n, k) == if k * chunk_size <= n {
            k * chunk_size
        } else {
            n
        },
    decreases k,
{
    if k > 0 {
        let j = (k - 1) as nat;
        law_chunk_end_after(chunk_size, n, j);
        assert(k * chunk_size == j * chunk_size + chunk_size) by (nonlinear_arith)
            requires
                k == j + 1,
        ;
        let p = j * chunk_size;
        let e = chunk_end_after(chunk_size, n, j);
        assert(chunk_end_after(chunk_size, n, k) == next_chunk_end(e, chunk_size, n));
        if p <= n {
            assert(e == p);
        } else {
            assert(e == n);
            assert(k * chunk_size > n);
        }
    } else {
        assert(k * chunk_size == 0) by (nonlinear_arith)
            requires
                k == 0,
        ;
    }
}

/// Every object is sent: after enough chunks (one more than the number of
/// full chunks) the chunks have reached the end of the objects.
pub proof fn law_chunks_cover_all_objects(chunk_size: nat, n: nat)
    requires
        chunk_size >= 1,
    ensures
        chunk_end_after(chunk_size, n, n / chunk_size + 1) == n,
{
    let k = n / chunk_size + 1;
    law_chunk_end_after(chunk_size, n, k);
    assert(k * chunk_size > n) by (nonlinear_arith)
        requires
            chunk_size >= 1,
            k == n / chunk_size + 1,
    ;
}

/// What the batch deletion asks of the S3 client next.
#[derive(Debug)]
pub enum BatchRequest {
    /// Call `DeleteObjects` with these identifiers, then report the response
    /// with `on_delete_objects` (or stop with the error on failure).
    DeleteObjects(Vec<ObjectIdentifier>),
    /// Wait `delay_milliseconds`, call `DeleteObject`, then report whether
    /// it succeeded with `on_delete_object`.
    DeleteObject { key: String, version_id: Option<String>, if_match: Option<String>, delay_milliseconds: u64 },
    /// Send this statistic, then ask again.
    SendStats(DeletionStatistics),
    /// The deletion is complete; take the result with `into_result`.
    Done,
}

/// What a batch deletion waits for.
#[derive(Debug, PartialEq, Eq, Structural)]
pub enum Awaiting {
    Nothing,
    ChunkResponse,
    SingleResponse,
}

/// The abstract state of a batch deletion.
pub struct BatchRunView {
    pub objects: Seq<S3Object>,
    pub chunk_size: nat,
    pub if_match: bool,
    pub max_attempts: nat,
    pub retry_interval: u64,
    pub chunk_start: nat,
    pub chunk_end: nat,
    pub errors: Seq<PendingView>,
    pub error_index: nat,
    pub attempt: nat,
    pub deleted: Seq<DeletedView>,
    pub failed: Seq<FailedView>,
    pub awaiting: Awaiting,
}

/// The state of one batch deletion of a sequence of objects.
pub struct BatchRun {
    objects: Vec<S3Object>,
    chunk_size: usize,
    if_match: bool,
    max_attempts: u64,
    retry_interval: u64,
    chunk_start: usize,
    chunk_end: usize,
    errors: Vec<PendingError>,
    error_index: usize,
    attempt: u64,
    result: DeleteResult,
    awaiting: Awaiting,
}

impl View for BatchRun {
    type V = BatchRunView;

    closed spec fn view(&self) -> BatchRunView {
        BatchRunView {
            objects: self.objects@,
            chunk_size: self.chunk_size as nat,
            if_match: self.if_match,
            max_attempts: self.max_attempts as nat,
            retry_interval: self.retry_interval,
            chunk_start: self.chunk_start as nat,
            chunk_end: self.chunk_end as nat,
            errors: pending_views(self.errors@),
            error_index: self.error_index as nat,
            attempt: self.attempt as nat,
            deleted: deleted_views(self.result.deleted@),
            failed: failed_views(self.result.failed@),
            awaiting: self.awaiting,
        }
    }
}

impl BatchRunView {
    /// The invariant of every batch deletion state.
    pub open spec fn wf(self) -> bool {
        &&& 1 <= self.chunk_size <= MAX_BATCH_SIZE
        &&& self.chunk_start <= self.chunk_end <= self.objects.len()
        &&& self.chunk_end - self.chunk_start <= self.chunk_size
        &&& self.error_index <= self.errors.len()
        &&& 1 <= self.max_attempts
        &&& self.attempt <= self.max_attempts
        &&& (self.awaiting == Awaiting::SingleResponse ==> self.error_index < self.errors.len()
            && self.attempt < self.max_attempts && self.errors[self.error_index as int].4)
        &&& (self.awaiting == Awaiting::ChunkResponse ==> self.errors.len() == 0 && self.error_index == 0
            && self.attempt == 0)
    }

    /// The state of a batch deletion that has not sent anything yet.
    pub open spec fn initial(objects: Seq<S3Object>, batch_size: u16, if_match: bool, retry: ForceRetryConfig) -> BatchRunView {
        BatchRunView {
            objects,
            chunk_size: if batch_size as nat <= MAX_BATCH_SIZE {
                batch_size as nat
            } else {
                MAX_BATCH_SIZE as nat
            },
            if_match,
            max_attempts: (retry.force_retry_count + 1) as nat,
            retry_interval: retry.force_retry_interval_milliseconds,
            chunk_start: 0,
            chunk_end: 0,
            errors: Seq::empty(),
            error_index: 0,
            attempt: 0,
            deleted: Seq::empty(),
            failed: Seq::empty(),
            awaiting: Awaiting::Nothing,
        }
    }

    /// The objects of the current chunk.
    pub open spec fn chunk(self) -> Seq<S3Object> {
        self.objects.subrange(self.chunk_start as int, self.chunk_end as int)
    }
}

impl BatchRun {
    closed spec fn inv(&self) -> bool {
        &&& self@.wf()
        &&& self.max_attempts as nat == self@.max_attempts
        &&& self.errors@.len() == self@.errors.len()
    }

    /// The state invariant holds.
    pub closed spec fn wf(&self) -> bool {
        self.inv()
    }

    /// Starts the batch deletion of `objects` with chunks of
    /// `min(batch_size, 1000)` objects. The batch size must be positive and
    /// the retry count below `u64::MAX`.
    pub fn new(objects: Vec<S3Object>, batch_size: u16, if_match: bool, retry: ForceRetryConfig) -> (r: BatchRun)
        requires
            batch_size >= 1,
        ensures
            r.wf(),
            r@ == BatchRunView::initial(objects@, batch_size, if_match, retry),
    {
        let chunk_size = if (batch_size as usize) <= MAX_BATCH_SIZE {
            batch_size as usize
        } else {
            MAX_BATCH_SIZE
        };
        let run = BatchRun {
            objects,
            chunk_size,
            if_match,
            max_attempts: retry.force_retry_count as u64 + 1,
            retry_interval: retry.force_retry_interval_milliseconds,
            chunk_start: 0,
            chunk_end: 0,
            errors: Vec::new(),
            error_index: 0,
            attempt: 0,
            result: DeleteResult::new(),
            awaiting: Awaiting::Nothing,
        };
        proof {
            assert(run@.deleted =~= Seq::<DeletedView>::empty());
            assert(run@.failed =~= Seq::<FailedView>::empty());
            assert(run@.errors =~= Seq::<PendingView>::empty());
        }
        run
    }
}

/// Deletes objects in chunks with the S3 `DeleteObjects` API.
#[derive(Debug)]
pub struct BatchDeleter {}

impl BatchDeleter {
    /// Creates a batch deleter.
    pub fn new() -> (r: Self) {
        BatchDeleter {  }
    }

    /// Starts the batch deletion of `objects` with the configured batch
    /// size, ETag conditions and single-deletion retries. The batch size
    /// must be positive.
    pub fn start(&self, objects: Vec<S3Object>, batch_size: u16, if_match: bool, retry: ForceRetryConfig) -> (r:
        BatchRun)
        requires
            batch_size >= 1,
        ensures
            r.wf(),
            r@ == BatchRunView::initial(objects@, batch_size, if_match, retry),
    {
        BatchRun::new(objects, batch_size, if_match, retry)
    }
}

/// A batch deletion starts with nothing deleted, failed or awaited, and its
/// first request is the `DeleteObjects` call of the first
/// `min(batch size, 1000)` objects (all of them when they fit in one
/// request, so one object gives exactly one call carrying it), or, with no
/// objects, the end of the deletion.
pub proof fn law_batch_deletion_starts_with_the_first_chunk(
    objects: Seq<S3Object>,
    batch_size: u16,
    if_match: bool,
    retry: ForceRetryConfig,
)
    requires
        batch_size >= 1,
    ensures
        ({
            let v = BatchRunView::initial(objects, batch_size, if_match, retry);
            let first_end = next_chunk_end(v.chunk_end, v.chunk_size, objects.len());
            &&& v.wf()
            &&& v.awaiting == Awaiting::Nothing
            &&& v.deleted.len() == 0
            &&& v.failed.len() == 0
            &&& v.error_index == v.errors.len()
            &&& (v.chunk_end < v.objects.len() <==> objects.len() > 0)
            &&& first_end == if objects.len() <= v.chunk_size {
                objects.len()
            } else {
                v.chunk_size
            }
            &&& identifiers_of(objects.subrange(0, first_end as int), if_match).len() == first_end
            &&& (objects.len() == 1 ==> identifiers_of(objects.subrange(0, first_end as int), if_match) == seq![
                identifier_of(objects[0], if_match),
            ])
        }),
{
    let v = BatchRunView::initial(objects, batch_size, if_match, retry);
    let first_end = next_chunk_end(v.chunk_end, v.chunk_size, objects.len());
    if objects.len() == 1 {
        assert(objects.subrange(0, first_end as int) =~= objects);
        assert(identifiers_of(objects, if_match) =~= seq![identifier_of(objects[0], if_match)]);
    }
}

/// Builds the identifiers of `objects[start..end]`.
fn build_identifiers(objects: &Vec<S3Object>, start: usize, end: usize, if_match: bool) -> (r: Vec<
    ObjectIdentifier,
>)
    requires
        start <= end <= objects.len(),
    ensures
        identifier_views(r@) == identifiers_of(objects@.subrange(start as int, end as int), if_match),
{
    let ghost target = identifiers_of(objects@.subrange(start as int, end as int), if_match);
    let mut out: Vec<ObjectIdentifier> = Vec::new();
    let mut i = start;
    while i < end
        invariant
            start <= i <= end <= objects.len(),
            target == identifiers_of(objects@.subrange(start as int, end as int), if_match),
            out.len() == i - start,
            identifier_views(out@) == target.take(i - start),
        decreases end - i,
    {
        let o = &objects[i];
        let e_tag = if if_match {
            to_owned_opt(o.e_tag())
        } else {
            None
        };
        let id = ObjectIdentifier { key: o.key().to_owned(), version_id: to_owned_opt(o.version_id()), e_tag };
        let ghost old_out = out@;
        out.push(id);
        proof {
            assert forall|k: int| 0 <= k < i + 1 - start implies #[trigger] identifier_views(out@)[k]
                == target.take(i + 1 - start)[k] by {
                if k < i - start {
                    assert(out@[k] == old_out[k]);
                    assert(identifier_views(old_out)[k] == target.take(i - start)[k]);
                } else {
                    assert(objects@.subrange(start as int, end as int)[k] == objects@[i as int]);
                }
            }
            assert(identifier_views(out@) =~= target.take(i + 1 - start));
        }
        i = i + 1;
    }
    assert(target.take(end - start) =~= target);
    out
}

/// A copy of an optional text, or a default.
fn text_or(o: &Option<String>, default: &str) -> (r: String)
    ensures
        r@ == or_default(opt_view(*o), default@),
{
    match o {
        Some(s) => s.clone(),
        None => default.to_owned(),
    }
}

/// Fills in the missing fields of a failed key of a response.
fn pending_error(e: &ErrorEntry) -> (r: PendingError)
    ensures
        r@ == pending_of(*e),
{
    let code = text_or(&e.code, "unknown");
    let retryable = is_retryable_error_code(code.as_str());
    PendingError {
        key: text_or(&e.key, "unknown"),
        version_id: clone_opt_string(&e.version_id),
        code,
        message: text_or(&e.message, "no message"),
        retryable,
    }
}

/// Fills in the missing key of a deleted key of a response.
fn deleted_key(e: &DeletedEntry) -> (r: DeletedKey)
    ensures
        r@ == deleted_of(*e),
{
    let key = match &e.key {
        Some(k) => k.clone(),
        None => String::new(),
    };
    DeletedKey { key, version_id: clone_opt_string(&e.version_id) }
}

/// Decides whether two optional texts are equal.
fn opt_str_eq(a: Option<&str>, b: Option<&str>) -> (r: bool)
    ensures
        r == (opt_str_view(a) == opt_str_view(b)),
{
    match (a, b) {
        (Some(x), Some(y)) => str_eq(x, y),
        (None, None) => true,
        _ => false,
    }
}

/// The last match among a prefix, extended by one element.
proof fn lemma_last_match_push(s: Seq<S3Object>, i: int, key: Seq<char>, version_id: Option<Seq<char>>)
    requires
        0 <= i < s.len(),
    ensures
        last_match(s.take(i + 1), key, version_id) == if s[i].key_spec() == key && s[i].version_id_spec()
            == version_id {
            Some(i)
        } else {
            last_match(s.take(i), key, version_id)
        },
{
    assert(s.take(i + 1).drop_last() =~= s.take(i));
    assert(s.take(i + 1).last() == s[i]);
}

/// The index of the last object of `objects[start..end]` with the given key
/// and version id.
pub fn find_last_match(objects: &Vec<S3Object>, start: usize, end: usize, key: &str, version_id: Option<&str>) -> (r:
    Option<usize>)
    requires
        start <= end <= objects.len(),
    ensures
        match r {
            Some(f) => start <= f < end && last_match(
                objects@.subrange(start as int, end as int),
                key@,
                opt_str_view(version_id),
            ) == Some(f - start),
            None => last_match(objects@.subrange(start as int, end as int), key@, opt_str_view(version_id)) is None,
        },
{
    let ghost chunk = objects@.subrange(start as int, end as int);
    let ghost ver = opt_str_view(version_id);
    let mut found: Option<usize> = None;
    let mut i = start;
    while i < end
        invariant
            start <= i <= end <= objects.len(),
            chunk == objects@.subrange(start as int, end as int),
            ver == opt_str_view(version_id),
            match found {
                Some(f) => start <= f < i && last_match(chunk.take(i - start), key@, ver) == Some(f - start),
                None => last_match(chunk.take(i - start), key@, ver) is None,
            },
        decreases end - i,
    {
        proof {
            lemma_last_match_push(chunk, i - start, key@, ver);
            assert(chunk[i - start] == objects@[i as int]);
        }
        if str_eq(objects[i].key(), key) && opt_str_eq(objects[i].version_id(), version_id) {
            found = Some(i);
        }
        i = i + 1;
    }
    assert(chunk.take(end - start) =~= chunk);
    found
}

/// The ETag condition of a single-object retry within `objects[start..end]`.
fn find_retry_if_match(
    objects: &Vec<S3Object>,
    start: usize,
    end: usize,
    key: &str,
    version_id: Option<&str>,
    if_match: bool,
) -> (r: Option<String>)
    requires
        start <= end <= objects.len(),
    ensures
        opt_view(r) == retry_if_match(
            objects@.subrange(start as int, end as int),
            key@,
            opt_str_view(version_id),
            if_match,
        ),
{
    if !if_match {
        return None;
    }
    match find_last_match(objects, start, end, key, version_id) {
        Some(f) => {
            assert(objects@.subrange(start as int, end as int)[f - start] == objects@[f as int]);
            to_owned_opt(objects[f].e_tag())
        },
        None => None,
    }
}

impl BatchRun {
    /// Decides the next request. Requests are issued one at a time: the
    /// response to a `DeleteObjects` or `DeleteObject` request must be
    /// reported before the next request is asked for.
    pub fn next_request(&mut self) -> (r: BatchRequest)
        requires
            old(self).wf(),
            old(self)@.awaiting == Awaiting::Nothing,
        ensures
            final(self).wf(),
            ({
                let o = old(self)@;
                let n = final(self)@;
                if o.error_index < o.errors.len() {
                    let e = o.errors[o.error_index as int];
                    if e.4 && o.attempt < o.max_attempts {
                        &&& r matches BatchRequest::DeleteObject { key, version_id, if_match, delay_milliseconds }
                        &&& key@ == e.0
                        &&& opt_view(version_id) == e.1
                        &&& opt_view(if_match) == retry_if_match(o.chunk(), e.0, e.1, o.if_match)
                        &&& delay_milliseconds == if o.attempt > 0 { o.retry_interval } else { 0 }
                        &&& n == (BatchRunView { awaiting: Awaiting::SingleResponse, ..o })
                    } else {
                        &&& r matches BatchRequest::SendStats(s)
                        &&& s@ == StatsView::DeleteError(e.0)
                        &&& n == (BatchRunView {
                            failed: o.failed.push((e.0, e.1, e.2, e.3)),
                            error_index: o.error_index + 1,
                            attempt: 0,
                            ..o
                        })
                    }
                } else if o.chunk_end < o.objects.len() {
                    let new_end = next_chunk_end(o.chunk_end, o.chunk_size, o.objects.len());
                    &&& r matches BatchRequest::DeleteObjects(ids)
                    &&& identifier_views(ids@) == identifiers_of(
                        o.objects.subrange(o.chunk_end as int, new_end as int),
                        o.if_match,
                    )
                    &&& n == (BatchRunView {
                        chunk_start: o.chunk_end,
                        chunk_end: new_end as nat,
                        errors: Seq::empty(),
                        error_index: 0,
                        attempt: 0,
                        awaiting: Awaiting::ChunkResponse,
                        ..o
                    })
                } else {
                    r is Done && n == o
                }
            }),
    {
        if self.error_index < self.errors.len() {
            let idx = self.error_index;
            if self.errors[idx].retryable && self.attempt < self.max_attempts {
                let key = self.errors[idx].key.clone();
                let version_id = clone_opt_string(&self.errors[idx].version_id);
                let if_match = find_retry_if_match(
                    &self.objects,
                    self.chunk_start,
                    self.chunk_end,
                    self.errors[idx].key.as_str(),
                    match &self.errors[idx].version_id {
                        Some(v) => Some(v.as_str()),
                        None => None,
                    },
                    self.if_match,
                );
                let delay_milliseconds = if self.attempt > 0 {
                    self.retry_interval
                } else {
                    0
                };
                self.awaiting = Awaiting::SingleResponse;
                proof {
                    assert(self@.errors =~= old(self)@.errors);
                    assert(self@.deleted =~= old(self)@.deleted);
                    assert(self@.failed =~= old(self)@.failed);
                }
                return BatchRequest::DeleteObject { key, version_id, if_match, delay_milliseconds };
            } else {
                let failed = FailedKey {
                    key: self.errors[idx].key.clone(),
                    version_id: clone_opt_string(&self.errors[idx].version_id),
                    error_code: self.errors[idx].code.clone(),
                    error_message: self.errors[idx].message.clone(),
                };
                let stats = DeletionStatistics::DeleteError { key: self.errors[idx].key.clone() };
                self.result.failed.push(failed);
                self.error_index = idx + 1;
                self.attempt = 0;
                proof {
                    assert(self@.errors =~= old(self)@.errors);
                    assert(self@.deleted =~= old(self)@.deleted);
                    assert(self@.failed =~= old(self)@.failed.push(
                        (
                            old(self)@.errors[idx as int].0,
                            old(self)@.errors[idx as int].1,
                            old(self)@.errors[idx as int].2,
                            old(self)@.errors[idx as int].3,
                        ),
                    ));
                }
                return BatchRequest::SendStats(stats);
            }
        } else if self.chunk_end < self.objects.len() {
            let start = self.chunk_end;
            let new_end = if self.chunk_size <= self.objects.len() - start {
                start + self.chunk_size
            } else {
                self.objects.len()
            };
            let ids = build_identifiers(&self.objects, start, new_end, self.if_match);
            self.chunk_start = start;
            self.chunk_end = new_end;
            self.errors = Vec::new();
            self.error_index = 0;
            self.attempt = 0;
            self.awaiting = Awaiting::ChunkResponse;
            proof {
                assert(self@.errors =~= Seq::<PendingView>::empty());
                assert(self@.deleted =~= old(self)@.deleted);
                assert(self@.failed =~= old(self)@.failed);
            }
            return BatchRequest::DeleteObjects(ids);
        } else {
            return BatchRequest::Done;
        }
    }

    /// Reports the response to a `DeleteObjects` request: the keys it
    /// deleted and the keys that failed.
    pub fn on_delete_objects(&mut self, deleted: &Vec<DeletedEntry>, errors: &Vec<ErrorEntry>)
        requires
            old(self).wf(),
            old(self)@.awaiting == Awaiting::ChunkResponse,
        ensures
            final(self).wf(),
            final(self)@ == (BatchRunView {
                deleted: old(self)@.deleted + deleteds_of(deleted@),
                errors: pendings_of(errors@),
                error_index: 0,
                attempt: 0,
                awaiting: Awaiting::Nothing,
                ..old(self)@
            }),
    {
        let ghost old_deleted = self@.deleted;
        let n = deleted.len();
        for i in 0..n
            invariant
                n == deleted.len(),
                self.inv(),
                self@.awaiting == Awaiting::ChunkResponse,
                self@ == (BatchRunView {
                    deleted: old(self)@.deleted + deleteds_of(deleted@.take(i as int)),
                    ..old(self)@
                }),
        {
            let d = deleted_key(&deleted[i]);
            let ghost before = self@.deleted;
            self.result.deleted.push(d);
            proof {
                assert(deleteds_of(deleted@.take(i + 1)) =~= deleteds_of(deleted@.take(i as int)).push(
                    deleted_of(deleted@[i as int]),
                ));
                assert(self@.deleted =~= before.push(deleted_of(deleted@[i as int])));
                assert(self@.errors =~= old(self)@.errors);
                assert(self@.failed =~= old(self)@.failed);
            }
        }
        assert(deleted@.take(n as int) =~= deleted@);
        let mut pending: Vec<PendingError> = Vec::new();
        let m = errors.len();
        for j in 0..m
            invariant
                m == errors.len(),
                pending@.len() == j,
                pending_views(pending@) == pendings_of(errors@.take(j as int)),
        {
            let p = pending_error(&errors[j]);
            let ghost before = pending@;
            pending.push(p);
            proof {
                assert forall|k: int| 0 <= k < j + 1 implies #[trigger] pending_views(pending@)[k]
                    == pendings_of(errors@.take(j + 1))[k] by {
                    if k < j {
                        assert(pending@[k] == before[k]);
                        assert(pending_views(before)[k] == pendings_of(errors@.take(j as int))[k]);
                    }
                }
                assert(pending_views(pending@) =~= pendings_of(errors@.take(j + 1)));
            }
        }
        assert(errors@.take(m as int) =~= errors@);
        self.errors = pending;
        self.error_index = 0;
        self.attempt = 0;
        self.awaiting = Awaiting::Nothing;
    }

    /// Reports a failed `DeleteObjects` request: the whole deletion fails
    /// with the call's error. The run is consumed, so the keys deleted by
    /// earlier requests are reported in no result and no further request is
    /// made.
    pub fn on_delete_objects_error(self, error: String) -> (r: Result<DeleteResult, String>)
        requires
            self.wf(),
            self@.awaiting == Awaiting::ChunkResponse,
        ensures
            r matches Err(e) && e@ == error@,
    {
        Err(error)
    }

    /// Reports whether the single-object retry succeeded.
    pub fn on_delete_object(&mut self, succeeded: bool)
        requires
            old(self).wf(),
            old(self)@.awaiting == Awaiting::SingleResponse,
        ensures
            final(self).wf(),
            ({
                let o = old(self)@;
                let e = o.errors[o.error_index as int];
                if succeeded {
                    final(self)@ == (BatchRunView {
                        deleted: o.deleted.push((e.0, e.1)),
                        error_index: o.error_index + 1,
                        attempt: 0,
                        awaiting: Awaiting::Nothing,
                        ..o
                    })
                } else {
                    final(self)@ == (BatchRunView { attempt: o.attempt + 1, awaiting: Awaiting::Nothing, ..o })
                }
            }),
    {
        let idx = self.error_index;
        assert(idx < self.errors.len());
        if succeeded {
            let d = DeletedKey {
                key: self.errors[idx].key.clone(),
                version_id: clone_opt_string(&self.errors[idx].version_id),
            };
            self.result.deleted.push(d);
            self.error_index = idx + 1;
            self.attempt = 0;
            proof {
                assert(self@.deleted =~= old(self)@.deleted.push(
                    (old(self)@.errors[idx as int].0, old(self)@.errors[idx as int].1),
                ));
            }
        } else {
            self.attempt = self.attempt + 1;
        }
        self.awaiting = Awaiting::Nothing;
        proof {
            assert(self@.errors =~= old(self)@.errors);
            assert(self@.failed =~= old(self)@.failed);
            if !succeeded {
                assert(self@.deleted =~= old(self)@.deleted);
            }
        }
    }

    /// The deletion result: the keys deleted and the keys that failed.
    pub fn into_result(self) -> (r: DeleteResult)
        ensures
            deleted_views(r.deleted@) == self@.deleted,
            failed_views(r.failed@) == self@.failed,
    {
        self.result
    }
}

} // verus!
