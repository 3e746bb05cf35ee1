//! Single-object deletion with the S3 `DeleteObject` API.
//!
//! Used when the batch size is 1: each object is deleted on its own, with
//! its ETag as a deletion condition when `if_match` is set.

use vstd::prelude::*;

use crate::deleter::{deleted_views, DeleteResult, DeletedKey, DeletedView};
use crate::types::{opt_view, to_owned_opt, DeletionStatistics, S3Object, StatsView};

verus! {

/// Deletes objects one at a time with the S3 `DeleteObject` API.
#[derive(Debug)]
pub struct SingleDeleter {}

/// The `DeleteObject` call for one object.
#[derive(Debug)]
pub struct SingleRequest {
    pub key: String,
    pub version_id: Option<String>,
    pub if_match: Option<String>,
}

/// The view of a `DeleteObject` call: key, version id and ETag condition.
pub type SingleRequestView = (Seq<char>, Option<Seq<char>>, Option<Seq<char>>);

impl View for SingleRequest {
    type V = SingleRequestView;

    open spec fn view(&self) -> SingleRequestView {
        (self.key@, opt_view(self.version_id), opt_view(self.if_match))
    }
}

/// The `DeleteObject` call for an object: its key and version id, and its
/// ETag as a condition when `if_match` is set.
pub open spec fn single_request_of(o: S3Object, if_match: bool) -> SingleRequestView {
    (o.key_spec(), o.version_id_spec(), if if_match {
        o.e_tag_spec()
    } else {
        None
    })
}

/// The keys deleted by a successful `DeleteObject` call: its own key and
/// version id, and nothing else.
pub open spec fn single_success_deleted(request: SingleRequestView) -> Seq<DeletedView> {
    seq![(request.0, request.1)]
}

/// The outcome of a single deletion: its result and the statistic to send,
/// if any.
#[derive(Debug)]
pub struct SingleOutcome {
    pub result: Result<DeleteResult, String>,
    pub stats: Option<DeletionStatistics>,
}

impl SingleDeleter {
    /// Creates a single-object deleter.
    pub fn new() -> (r: Self) {
        SingleDeleter {  }
    }

    /// The `DeleteObject` call for the one object of `objects`: its key and
    /// version id, and its ETag as a condition when `if_match` is set.
    pub fn request(&self, objects: &Vec<S3Object>, if_match: bool) -> (r: SingleRequest)
        requires
            objects.len() == 1,
        ensures
            r@ == single_request_of(objects@[0], if_match),
    {
        let o = &objects[0];
        let e_tag = if if_match {
            to_owned_opt(o.e_tag())
        } else {
            None
        };
        SingleRequest { key: o.key().to_owned(), version_id: to_owned_opt(o.version_id()), if_match: e_tag }
    }

    /// The outcome of the `DeleteObject` call of `request`: on success the
    /// key is deleted; on failure the deletion fails with the call's error
    /// text (so that the worker cancels the pipeline) and a `DeleteError`
    /// statistic is sent for the key.
    pub fn on_response(&self, request: SingleRequest, response: Result<(), String>) -> (r: SingleOutcome)
        ensures
            match response {
                Ok(()) => {
                    &&& r.result matches Ok(result)
                    &&& deleted_views(result.deleted@) == single_success_deleted(request@)
                    &&& result.failed@.len() == 0
                    &&& r.stats is None
                },
                Err(message) => {
                    &&& r.result matches Err(e) && e@ == message@
                    &&& r.stats matches Some(s) && s@ == StatsView::DeleteError(request.key@)
                },
            },
    {
        match response {
            Ok(()) => {
                let mut result = DeleteResult::new();
                let ghost key = request.key@;
                let ghost version_id = opt_view(request.version_id);
                result.deleted.push(DeletedKey { key: request.key, version_id: request.version_id });
                proof {
                    assert(deleted_views(result.deleted@) =~= seq![(key, version_id)]);
                }
                SingleOutcome { result: Ok(result), stats: None }
            },
            Err(message) => {
                let stats = DeletionStatistics::DeleteError { key: request.key };
                SingleOutcome { result: Err(message), stats: Some(stats) }
            },
        }
    }
}

/// A single deletion of one object makes exactly one `DeleteObject` call,
/// carrying the object's key and version id (and its ETag only with
/// `if_match`); when the call succeeds, that key and version are the only
/// ones deleted.
pub proof fn law_single_deletion_deletes_the_object(o: S3Object, if_match: bool)
    ensures
        single_request_of(o, if_match).0 == o.key_spec(),
        single_request_of(o, if_match).1 == o.version_id_spec(),
        if_match ==> single_request_of(o, if_match).2 == o.e_tag_spec(),
        !if_match ==> single_request_of(o, if_match).2 is None,
        single_success_deleted(single_request_of(o, if_match)) == seq![(o.key_spec(), o.version_id_spec())],
{
}

} // verus!
