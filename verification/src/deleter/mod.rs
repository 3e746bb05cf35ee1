//! Deletion decisions: how buffered objects are sent to the S3 deletion
//! APIs, how partial failures are retried, and what each outcome reports.

use vstd::prelude::*;

use crate::types::{clone_opt_string, opt_view};

pub mod batch;
pub mod format;
pub mod object_deleter;
pub mod single;

verus! {

/// A successfully deleted key.
#[derive(Debug)]
pub struct DeletedKey {
    pub key: String,
    pub version_id: Option<String>,
}

/// A key that failed to delete, with the error details.
#[derive(Debug)]
pub struct FailedKey {
    pub key: String,
    pub version_id: Option<String>,
    pub error_code: String,
    pub error_message: String,
}

/// The view of a deleted key: key and version id.
pub type DeletedView = (Seq<char>, Option<Seq<char>>);

/// The view of a failed key: key, version id, error code, error message.
pub type FailedView = (Seq<char>, Option<Seq<char>>, Seq<char>, Seq<char>);

impl View for DeletedKey {
    type V = DeletedView;

    open spec fn view(&self) -> DeletedView {
        (self.key@, opt_view(self.version_id))
    }
}

impl View for FailedKey {
    type V = FailedView;

    open spec fn view(&self) -> FailedView {
        (self.key@, opt_view(self.version_id), self.error_code@, self.error_message@)
    }
}

/// Which keys of a deletion succeeded and which failed.
#[derive(Debug)]
pub struct DeleteResult {
    pub deleted: Vec<DeletedKey>,
    pub failed: Vec<FailedKey>,
}

/// The views of deleted keys.
pub open spec fn deleted_views(v: Seq<DeletedKey>) -> Seq<DeletedView> {
    v.map_values(|d: DeletedKey| d@)
}

/// The views of failed keys.
pub open spec fn failed_views(v: Seq<FailedKey>) -> Seq<FailedView> {
    v.map_values(|f: FailedKey| f@)
}

impl DeleteResult {
    /// A result with no deleted and no failed keys.
    pub fn new() -> (r: DeleteResult)
        ensures
            r.deleted@.len() == 0,
            r.failed@.len() == 0,
    {
        DeleteResult { deleted: Vec::new(), failed: Vec::new() }
    }
}

impl Clone for DeletedKey {
    fn clone(&self) -> (r: Self)
        ensures
            r == *self,
    {
        DeletedKey { key: self.key.clone(), version_id: clone_opt_string(&self.version_id) }
    }
}

} // verus!
