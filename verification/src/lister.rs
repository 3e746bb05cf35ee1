//! The listing stage: which S3 listing feeds the pipeline.

use vstd::prelude::*;

use crate::config::Config;

verus! {

/// The S3 listing call that feeds the pipeline, with its page size.
#[derive(Debug, PartialEq, Eq, Structural)]
pub enum ListingRequest {
    /// `ListObjectsV2`: the current objects.
    ListObjects { max_keys: i32 },
    /// `ListObjectVersions`: every version and delete marker.
    ListObjectVersions { max_keys: i32 },
}

/// The listing of a target: object versions when every version is to be
/// deleted, the current objects otherwise, with the given page size.
pub open spec fn listing_of(delete_all_versions: bool, max_keys: i32) -> ListingRequest {
    if delete_all_versions {
        ListingRequest::ListObjectVersions { max_keys }
    } else {
        ListingRequest::ListObjects { max_keys }
    }
}

/// A run lists its target with exactly one kind of listing: without
/// `--delete-all-versions` only the current objects are listed, never their
/// versions, and with it only the versions; the page size is passed on
/// unchanged.
pub proof fn law_one_listing_per_target(delete_all_versions: bool, max_keys: i32)
    ensures
        !delete_all_versions <==> listing_of(delete_all_versions, max_keys) is ListObjects,
        delete_all_versions <==> listing_of(delete_all_versions, max_keys) is ListObjectVersions,
        listing_of(delete_all_versions, max_keys) matches ListingRequest::ListObjects { max_keys: m } ==> m
            == max_keys,
        listing_of(delete_all_versions, max_keys) matches ListingRequest::ListObjectVersions { max_keys: m } ==> m
            == max_keys,
{
}

/// The entry point of the pipeline: lists the target.
#[derive(Debug)]
pub struct ObjectLister {}

impl ObjectLister {
    /// Creates the listing stage.
    pub fn new() -> (r: Self) {
        ObjectLister {  }
    }

    /// The listing of the target: object versions when every version is to
    /// be deleted, the current objects otherwise; `max_keys` is the page
    /// size of each listing request.
    pub fn list_target(&self, config: &Config, max_keys: i32) -> (r: ListingRequest)
        ensures
            r == listing_of(config.delete_all_versions, max_keys),
    {
        if config.delete_all_versions {
            ListingRequest::ListObjectVersions { max_keys }
        } else {
            ListingRequest::ListObjects { max_keys }
        }
    }
}

} // verus!
