//! Pipeline events delivered to event callbacks, and the event-type flags
//! that callbacks subscribe with.

use vstd::prelude::*;

use crate::types::opt_view;

verus! {

/// No event.
pub const UNDEFINED: u64 = 0;
/// The pipeline started.
pub const PIPELINE_START: u64 = 1u64 << 1;
/// The pipeline ended.
pub const PIPELINE_END: u64 = 1u64 << 2;
/// An object was deleted.
pub const DELETE_COMPLETE: u64 = 1u64 << 3;
/// An object could not be deleted.
pub const DELETE_FAILED: u64 = 1u64 << 4;
/// An object was skipped by a filter.
pub const DELETE_FILTERED: u64 = 1u64 << 5;
/// A deletion raised a warning (such as the deletion limit being reached).
pub const DELETE_WARNING: u64 = 1u64 << 6;
/// The pipeline failed.
pub const PIPELINE_ERROR: u64 = 1u64 << 7;
/// Deletion was cancelled.
pub const DELETE_CANCEL: u64 = 1u64 << 8;
/// Accumulated statistics, sent after the pipeline ends.
pub const STATS_REPORT: u64 = 1u64 << 9;
/// Every event type.
pub const ALL_EVENTS: u64 = 0xffff_ffff_ffff_ffff;

/// The flag set `flags` holds every flag of `event_type`.
pub open spec fn flags_contain(flags: u64, event_type: u64) -> bool {
    flags & event_type == event_type
}

/// Decides whether the flag set `flags` holds every flag of `event_type`.
pub fn contains(flags: u64, event_type: u64) -> (r: bool)
    ensures
        r == flags_contain(flags, event_type),
{
    flags & event_type == event_type
}

/// The data of one pipeline event. Statistics fields are set only on
/// `STATS_REPORT` events.
#[derive(Debug)]
pub struct EventData {
    pub event_type: u64,
    pub dry_run: bool,
    pub key: Option<String>,
    pub version_id: Option<String>,
    pub size: Option<u64>,
    pub last_modified: Option<String>,
    pub e_tag: Option<String>,
    pub error_message: Option<String>,
    pub message: Option<String>,
    pub stats_deleted_objects: Option<u64>,
    pub stats_deleted_bytes: Option<u64>,
    pub stats_failed_objects: Option<u64>,
    pub stats_skipped_objects: Option<u64>,
    pub stats_warning_count: Option<u64>,
    pub stats_error_count: Option<u64>,
}

/// The view of an event, strings as character sequences.
pub struct EventView {
    pub event_type: u64,
    pub dry_run: bool,
    pub key: Option<Seq<char>>,
    pub version_id: Option<Seq<char>>,
    pub size: Option<u64>,
    pub last_modified: Option<Seq<char>>,
    pub e_tag: Option<Seq<char>>,
    pub error_message: Option<Seq<char>>,
    pub message: Option<Seq<char>>,
    pub stats_deleted_objects: Option<u64>,
    pub stats_deleted_bytes: Option<u64>,
    pub stats_failed_objects: Option<u64>,
    pub stats_skipped_objects: Option<u64>,
    pub stats_warning_count: Option<u64>,
    pub stats_error_count: Option<u64>,
}

impl View for EventData {
    type V = EventView;

    open spec fn view(&self) -> EventView {
        EventView {
            event_type: self.event_type,
            dry_run: self.dry_run,
            key: opt_view(self.key),
            version_id: opt_view(self.version_id),
            size: self.size,
            last_modified: opt_view(self.last_modified),
            e_tag: opt_view(self.e_tag),
            error_message: opt_view(self.error_message),
            message: opt_view(self.message),
            stats_deleted_objects: self.stats_deleted_objects,
            stats_deleted_bytes: self.stats_deleted_bytes,
            stats_failed_objects: self.stats_failed_objects,
            stats_skipped_objects: self.stats_skipped_objects,
            stats_warning_count: self.stats_warning_count,
            stats_error_count: self.stats_error_count,
        }
    }
}

impl EventView {
    /// The view of an event of the given type with every other field empty.
    pub open spec fn of_type(event_type: u64) -> EventView {
        EventView {
            event_type,
            dry_run: false,
            key: None,
            version_id: None,
            size: None,
            last_modified: None,
            e_tag: None,
            error_message: None,
            message: None,
            stats_deleted_objects: None,
            stats_deleted_bytes: None,
            stats_failed_objects: None,
            stats_skipped_objects: None,
            stats_warning_count: None,
            stats_error_count: None,
        }
    }
}

impl EventData {
    /// An event of the given type with every other field empty.
    pub open spec fn empty(event_type: u64) -> EventData {
        EventData {
            event_type,
            dry_run: false,
            key: None,
            version_id: None,
            size: None,
            last_modified: None,
            e_tag: None,
            error_message: None,
            message: None,
            stats_deleted_objects: None,
            stats_deleted_bytes: None,
            stats_failed_objects: None,
            stats_skipped_objects: None,
            stats_warning_count: None,
            stats_error_count: None,
        }
    }

    /// Creates an event of the given type with every other field empty.
    pub fn new(event_type: u64) -> (r: EventData)
        ensures
            r == EventData::empty(event_type),
    {
        EventData {
            event_type,
            dry_run: false,
            key: None,
            version_id: None,
            size: None,
            last_modified: None,
            e_tag: None,
            error_message: None,
            message: None,
            stats_deleted_objects: None,
            stats_deleted_bytes: None,
            stats_failed_objects: None,
            stats_skipped_objects: None,
            stats_warning_count: None,
            stats_error_count: None,
        }
    }
}

} // verus!
