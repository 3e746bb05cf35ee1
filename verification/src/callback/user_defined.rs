//! User-defined event and filter callbacks: switches that a program built on
//! the library turns on to run its own callback code.

use vstd::prelude::*;

use crate::callback::event_manager::EventDispatch;
use crate::config::Config;
use crate::event::{
    ALL_EVENTS,
    DELETE_CANCEL, DELETE_COMPLETE, DELETE_FAILED, DELETE_FILTERED, PIPELINE_END, PIPELINE_ERROR, PIPELINE_START,
    STATS_REPORT,
};

verus! {

/// A user-defined event callback; when enabled, it replaces the Lua event
/// callback.
#[derive(Debug)]
pub struct UserDefinedEventCallback {
    pub enable: bool,
}

impl UserDefinedEventCallback {
    /// A disabled callback.
    pub fn new() -> (r: Self)
        ensures
            !r.enable,
    {
        UserDefinedEventCallback { enable: false }
    }

    /// Whether the callback is enabled.
    pub fn is_enabled(&self) -> (r: bool)
        ensures
            r == self.enable,
    {
        self.enable
    }
}

/// A user-defined filter callback; when enabled, it replaces the Lua filter
/// callback.
#[derive(Debug)]
pub struct UserDefinedFilterCallback {
    pub enable: bool,
}

impl UserDefinedFilterCallback {
    /// A disabled callback.
    pub fn new() -> (r: Self)
        ensures
            !r.enable,
    {
        UserDefinedFilterCallback { enable: false }
    }

    /// Whether the callback is enabled.
    pub fn is_enabled(&self) -> (r: bool)
        ensures
            r == self.enable,
    {
        self.enable
    }
}

/// The label under which the user-defined event callback reports an event
/// of the given type.
pub open spec fn event_label_spec(event_type: u64) -> Seq<char> {
    if event_type == PIPELINE_START {
        "Pipeline started"@
    } else if event_type == PIPELINE_END {
        "Pipeline ended"@
    } else if event_type == DELETE_COMPLETE {
        "Delete complete"@
    } else if event_type == DELETE_FAILED {
        "Delete failed"@
    } else if event_type == DELETE_FILTERED {
        "Delete filtered"@
    } else if event_type == PIPELINE_ERROR {
        "Pipeline error"@
    } else if event_type == DELETE_CANCEL {
        "Delete cancelled"@
    } else if event_type == STATS_REPORT {
        "Stats report"@
    } else {
        "Other events"@
    }
}

/// The label of an event type for the user-defined event callback's report.
pub fn event_label(event_type: u64) -> (r: &'static str)
    ensures
        r@ == event_label_spec(event_type),
{
    if event_type == PIPELINE_START {
        "Pipeline started"
    } else if event_type == PIPELINE_END {
        "Pipeline ended"
    } else if event_type == DELETE_COMPLETE {
        "Delete complete"
    } else if event_type == DELETE_FAILED {
        "Delete failed"
    } else if event_type == DELETE_FILTERED {
        "Delete filtered"
    } else if event_type == PIPELINE_ERROR {
        "Pipeline error"
    } else if event_type == DELETE_CANCEL {
        "Delete cancelled"
    } else if event_type == STATS_REPORT {
        "Stats report"
    } else {
        "Other events"
    }
}

/// Registers the user-defined callbacks when they are enabled (by default
/// they are not; the configuration's test switch enables both). An enabled
/// event callback is subscribed to every event type with the dry-run flag
/// of the configuration. Returns whether the user-defined filter callback
/// is enabled and is to be registered with the filter manager.
pub fn register_user_defined_callbacks(config: &Config, events: &mut EventDispatch) -> (filter_enabled: bool)
    ensures
        filter_enabled == config.test_user_defined_callback,
        config.test_user_defined_callback ==> *final(events) == (EventDispatch {
            callback_registered: true,
            event_flags: ALL_EVENTS,
            dry_run: config.dry_run,
            ..*old(events)
        }),
        !config.test_user_defined_callback ==> *final(events) == *old(events),
{
    let mut event_callback = UserDefinedEventCallback::new();
    if config.test_user_defined_callback {
        event_callback.enable = true;
    }
    if event_callback.is_enabled() {
        events.register_callback(ALL_EVENTS, config.dry_run);
    }
    let mut filter_callback = UserDefinedFilterCallback::new();
    if config.test_user_defined_callback {
        filter_callback.enable = true;
    }
    filter_callback.is_enabled()
}

} // verus!
