//! Counting pipeline events and routing them to the registered event
//! callback.

use vstd::prelude::*;

use crate::event::{
    contains, flags_contain, EventData, EventView, ALL_EVENTS, DELETE_COMPLETE, DELETE_FAILED, DELETE_FILTERED,
    DELETE_WARNING, PIPELINE_END, PIPELINE_ERROR, STATS_REPORT,
};

verus! {

/// Counts of the events of a pipeline run, reported in the `STATS_REPORT`
/// event.
#[derive(Clone, Copy, Debug)]
pub struct PipelineCounters {
    pub stats_deleted_objects: u64,
    pub stats_deleted_bytes: u64,
    pub stats_failed_objects: u64,
    pub stats_skipped_objects: u64,
    pub stats_warning_count: u64,
    pub stats_error_count: u64,
}

impl PipelineCounters {
    /// All counts zero.
    pub fn new() -> (r: Self)
        ensures
            r == PipelineCounters::zero(),
    {
        PipelineCounters {
            stats_deleted_objects: 0,
            stats_deleted_bytes: 0,
            stats_failed_objects: 0,
            stats_skipped_objects: 0,
            stats_warning_count: 0,
            stats_error_count: 0,
        }
    }

    /// All counts zero.
    pub open spec fn zero() -> PipelineCounters {
        PipelineCounters {
            stats_deleted_objects: 0,
            stats_deleted_bytes: 0,
            stats_failed_objects: 0,
            stats_skipped_objects: 0,
            stats_warning_count: 0,
            stats_error_count: 0,
        }
    }

    /// The counts after an event: a `DELETE_COMPLETE` counts a deleted
    /// object and its size, `DELETE_FAILED` a failed object,
    /// `DELETE_FILTERED` a skipped object, `DELETE_WARNING` a warning and
    /// `PIPELINE_ERROR` an error; other events count nothing.
    pub open spec fn recorded(self, e: EventView) -> PipelineCounters {
        if e.event_type == DELETE_COMPLETE {
            PipelineCounters {
                stats_deleted_objects: (self.stats_deleted_objects + 1) as u64,
                stats_deleted_bytes: match e.size {
                    Some(n) => (self.stats_deleted_bytes + n) as u64,
                    None => self.stats_deleted_bytes,
                },
                ..self
            }
        } else if e.event_type == DELETE_FAILED {
            PipelineCounters { stats_failed_objects: (self.stats_failed_objects + 1) as u64, ..self }
        } else if e.event_type == DELETE_FILTERED {
            PipelineCounters { stats_skipped_objects: (self.stats_skipped_objects + 1) as u64, ..self }
        } else if e.event_type == DELETE_WARNING {
            PipelineCounters { stats_warning_count: (self.stats_warning_count + 1) as u64, ..self }
        } else if e.event_type == PIPELINE_ERROR {
            PipelineCounters { stats_error_count: (self.stats_error_count + 1) as u64, ..self }
        } else {
            self
        }
    }

    /// Recording the event overflows no count.
    pub open spec fn can_record_spec(self, e: EventView) -> bool {
        if e.event_type == DELETE_COMPLETE {
            &&& self.stats_deleted_objects < u64::MAX
            &&& (e.size matches Some(n) ==> self.stats_deleted_bytes + n <= u64::MAX)
        } else if e.event_type == DELETE_FAILED {
            self.stats_failed_objects < u64::MAX
        } else if e.event_type == DELETE_FILTERED {
            self.stats_skipped_objects < u64::MAX
        } else if e.event_type == DELETE_WARNING {
            self.stats_warning_count < u64::MAX
        } else if e.event_type == PIPELINE_ERROR {
            self.stats_error_count < u64::MAX
        } else {
            true
        }
    }

    /// Decides whether recording the event overflows no count.
    pub fn can_record(&self, event: &EventData) -> (r: bool)
        ensures
            r == self.can_record_spec(event@),
    {
        let t = event.event_type;
        if t == DELETE_COMPLETE {
            self.stats_deleted_objects < u64::MAX && match event.size {
                Some(n) => n <= u64::MAX - self.stats_deleted_bytes,
                None => true,
            }
        } else if t == DELETE_FAILED {
            self.stats_failed_objects < u64::MAX
        } else if t == DELETE_FILTERED {
            self.stats_skipped_objects < u64::MAX
        } else if t == DELETE_WARNING {
            self.stats_warning_count < u64::MAX
        } else if t == PIPELINE_ERROR {
            self.stats_error_count < u64::MAX
        } else {
            true
        }
    }

    /// Counts an event.
    pub fn record(&mut self, event: &EventData)
        requires
            old(self).can_record_spec(event@),
        ensures
            *final(self) == old(self).recorded(event@),
    {
        let t = event.event_type;
        if t == DELETE_COMPLETE {
            self.stats_deleted_objects = self.stats_deleted_objects + 1;
            if let Some(n) = event.size {
                self.stats_deleted_bytes = self.stats_deleted_bytes + n;
            }
        } else if t == DELETE_FAILED {
            self.stats_failed_objects = self.stats_failed_objects + 1;
        } else if t == DELETE_FILTERED {
            self.stats_skipped_objects = self.stats_skipped_objects + 1;
        } else if t == DELETE_WARNING {
            self.stats_warning_count = self.stats_warning_count + 1;
        } else if t == PIPELINE_ERROR {
            self.stats_error_count = self.stats_error_count + 1;
        }
    }

    /// The `STATS_REPORT` event of the counts.
    pub open spec fn report(self, dry_run: bool) -> EventView {
        EventView {
            dry_run,
            stats_deleted_objects: Some(self.stats_deleted_objects),
            stats_deleted_bytes: Some(self.stats_deleted_bytes),
            stats_failed_objects: Some(self.stats_failed_objects),
            stats_skipped_objects: Some(self.stats_skipped_objects),
            stats_warning_count: Some(self.stats_warning_count),
            stats_error_count: Some(self.stats_error_count),
            ..EventView::of_type(STATS_REPORT)
        }
    }

    /// Builds the `STATS_REPORT` event of the counts.
    pub fn stats_report(&self, dry_run: bool) -> (r: EventData)
        ensures
            r@ == self.report(dry_run),
    {
        let mut e = EventData::new(STATS_REPORT);
        e.dry_run = dry_run;
        e.stats_deleted_objects = Some(self.stats_deleted_objects);
        e.stats_deleted_bytes = Some(self.stats_deleted_bytes);
        e.stats_failed_objects = Some(self.stats_failed_objects);
        e.stats_skipped_objects = Some(self.stats_skipped_objects);
        e.stats_warning_count = Some(self.stats_warning_count);
        e.stats_error_count = Some(self.stats_error_count);
        e
    }
}

/// The views of events.
pub open spec fn event_views(v: Seq<EventData>) -> Seq<EventView> {
    v.map_values(|e: EventData| e@)
}

/// The event routing of an event manager: whether a callback is
/// registered, the event types it subscribed to, the dry-run flag stamped
/// on delivered events, and the counts of the events triggered so far.
#[derive(Clone, Copy, Debug)]
pub struct EventDispatch {
    pub callback_registered: bool,
    pub event_flags: u64,
    pub dry_run: bool,
    pub counters: PipelineCounters,
}

impl EventDispatch {
    /// The events delivered to the callback for an event triggered after
    /// the counts reached `counters`: the event itself, stamped with the
    /// dry-run flag, when its type was subscribed to; after `PIPELINE_END`
    /// also the `STATS_REPORT` of the counts when that was subscribed to;
    /// nothing when no callback is registered.
    pub open spec fn deliveries(self, e: EventView, counters: PipelineCounters) -> Seq<EventView> {
        if !self.callback_registered {
            Seq::empty()
        } else {
            (if flags_contain(self.event_flags, e.event_type) {
                seq![EventView { dry_run: self.dry_run, ..e }]
            } else {
                Seq::empty()
            }) + (if e.event_type == PIPELINE_END && flags_contain(self.event_flags, STATS_REPORT) {
                seq![counters.report(self.dry_run)]
            } else {
                Seq::empty()
            })
        }
    }

    /// No callback, every event type, no dry run, zero counts.
    pub fn new() -> (r: Self)
        ensures
            !r.callback_registered,
            r.event_flags == ALL_EVENTS,
            !r.dry_run,
            r.counters == PipelineCounters::zero(),
    {
        EventDispatch {
            callback_registered: false,
            event_flags: ALL_EVENTS,
            dry_run: false,
            counters: PipelineCounters::new(),
        }
    }

    /// Registers a callback subscribed to `event_flags`.
    pub fn register_callback(&mut self, event_flags: u64, dry_run: bool)
        ensures
            *final(self) == (EventDispatch { callback_registered: true, event_flags, dry_run, ..*old(self) }),
    {
        self.callback_registered = true;
        self.event_flags = event_flags;
        self.dry_run = dry_run;
    }

    /// Whether a callback is registered.
    pub fn is_callback_registered(&self) -> (r: bool)
        ensures
            r == self.callback_registered,
    {
        self.callback_registered
    }

    /// Triggers an event: counts it, then returns the events to deliver to
    /// the callback, in order.
    pub fn trigger_event(&mut self, event: EventData) -> (r: Vec<EventData>)
        requires
            old(self).counters.can_record_spec(event@),
        ensures
            *final(self) == (EventDispatch { counters: old(self).counters.recorded(event@), ..*old(self) }),
            event_views(r@) == old(self).deliveries(event@, final(self).counters),
    {
        self.counters.record(&event);
        let mut out: Vec<EventData> = Vec::new();
        if !self.callback_registered {
            proof {
                assert(event_views(out@) =~= Seq::<EventView>::empty());
            }
            return out;
        }
        let event_type = event.event_type;
        let ghost ev = event@;
        let ghost first: Seq<EventView> = if flags_contain(self.event_flags, ev.event_type) {
            seq![EventView { dry_run: self.dry_run, ..ev }]
        } else {
            Seq::empty()
        };
        if contains(self.event_flags, event_type) {
            let mut delivered = event;
            delivered.dry_run = self.dry_run;
            out.push(delivered);
        }
        assert(event_views(out@) =~= first);
        if event_type == PIPELINE_END && contains(self.event_flags, STATS_REPORT) {
            let report = self.counters.stats_report(self.dry_run);
            out.push(report);
            assert(event_views(out@) =~= first + seq![self.counters.report(self.dry_run)]);
        } else {
            assert(event_views(out@) =~= first + Seq::<EventView>::empty());
        }
        out
    }
}

/// The statistics report carries each count in its own field, the given
/// dry-run flag, and nothing about any single object.
pub proof fn law_report_carries_each_count(c: PipelineCounters, dry_run: bool)
    ensures
        c.report(dry_run).event_type == STATS_REPORT,
        c.report(dry_run).dry_run == dry_run,
        c.report(dry_run).stats_deleted_objects == Some(c.stats_deleted_objects),
        c.report(dry_run).stats_deleted_bytes == Some(c.stats_deleted_bytes),
        c.report(dry_run).stats_failed_objects == Some(c.stats_failed_objects),
        c.report(dry_run).stats_skipped_objects == Some(c.stats_skipped_objects),
        c.report(dry_run).stats_warning_count == Some(c.stats_warning_count),
        c.report(dry_run).stats_error_count == Some(c.stats_error_count),
        c.report(dry_run).key is None,
        c.report(dry_run).version_id is None,
        c.report(dry_run).size is None,
        c.report(dry_run).error_message is None,
{
}

/// Counting an event adds one to the count of its kind and nothing to the
/// others: a completed deletion also adds its size to the deleted bytes, and
/// events of other types change no count.
pub proof fn law_recording_counts_the_event_kind(c: PipelineCounters, e: EventView)
    requires
        c.can_record_spec(e),
    ensures
        c.recorded(e).stats_deleted_objects == c.stats_deleted_objects + if e.event_type == DELETE_COMPLETE {
            1int
        } else {
            0int
        },
        c.recorded(e).stats_deleted_bytes == c.stats_deleted_bytes + if e.event_type == DELETE_COMPLETE
            && e.size is Some {
            e.size.unwrap() as int
        } else {
            0int
        },
        c.recorded(e).stats_failed_objects == c.stats_failed_objects + if e.event_type == DELETE_FAILED {
            1int
        } else {
            0int
        },
        c.recorded(e).stats_skipped_objects == c.stats_skipped_objects + if e.event_type == DELETE_FILTERED {
            1int
        } else {
            0int
        },
        c.recorded(e).stats_warning_count == c.stats_warning_count + if e.event_type == DELETE_WARNING {
            1int
        } else {
            0int
        },
        c.recorded(e).stats_error_count == c.stats_error_count + if e.event_type == PIPELINE_ERROR {
            1int
        } else {
            0int
        },
{
    assert((1u64 << 3) == 8u64 && (1u64 << 4) == 16u64 && (1u64 << 5) == 32u64 && (1u64 << 6) == 64u64 && (1u64
        << 7) == 128u64) by (bit_vector);
}

/// Every flag set of all event types holds every event type.
pub proof fn lemma_all_events_contain(t: u64)
    ensures
        flags_contain(ALL_EVENTS, t),
{
    assert(0xffff_ffff_ffff_ffffu64 & t == t) by (bit_vector);
}

/// A callback subscribed to every event type receives every triggered
/// event first, unchanged but for the dry-run flag.
pub proof fn law_all_events_subscription_receives_every_event(d: EventDispatch, e: EventView, c: PipelineCounters)
    requires
        d.callback_registered,
        d.event_flags == ALL_EVENTS,
    ensures
        d.deliveries(e, c).len() >= 1,
        d.deliveries(e, c)[0] == (EventView { dry_run: d.dry_run, ..e }),
{
    lemma_all_events_contain(e.event_type);
}

/// An event whose type the callback did not subscribe to is not delivered
/// (only the end of the pipeline may still bring a statistics report).
pub proof fn law_unsubscribed_event_not_delivered(d: EventDispatch, e: EventView, c: PipelineCounters)
    requires
        !flags_contain(d.event_flags, e.event_type),
    ensures
        forall|i: int| 0 <= i < d.deliveries(e, c).len() ==> #[trigger] d.deliveries(e, c)[i].event_type == STATS_REPORT,
{
    if d.callback_registered {
        let tail: Seq<EventView> = if e.event_type == PIPELINE_END && flags_contain(d.event_flags, STATS_REPORT) {
            seq![c.report(d.dry_run)]
        } else {
            Seq::empty()
        };
        assert(d.deliveries(e, c) =~= tail);
    }
}

/// Every delivered event carries the dispatcher's dry-run flag.
pub proof fn law_deliveries_carry_dry_run(d: EventDispatch, e: EventView, c: PipelineCounters)
    ensures
        forall|i: int| 0 <= i < d.deliveries(e, c).len() ==> #[trigger] d.deliveries(e, c)[i].dry_run == d.dry_run,
{
}

/// The statistics report follows the end of the pipeline exactly when the
/// callback subscribed to both, and carries the counts as they are after
/// the end event.
pub proof fn law_stats_report_after_pipeline_end(d: EventDispatch, e: EventView, c: PipelineCounters)
    requires
        d.callback_registered,
        e.event_type == PIPELINE_END,
        flags_contain(d.event_flags, PIPELINE_END),
        flags_contain(d.event_flags, STATS_REPORT),
    ensures
        d.deliveries(e, c) == seq![EventView { dry_run: d.dry_run, ..e }, c.report(d.dry_run)],
{
    assert(d.deliveries(e, c) =~= seq![EventView { dry_run: d.dry_run, ..e }, c.report(d.dry_run)]);
}

} // verus!
