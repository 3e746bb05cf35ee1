//! The totals of the progress indicator.

use vstd::prelude::*;

use crate::types::{DeletionStatistics, StatsView};

verus! {

/// The totals of the statistics received by the progress indicator.
#[derive(Clone, Copy, Debug, PartialEq, Eq, Structural)]
pub struct IndicatorSummary {
    pub total_delete_count: u64,
    pub total_delete_bytes: u64,
    pub total_error_count: u64,
    pub total_skip_count: u64,
    pub total_warning_count: u64,
}

impl IndicatorSummary {
    /// All totals zero.
    pub fn new() -> (r: Self)
        ensures
            r == (IndicatorSummary {
                total_delete_count: 0,
                total_delete_bytes: 0,
                total_error_count: 0,
                total_skip_count: 0,
                total_warning_count: 0,
            }),
    {
        IndicatorSummary {
            total_delete_count: 0,
            total_delete_bytes: 0,
            total_error_count: 0,
            total_skip_count: 0,
            total_warning_count: 0,
        }
    }

    /// The totals after a statistic: a completed deletion counts one
    /// deleted object, deleted bytes add to the byte total, and errors,
    /// skips and warnings count one each.
    pub open spec fn recorded(self, s: StatsView) -> IndicatorSummary {
        match s {
            StatsView::DeleteComplete(_) => IndicatorSummary {
                total_delete_count: (self.total_delete_count + 1) as u64,
                ..self
            },
            StatsView::DeleteBytes(n) => IndicatorSummary {
                total_delete_bytes: (self.total_delete_bytes + n) as u64,
                ..self
            },
            StatsView::DeleteError(_) => IndicatorSummary { total_error_count: (self.total_error_count + 1) as u64, ..self },
            StatsView::DeleteSkip(_) => IndicatorSummary { total_skip_count: (self.total_skip_count + 1) as u64, ..self },
            StatsView::DeleteWarning(_) => IndicatorSummary {
                total_warning_count: (self.total_warning_count + 1) as u64,
                ..self
            },
        }
    }

    /// Recording the statistic overflows no total.
    pub open spec fn can_record_spec(self, s: StatsView) -> bool {
        match s {
            StatsView::DeleteComplete(_) => self.total_delete_count < u64::MAX,
            StatsView::DeleteBytes(n) => self.total_delete_bytes + n <= u64::MAX,
            StatsView::DeleteError(_) => self.total_error_count < u64::MAX,
            StatsView::DeleteSkip(_) => self.total_skip_count < u64::MAX,
            StatsView::DeleteWarning(_) => self.total_warning_count < u64::MAX,
        }
    }

    /// Decides whether recording the statistic overflows no total.
    pub fn can_record(&self, stats: &DeletionStatistics) -> (r: bool)
        ensures
            r == self.can_record_spec(stats@),
    {
        match stats {
            DeletionStatistics::DeleteComplete { .. } => self.total_delete_count < u64::MAX,
            DeletionStatistics::DeleteBytes(n) => *n <= u64::MAX - self.total_delete_bytes,
            DeletionStatistics::DeleteError { .. } => self.total_error_count < u64::MAX,
            DeletionStatistics::DeleteSkip { .. } => self.total_skip_count < u64::MAX,
            DeletionStatistics::DeleteWarning { .. } => self.total_warning_count < u64::MAX,
        }
    }

    /// Adds a statistic to the totals.
    pub fn record(&mut self, stats: &DeletionStatistics)
        requires
            old(self).can_record_spec(stats@),
        ensures
            *final(self) == old(self).recorded(stats@),
    {
        match stats {
            DeletionStatistics::DeleteComplete { .. } => {
                self.total_delete_count = self.total_delete_count + 1;
            },
            DeletionStatistics::DeleteBytes(n) => {
                self.total_delete_bytes = self.total_delete_bytes + *n;
            },
            DeletionStatistics::DeleteError { .. } => {
                self.total_error_count = self.total_error_count + 1;
            },
            DeletionStatistics::DeleteSkip { .. } => {
                self.total_skip_count = self.total_skip_count + 1;
            },
            DeletionStatistics::DeleteWarning { .. } => {
                self.total_warning_count = self.total_warning_count + 1;
            },
        }
    }
}

/// Recording a statistic adds to its own total only: a completed deletion
/// counts one deleted object, a `DeleteBytes` statistic adds its bytes, and
/// errors, skips and warnings count one each.
pub proof fn law_recording_adds_to_its_own_total(t: IndicatorSummary, s: StatsView)
    requires
        t.can_record_spec(s),
    ensures
        t.recorded(s).total_delete_count == t.total_delete_count + if s is DeleteComplete {
            1int
        } else {
            0int
        },
        t.recorded(s).total_delete_bytes == t.total_delete_bytes + match s {
            StatsView::DeleteBytes(n) => n as int,
            _ => 0int,
        },
        t.recorded(s).total_error_count == t.total_error_count + if s is DeleteError {
            1int
        } else {
            0int
        },
        t.recorded(s).total_skip_count == t.total_skip_count + if s is DeleteSkip {
            1int
        } else {
            0int
        },
        t.recorded(s).total_warning_count == t.total_warning_count + if s is DeleteWarning {
            1int
        } else {
            0int
        },
{
}

} // verus!
