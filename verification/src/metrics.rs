//! Counters of the send path.
use vstd::prelude::*;

use crate::types::{SendStats, WindowState};

verus! {

/// Accumulates per-operation events into `SendStats`.
pub struct MetricsRecorder {
    stats: SendStats,
}

impl View for MetricsRecorder {
    type V = SendStats;

    closed spec fn view(&self) -> SendStats {
        self.stats
    }
}

impl MetricsRecorder {
    /// A recorder with every counter at zero.
    pub fn new() -> (m: Self)
        ensures
            m@ == SendStats::zero(),
    {
        MetricsRecorder { stats: SendStats::default() }
    }

    /// The counters recorded so far.
    pub fn stats(&self) -> (s: SendStats)
        ensures
            s == self@,
    {
        self.stats
    }

    /// Count one submitted transaction.
    pub fn record_submit(&mut self)
        requires
            old(self)@.submitted < u64::MAX,
        ensures
            final(self)@.submitted == old(self)@.submitted + 1,
            final(self)@ == (SendStats { submitted: final(self)@.submitted, ..old(self)@ }),
    {
        self.stats.submitted = self.stats.submitted + 1;
    }

    /// Count one acknowledged transaction.
    pub fn record_ack(&mut self)
        requires
            old(self)@.acknowledged < u64::MAX,
        ensures
            final(self)@.acknowledged == old(self)@.acknowledged + 1,
            final(self)@ == (SendStats { acknowledged: final(self)@.acknowledged, ..old(self)@ }),
    {
        self.stats.acknowledged = self.stats.acknowledged + 1;
    }

    /// Count one transaction refused by backpressure.
    pub fn record_backpressure(&mut self)
        requires
            old(self)@.backpressured < u64::MAX,
        ensures
            final(self)@.backpressured == old(self)@.backpressured + 1,
            final(self)@ == (SendStats { backpressured: final(self)@.backpressured, ..old(self)@ }),
    {
        self.stats.backpressured = self.stats.backpressured + 1;
    }

    /// Count one window increase to `new_size`, raising the peak if exceeded.
    pub fn record_window_increase(&mut self, new_size: usize)
        requires
            old(self)@.increases < u64::MAX,
        ensures
            final(self)@.increases == old(self)@.increases + 1,
            final(self)@.peak_window == (if new_size > old(self)@.peak_window {
                new_size
            } else {
                old(self)@.peak_window
            }),
            final(self)@ == (SendStats {
                increases: final(self)@.increases,
                peak_window: final(self)@.peak_window,
                ..old(self)@
            }),
    {
        self.stats.increases = self.stats.increases + 1;
        if new_size > self.stats.peak_window {
            self.stats.peak_window = new_size;
        }
    }

    /// Count one window reduction.
    pub fn record_window_decrease(&mut self)
        requires
            old(self)@.reductions < u64::MAX,
        ensures
            final(self)@.reductions == old(self)@.reductions + 1,
            final(self)@ == (SendStats { reductions: final(self)@.reductions, ..old(self)@ }),
    {
        self.stats.reductions = self.stats.reductions + 1;
    }

    /// Record the latest window state.
    pub fn set_window_state(&mut self, w: WindowState)
        ensures
            final(self)@ == (SendStats { window: Some(w), ..old(self)@ }),
    {
        self.stats.window = Some(w);
    }
}

impl Default for MetricsRecorder {
    fn default() -> (m: Self)
        ensures
            m@ == SendStats::zero(),
    {
        Self::new()
    }
}

} // verus!
