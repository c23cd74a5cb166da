//! The decisions of a congestion-controlled TPU client.
//!
//! Sending a transaction is split around the waiting and the transport call:
//! `submit` counts the submission; `poll_slot` claims a window slot, asks the
//! caller to wait while the backpressure timeout has not elapsed, or gives
//! up with `WindowExhausted`; `complete_send` feeds the transport's outcome
//! back into the window and the counters.
use vstd::prelude::*;

use crate::congestion::{CongestionController, ControllerModel};
use crate::error::{TpuCcError, TpuCcResult};
use crate::metrics::MetricsRecorder;
use crate::types::{CongestionConfig, SendStats, WindowState};

verus! {

/// Abstract state of a client: its congestion controller and its counters.
pub struct ClientModel {
    pub controller: ControllerModel,
    pub stats: SendStats,
}

/// What a send does after polling for a window slot.
#[derive(Debug, Clone, Copy, PartialEq, Eq, Structural)]
pub enum SlotPoll {
    /// A slot was claimed: dispatch the transaction.
    Granted,
    /// No slot is free and the backpressure timeout has not elapsed: wait
    /// and poll again.
    Wait,
}

/// How one send ended.
pub enum SendResult {
    /// The transport delivered the transaction.
    Delivered,
    /// The transport failed.
    Failed,
    /// No slot came free before the backpressure timeout.
    Exhausted,
}

/// The counters that account for sends.
pub struct Tally {
    pub submitted: int,
    pub acknowledged: int,
    pub backpressured: int,
}

impl Tally {
    /// The send counters of `s`.
    pub open spec fn of(s: SendStats) -> Tally {
        Tally {
            submitted: s.submitted as int,
            acknowledged: s.acknowledged as int,
            backpressured: s.backpressured as int,
        }
    }

    /// One more submission.
    pub open spec fn submitted_one(self) -> Tally {
        Tally { submitted: self.submitted + 1, ..self }
    }

    /// The end of a send with result `r`.
    pub open spec fn ended(self, r: SendResult) -> Tally {
        match r {
            SendResult::Delivered => Tally { acknowledged: self.acknowledged + 1, ..self },
            SendResult::Failed => self,
            SendResult::Exhausted => Tally { backpressured: self.backpressured + 1, ..self },
        }
    }

    /// One whole send: a submission, then its end.
    pub open spec fn after(self, r: SendResult) -> Tally {
        self.submitted_one().ended(r)
    }
}

/// TPU client state with slot-aware congestion control.
pub struct TpuClientCc {
    cc: CongestionController,
    metrics: MetricsRecorder,
}

impl View for TpuClientCc {
    type V = ClientModel;

    closed spec fn view(&self) -> ClientModel {
        ClientModel { controller: self.cc@, stats: self.metrics@ }
    }
}

impl TpuClientCc {
    /// The configuration of the congestion controller.
    pub closed spec fn config(&self) -> CongestionConfig {
        self.cc.config()
    }

    /// A client with the default configuration.
    pub fn new() -> (c: Self)
        ensures
            c@ == (ClientModel {
                controller: ControllerModel::initial(CongestionConfig::default_spec()),
                stats: SendStats::zero(),
            }),
            c.config() == CongestionConfig::default_spec(),
    {
        Self::with_config(CongestionConfig::default())
    }

    /// A client with an explicit configuration.
    pub fn with_config(cfg: CongestionConfig) -> (c: Self)
        ensures
            c@ == (ClientModel { controller: ControllerModel::initial(cfg), stats: SendStats::zero() }),
            c.config() == cfg,
    {
        TpuClientCc { cc: CongestionController::new(cfg), metrics: MetricsRecorder::new() }
    }

    /// Whether the counters can take a `submit` (the condition it requires).
    pub fn can_submit(&self) -> (ok: bool)
        ensures
            ok == (self@.stats.submitted < u64::MAX),
    {
        self.metrics.stats().submitted < u64::MAX
    }

    /// Count one submitted transaction.
    pub fn submit(&mut self)
        requires
            old(self)@.stats.submitted < u64::MAX,
        ensures
            final(self).config() == old(self).config(),
            final(self)@.controller == old(self)@.controller,
            final(self)@.stats.submitted == old(self)@.stats.submitted + 1,
            final(self)@.stats == (SendStats {
                submitted: final(self)@.stats.submitted,
                ..old(self)@.stats
            }),
            Tally::of(final(self)@.stats) == Tally::of(old(self)@.stats).submitted_one(),
    {
        self.metrics.record_submit();
    }

    /// Whether the counters can take a `poll_slot(waited_ms)` (the condition
    /// it requires).
    pub fn can_poll_slot(&self, waited_ms: u64) -> (ok: bool)
        ensures
            ok == ({
                &&& self@.controller.in_flight >= self@.controller.window
                &&& waited_ms >= self.config().backpressure_timeout_ms
            } ==> self@.stats.backpressured < u64::MAX),
    {
        self.cc.in_flight() < self.cc.window_size() || waited_ms < self.cc.backpressure_timeout_ms()
            || self.metrics.stats().backpressured < u64::MAX
    }

    /// Poll for a window slot after waiting `waited_ms` milliseconds for it.
    /// A free slot is claimed (`Granted`); with no free slot the caller waits
    /// (`Wait`) until `backpressure_timeout_ms` has elapsed, and then the send
    /// is counted as backpressured and `WindowExhausted` reports the window
    /// and the in-flight count.
    pub fn poll_slot(&mut self, waited_ms: u64) -> (r: TpuCcResult<SlotPoll>)
        requires
            ({
                &&& old(self)@.controller.in_flight >= old(self)@.controller.window
                &&& waited_ms >= old(self).config().backpressure_timeout_ms
            }) ==> old(self)@.stats.backpressured < u64::MAX,
        ensures
            final(self).config() == old(self).config(),
            old(self)@.controller.in_flight < old(self)@.controller.window ==> {
                &&& r == Ok::<SlotPoll, TpuCcError>(SlotPoll::Granted)
                &&& final(self)@.controller == old(self)@.controller.acquired()
                &&& final(self)@.stats == old(self)@.stats
            },
            old(self)@.controller.in_flight >= old(self)@.controller.window && waited_ms
                < old(self).config().backpressure_timeout_ms ==> {
                &&& r == Ok::<SlotPoll, TpuCcError>(SlotPoll::Wait)
                &&& final(self)@ == old(self)@
            },
            old(self)@.controller.in_flight >= old(self)@.controller.window && waited_ms
                >= old(self).config().backpressure_timeout_ms ==> {
                &&& r == Err::<SlotPoll, TpuCcError>(
                    TpuCcError::WindowExhausted {
                        window: old(self)@.controller.window as usize,
                        in_flight: old(self)@.controller.in_flight as usize,
                    },
                )
                &&& final(self)@.controller == old(self)@.controller
                &&& final(self)@.stats.backpressured == old(self)@.stats.backpressured + 1
                &&& final(self)@.stats == (SendStats {
                    backpressured: final(self)@.stats.backpressured,
                    ..old(self)@.stats
                })
                &&& Tally::of(final(self)@.stats) == Tally::of(old(self)@.stats).ended(
                    SendResult::Exhausted,
                )
            },
    {
        if self.cc.try_acquire() {
            return Ok(SlotPoll::Granted);
        }
        if waited_ms < self.cc.backpressure_timeout_ms() {
            return Ok(SlotPoll::Wait);
        }
        self.metrics.record_backpressure();
        Err(
            TpuCcError::WindowExhausted {
                window: self.cc.window_size(),
                in_flight: self.cc.in_flight(),
            },
        )
    }

    /// Whether the counters can take a `complete_send(delivered)` (the
    /// condition it requires).
    pub fn can_complete_send(&self, delivered: bool) -> (ok: bool)
        ensures
            ok == if delivered {
                &&& self@.stats.acknowledged < u64::MAX
                &&& self@.controller.acked(self.config()).window > self@.controller.window
                    ==> self@.stats.increases < u64::MAX
            } else {
                self@.controller.lost(self.config()).window < self@.controller.window
                    ==> self@.stats.reductions < u64::MAX
            },
    {
        let s = self.metrics.stats();
        let before = self.cc.window_size();
        let mut probe = self.cc;
        if delivered {
            if s.acknowledged == u64::MAX {
                return false;
            }
            probe.on_ack();
            probe.window_size() <= before || s.increases < u64::MAX
        } else {
            probe.on_loss();
            probe.window_size() >= before || s.reductions < u64::MAX
        }
    }

    /// Feed the transport's outcome for a dispatched transaction back in. A
    /// delivery is an acknowledgement (counted, and a window increase is
    /// counted with the new peak); a failure is a loss (a window reduction
    /// is counted when the window shrank).
    pub fn complete_send(&mut self, delivered: bool)
        requires
            delivered ==> old(self)@.stats.acknowledged < u64::MAX,
            delivered && old(self)@.controller.acked(old(self).config()).window
                > old(self)@.controller.window ==> old(self)@.stats.increases < u64::MAX,
            !delivered && old(self)@.controller.lost(old(self).config()).window
                < old(self)@.controller.window ==> old(self)@.stats.reductions < u64::MAX,
        ensures
            final(self).config() == old(self).config(),
            Tally::of(final(self)@.stats) == Tally::of(old(self)@.stats).ended(
                if delivered {
                    SendResult::Delivered
                } else {
                    SendResult::Failed
                },
            ),
            delivered ==> {
                let before = old(self)@.controller.window;
                let after = final(self)@.controller.window;
                &&& final(self)@.controller == old(self)@.controller.acked(old(self).config())
                &&& final(self)@.stats.acknowledged == old(self)@.stats.acknowledged + 1
                &&& after > before ==> final(self)@.stats.increases == old(self)@.stats.increases
                    + 1
                &&& after > before ==> final(self)@.stats.peak_window == (if after
                    > old(self)@.stats.peak_window {
                    after
                } else {
                    old(self)@.stats.peak_window as int
                })
                &&& after <= before ==> final(self)@.stats.increases
                    == old(self)@.stats.increases
                &&& after <= before ==> final(self)@.stats.peak_window
                    == old(self)@.stats.peak_window
                &&& final(self)@.stats == (SendStats {
                    acknowledged: final(self)@.stats.acknowledged,
                    increases: final(self)@.stats.increases,
                    peak_window: final(self)@.stats.peak_window,
                    ..old(self)@.stats
                })
            },
            !delivered ==> {
                let before = old(self)@.controller.window;
                let after = final(self)@.controller.window;
                &&& final(self)@.controller == old(self)@.controller.lost(old(self).config())
                &&& after < before ==> final(self)@.stats.reductions == old(self)@.stats.reductions
                    + 1
                &&& after >= before ==> final(self)@.stats.reductions
                    == old(self)@.stats.reductions
                &&& final(self)@.stats == (SendStats {
                    reductions: final(self)@.stats.reductions,
                    ..old(self)@.stats
                })
            },
    {
        if delivered {
            let prev_win = self.cc.window_size();
            self.cc.on_ack();
            let new_win = self.cc.window_size();
            self.metrics.record_ack();
            if new_win > prev_win {
                self.metrics.record_window_increase(new_win);
            }
        } else {
            let prev_win = self.cc.window_size();
            self.cc.on_loss();
            let new_win = self.cc.window_size();
            if new_win < prev_win {
                self.metrics.record_window_decrease();
            }
        }
    }

    /// The counters recorded so far.
    pub fn stats(&self) -> (s: SendStats)
        ensures
            s == self@.stats,
    {
        self.metrics.stats()
    }

    /// Snapshot of the current window state.
    pub fn window_state(&self) -> (w: WindowState)
        ensures
            w.current_window == self@.controller.window,
            w.in_flight == self@.controller.in_flight,
            w.ssthresh == self@.controller.ssthresh,
            w.phase == self@.controller.phase,
    {
        self.cc.window_state()
    }

    /// Current window size.
    pub fn window_size(&self) -> (n: usize)
        ensures
            n == self@.controller.window,
    {
        self.cc.window_size()
    }

    /// Current in-flight count.
    pub fn in_flight(&self) -> (n: usize)
        ensures
            n == self@.controller.in_flight,
    {
        self.cc.in_flight()
    }
}

/// How many of the sends in a batch succeeded.
pub open spec fn successes(delivered: Seq<bool>) -> nat
    decreases delivered.len(),
{
    if delivered.len() == 0 {
        0
    } else {
        successes(delivered.drop_last()) + if delivered.last() {
            1nat
        } else {
            0nat
        }
    }
}

/// The predicate picking delivered sends out of a batch.
pub open spec fn was_delivered() -> spec_fn(bool) -> bool {
    |b: bool| b
}

/// The predicate picking failed sends out of a batch.
pub open spec fn was_not_delivered() -> spec_fn(bool) -> bool {
    |b: bool| !b
}

/// The success count of a batch is the number of delivered sends in it, and
/// success and failure counts add up to the batch size.
pub proof fn successes_counts_delivered(delivered: Seq<bool>)
    ensures
        successes(delivered) == delivered.filter(was_delivered()).len(),
        delivered.len() - successes(delivered) == delivered.filter(was_not_delivered()).len(),
    decreases delivered.len(),
{
    reveal(Seq::filter);
    if delivered.len() > 0 {
        successes_counts_delivered(delivered.drop_last());
    }
}

/// Count the succeeded and the failed sends of a batch:
/// `(succeeded, failed)`, which add up to the batch size.
pub fn tally_batch(delivered: &Vec<bool>) -> (counts: (usize, usize))
    ensures
        counts.0 == successes(delivered@),
        counts.0 == delivered@.filter(was_delivered()).len(),
        counts.1 == delivered@.filter(was_not_delivered()).len(),
        counts.0 + counts.1 == delivered@.len(),
{
    let mut ok: usize = 0;
    let mut fail: usize = 0;
    let mut i: usize = 0;
    while i < delivered.len()
        invariant
            i <= delivered@.len(),
            ok == successes(delivered@.take(i as int)),
            ok + fail == i,
        decreases delivered@.len() - i,
    {
        assert(delivered@.take(i + 1).drop_last() == delivered@.take(i as int));
        if delivered[i] {
            ok = ok + 1;
        } else {
            fail = fail + 1;
        }
        i = i + 1;
    }
    assert(delivered@.take(i as int) == delivered@);
    proof {
        successes_counts_delivered(delivered@);
    }
    (ok, fail)
}

/// The call counter of a simulated transport. With a failure period of
/// `Some(n)` every n-th call fails; with `None` no call fails.
pub struct SimulatedFailures {
    call_count: usize,
}

impl SimulatedFailures {
    /// Calls made so far.
    pub closed spec fn calls(&self) -> nat {
        self.call_count as nat
    }

    /// A counter with no calls made.
    pub fn new() -> (f: Self)
        ensures
            f.calls() == 0,
    {
        SimulatedFailures { call_count: 0 }
    }

    /// Calls made so far.
    pub fn call_count(&self) -> (n: usize)
        ensures
            n == self.calls(),
    {
        self.call_count
    }

    /// Count one call and say whether it fails under the failure period
    /// `fail_every`: the k-th call (from 1) fails exactly when `k` is a
    /// multiple of the period. A period of 0 is refused, as no call can be
    /// placed in it.
    pub fn next_call_fails(&mut self, fail_every: Option<usize>) -> (fails: bool)
        requires
            old(self).calls() < usize::MAX,
            fail_every != Some(0usize),
        ensures
            final(self).calls() == old(self).calls() + 1,
            fails == (match fail_every {
                Some(n) => (old(self).calls() + 1) % (n as nat) == 0,
                None => false,
            }),
    {
        self.call_count = self.call_count + 1;
        match fail_every {
            Some(n) => self.call_count % n == 0,
            None => false,
        }
    }
}

} // verus!
