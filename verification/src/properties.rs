//! Properties of the congestion state machine over sequences of signals.
use vstd::prelude::*;

use crate::congestion::{max_of, min_of, ControllerModel};
use crate::tpu_client::{ClientModel, SendResult, Tally};
use crate::types::{clamp_window, CongestionConfig, CongestionPhase, WINDOW_MAX, WINDOW_MIN};

verus! {

/// A signal the controller reacts to.
pub enum Signal {
    /// A send slot is requested.
    Acquire,
    /// A transaction was acknowledged.
    Ack,
    /// A transaction was lost or backpressure was seen.
    Loss,
}

impl ControllerModel {
    /// The state after one signal.
    pub open spec fn step(self, cfg: CongestionConfig, signal: Signal) -> ControllerModel {
        match signal {
            Signal::Acquire => self.acquired(),
            Signal::Ack => self.acked(cfg),
            Signal::Loss => self.lost(cfg),
        }
    }

    /// The state after a sequence of signals, in order.
    pub open spec fn run(self, cfg: CongestionConfig, signals: Seq<Signal>) -> ControllerModel
        decreases signals.len(),
    {
        if signals.len() == 0 {
            self
        } else {
            self.step(cfg, signals[0]).run(cfg, signals.drop_first())
        }
    }

    /// The state after `n` acknowledgements in a row.
    pub open spec fn acks(self, cfg: CongestionConfig, n: nat) -> ControllerModel
        decreases n,
    {
        if n == 0 {
            self
        } else {
            self.acks(cfg, (n - 1) as nat).acked(cfg)
        }
    }

    /// The state after `n` slot requests in a row.
    pub open spec fn acquires(self, n: nat) -> ControllerModel
        decreases n,
    {
        if n == 0 {
            self
        } else {
            self.acquires((n - 1) as nat).acquired()
        }
    }

    /// The window lies within the configured bounds, the slow-start threshold
    /// is not below `window_min`, no more than `window_max` transactions are in
    /// flight, and acknowledgement pacing is consistent.
    pub open spec fn is_bounded(self, cfg: CongestionConfig) -> bool {
        &&& self.is_wf()
        &&& cfg.window_min <= self.window <= cfg.window_max
        &&& cfg.window_min <= self.ssthresh
        &&& 0 <= self.in_flight <= cfg.window_max
        &&& self.is_paced()
    }

    /// What one complete round trip of acknowledgements leaves behind: the
    /// grown window, a restarted pacing count, and Recovery turned into
    /// CongestionAvoidance.
    pub open spec fn after_round_trip(self, cfg: CongestionConfig) -> ControllerModel {
        let g = (ControllerModel { ack_pending: 0, ..self }).grown(cfg);
        if self.phase == CongestionPhase::Recovery {
            ControllerModel { phase: CongestionPhase::CongestionAvoidance, ..g }
        } else {
            g
        }
    }
}

/// Every controller starts well formed, whatever its configuration: its
/// window lies within the hard limits `[WINDOW_MIN, WINDOW_MAX]`.
pub proof fn initial_state_is_wf(cfg: CongestionConfig)
    ensures
        ControllerModel::initial(cfg).is_wf(),
{
}

/// Every single signal keeps a controller well formed, whatever its
/// configuration.
pub proof fn step_keeps_wf(cfg: CongestionConfig, s: ControllerModel, signal: Signal)
    requires
        s.is_wf(),
    ensures
        s.step(cfg, signal).is_wf(),
{
}

/// Whatever the configuration and the sequence of acquisitions,
/// acknowledgements and losses, the window never leaves the hard limits
/// `[WINDOW_MIN, WINDOW_MAX]` and no more than `WINDOW_MAX` transactions are
/// in flight.
pub proof fn window_within_hard_limits(cfg: CongestionConfig, s: ControllerModel, signals: Seq<Signal>)
    requires
        s.is_wf(),
    ensures
        s.run(cfg, signals).is_wf(),
        WINDOW_MIN <= s.run(cfg, signals).window <= WINDOW_MAX,
    decreases signals.len(),
{
    if signals.len() > 0 {
        step_keeps_wf(cfg, s, signals[0]);
        window_within_hard_limits(cfg, s.step(cfg, signals[0]), signals.drop_first());
    }
}

/// From its initial state, every controller keeps its window within the
/// hard limits under any sequence of signals.
pub proof fn controller_within_hard_limits(cfg: CongestionConfig, signals: Seq<Signal>)
    ensures
        WINDOW_MIN <= ControllerModel::initial(cfg).run(cfg, signals).window <= WINDOW_MAX,
        ControllerModel::initial(cfg).run(cfg, signals).in_flight <= WINDOW_MAX,
{
    initial_state_is_wf(cfg);
    window_within_hard_limits(cfg, ControllerModel::initial(cfg), signals);
}

/// A controller made with a valid configuration starts within its bounds.
pub proof fn initial_state_is_bounded(cfg: CongestionConfig)
    requires
        cfg.is_valid(),
    ensures
        ControllerModel::initial(cfg).is_bounded(cfg),
{
}

/// Every single signal keeps a controller with a valid configuration
/// within its bounds.
pub proof fn step_keeps_bounds(cfg: CongestionConfig, s: ControllerModel, signal: Signal)
    requires
        cfg.is_valid(),
        s.is_bounded(cfg),
    ensures
        s.step(cfg, signal).is_bounded(cfg),
{
    step_keeps_wf(cfg, s, signal);
    loss_scales_window_by_beta(cfg, s);
}

/// Under a valid configuration the window never leaves
/// `[window_min, window_max]` (and so never leaves `[WINDOW_MIN, WINDOW_MAX]`),
/// whatever sequence of acquisitions, acknowledgements and losses arrives.
pub proof fn window_stays_within_bounds(cfg: CongestionConfig, s: ControllerModel, signals: Seq<Signal>)
    requires
        cfg.is_valid(),
        s.is_bounded(cfg),
    ensures
        s.run(cfg, signals).is_bounded(cfg),
        WINDOW_MIN <= s.run(cfg, signals).window <= WINDOW_MAX,
    decreases signals.len(),
{
    if signals.len() > 0 {
        step_keeps_bounds(cfg, s, signals[0]);
        window_stays_within_bounds(cfg, s.step(cfg, signals[0]), signals.drop_first());
    }
}

/// From its initial state, a controller with a valid configuration keeps its
/// window within `[window_min, window_max]` under any sequence of signals.
pub proof fn controller_window_within_bounds(cfg: CongestionConfig, signals: Seq<Signal>)
    requires
        cfg.is_valid(),
    ensures
        ControllerModel::initial(cfg).run(cfg, signals).is_bounded(cfg),
{
    initial_state_is_bounded(cfg);
    window_stays_within_bounds(cfg, ControllerModel::initial(cfg), signals);
}

/// Acknowledgements that do not complete a round trip leave the window,
/// the phase and the threshold alone; they only count up the pacing.
pub proof fn window_constant_within_round_trip(cfg: CongestionConfig, s: ControllerModel, k: nat)
    requires
        s.is_paced(),
        s.in_flight >= 0,
        s.ack_pending + k < s.rtt_length(),
    ensures
        s.acks(cfg, k).window == s.window,
        s.acks(cfg, k).phase == s.phase,
        s.acks(cfg, k).ssthresh == s.ssthresh,
        s.acks(cfg, k).ack_pending == s.ack_pending + k,
        s.acks(cfg, k).in_flight == max_of(s.in_flight - k, 0),
    decreases k,
{
    if k > 0 {
        window_constant_within_round_trip(cfg, s, (k - 1) as nat);
    }
}

/// One full round trip of acknowledgements changes the window exactly once:
/// it doubles in slow start (capped by `ssthresh` and `window_max`, entering
/// CongestionAvoidance on reaching `ssthresh`), grows by `additive_increase`
/// otherwise, and a Recovery phase turns into CongestionAvoidance.
pub proof fn full_round_trip_grows_once(cfg: CongestionConfig, s: ControllerModel)
    requires
        s.is_paced(),
        s.in_flight >= 0,
    ensures
        ({
            let n = (s.rtt_length() - s.ack_pending) as nat;
            let t = s.acks(cfg, n);
            &&& t.window == s.after_round_trip(cfg).window
            &&& t.phase == s.after_round_trip(cfg).phase
            &&& t.ssthresh == s.ssthresh
            &&& t.ack_pending == 0
            &&& t.in_flight == max_of(s.in_flight - n, 0)
        }),
        s.phase == CongestionPhase::SlowStart ==> s.after_round_trip(cfg).window == clamp_window(
            min_of(min_of(2 * s.window, s.ssthresh), cfg.window_max as int),
        ),
        s.phase == CongestionPhase::SlowStart ==> (s.after_round_trip(cfg).phase
            == CongestionPhase::CongestionAvoidance <==> s.after_round_trip(cfg).window >= s.ssthresh),
        s.phase != CongestionPhase::SlowStart ==> s.after_round_trip(cfg).window == clamp_window(
            min_of(s.window + cfg.additive_increase, cfg.window_max as int),
        ),
        s.phase != CongestionPhase::SlowStart ==> s.after_round_trip(cfg).phase
            == CongestionPhase::CongestionAvoidance,
{
    let n = (s.rtt_length() - s.ack_pending) as nat;
    let k = (n - 1) as nat;
    window_constant_within_round_trip(cfg, s, k);
    let p = s.acks(cfg, k);
    assert(p.completes_rtt());
    assert(s.acks(cfg, n) == p.acked(cfg));
}

/// A loss scales the window of a bounded controller by the decrease factor
/// (`floor(window * beta)`, a factor above 1 acting as 1), keeps it at
/// `window_min` or above, never raises it (so it stays at `window_max` or
/// below), and enters Recovery. The default factor halves the window.
pub proof fn loss_scales_window_by_beta(cfg: CongestionConfig, s: ControllerModel)
    requires
        cfg.is_valid(),
        s.is_bounded(cfg),
    ensures
        s.lost(cfg).window == max_of(
            s.window * ControllerModel::effective_permille(cfg) / 1000,
            cfg.window_min as int,
        ),
        cfg.beta_decrease_permille == 500 ==> s.lost(cfg).window == max_of(
            s.window / 2,
            cfg.window_min as int,
        ),
        s.lost(cfg).window <= s.window,
        s.lost(cfg).window >= cfg.window_min,
        s.lost(cfg).phase == CongestionPhase::Recovery,
{
    let p = ControllerModel::effective_permille(cfg);
    assert(s.window * p / 1000 <= s.window) by (nonlinear_arith)
        requires
            0 <= s.window,
            0 <= p <= 1000,
    ;
    assert(s.window * p / 1000 >= 0) by (nonlinear_arith)
        requires
            0 <= s.window,
            0 <= p,
    ;
    if cfg.beta_decrease_permille == 500 {
        assert(s.window * 500 / 1000 == s.window / 2);
    }
}

/// Whatever the configuration, a loss never raises the window of a
/// well-formed controller that is at `window_min` or above.
pub proof fn loss_never_raises_window(cfg: CongestionConfig, s: ControllerModel)
    requires
        s.is_wf(),
        s.window >= cfg.window_min,
    ensures
        s.lost(cfg).window <= s.window,
{
    let p = ControllerModel::effective_permille(cfg);
    assert(s.window * p / 1000 <= s.window) by (nonlinear_arith)
        requires
            0 <= s.window,
            0 <= p <= 1000,
    ;
}

/// Two controllers in the same state whose configurations differ only in
/// the decrease factor end a loss with windows ordered like their factors.
pub proof fn larger_beta_keeps_more_window(
    cfg1: CongestionConfig,
    cfg2: CongestionConfig,
    s: ControllerModel,
)
    requires
        s.is_wf(),
        cfg1.beta_decrease_permille <= cfg2.beta_decrease_permille,
        cfg1.window_min == cfg2.window_min,
    ensures
        s.lost(cfg1).window <= s.lost(cfg2).window,
{
    let p1 = ControllerModel::effective_permille(cfg1);
    let p2 = ControllerModel::effective_permille(cfg2);
    assert(s.window * p1 <= s.window * p2) by (nonlinear_arith)
        requires
            0 <= s.window,
            p1 <= p2,
    ;
    vstd::arithmetic::div_mod::lemma_div_is_ordered(s.window * p1, s.window * p2, 1000);
}

/// Acknowledgements never shrink the window of a bounded controller, except
/// for the round trip that ends slow start above its threshold (the window
/// is then cut to the threshold).
pub proof fn ack_never_shrinks_window(cfg: CongestionConfig, s: ControllerModel)
    requires
        cfg.is_valid(),
        s.is_bounded(cfg),
        !(s.phase == CongestionPhase::SlowStart && s.window > s.ssthresh),
    ensures
        s.acked(cfg).window >= s.window,
{
}

/// A granted slot that is then acknowledged or lost leaves the in-flight
/// count where it was.
pub proof fn acquire_then_release_restores_in_flight(cfg: CongestionConfig, s: ControllerModel)
    requires
        s.in_flight < s.window,
        s.in_flight >= 0,
    ensures
        s.acquired().acked(cfg).in_flight == s.in_flight,
        s.acquired().lost(cfg).in_flight == s.in_flight,
        s.acquired().available() == s.available() - 1,
        s.acquired().in_flight <= s.window,
{
}

/// One send that gets a slot, composed of the steps' contracts: `submit`
/// (from `s0` to `s1`), a granting `poll_slot` (to `s2`; polls that wait
/// leave the state alone) and `complete_send(delivered)` (to `s3`). The
/// in-flight count ends where it started, and the counters move by one
/// whole send with the transport's result.
pub proof fn dispatched_send_restores_in_flight(
    cfg: CongestionConfig,
    s0: ClientModel,
    s1: ClientModel,
    s2: ClientModel,
    s3: ClientModel,
    delivered: bool,
)
    requires
        s0.controller.in_flight >= 0,
        s1.controller == s0.controller,
        Tally::of(s1.stats) == Tally::of(s0.stats).submitted_one(),
        s1.controller.in_flight < s1.controller.window,
        s2.controller == s1.controller.acquired(),
        s2.stats == s1.stats,
        s3.controller == (if delivered {
            s2.controller.acked(cfg)
        } else {
            s2.controller.lost(cfg)
        }),
        Tally::of(s3.stats) == Tally::of(s2.stats).ended(
            if delivered {
                SendResult::Delivered
            } else {
                SendResult::Failed
            },
        ),
    ensures
        s3.controller.in_flight == s0.controller.in_flight,
        Tally::of(s3.stats) == Tally::of(s0.stats).after(
            if delivered {
                SendResult::Delivered
            } else {
                SendResult::Failed
            },
        ),
{
}

/// One send that gives up on an exhausted window, composed of the steps'
/// contracts: `submit` (from `s0` to `s1`) and a `poll_slot` that returns
/// `WindowExhausted` (to `s2`). The controller is untouched and the counters
/// move by one whole exhausted send.
pub proof fn exhausted_send_leaves_controller(s0: ClientModel, s1: ClientModel, s2: ClientModel)
    requires
        s1.controller == s0.controller,
        Tally::of(s1.stats) == Tally::of(s0.stats).submitted_one(),
        s2.controller == s1.controller,
        Tally::of(s2.stats) == Tally::of(s1.stats).ended(SendResult::Exhausted),
    ensures
        s2.controller == s0.controller,
        Tally::of(s2.stats) == Tally::of(s0.stats).after(SendResult::Exhausted),
{
}

// ─── What each operation does ──────────────────────────────────────────────

/// A new controller starts in slow start with nothing in flight, no
/// acknowledgements counted, the configured slow-start threshold, and the
/// configured initial window (brought into the hard limits); every slot of
/// that window is free.
pub proof fn initial_state_fields(cfg: CongestionConfig)
    ensures
        ControllerModel::initial(cfg).ssthresh == cfg.slow_start_threshold,
        ControllerModel::initial(cfg).phase == CongestionPhase::SlowStart,
        ControllerModel::initial(cfg).in_flight == 0,
        ControllerModel::initial(cfg).ack_pending == 0,
        WINDOW_MIN <= ControllerModel::initial(cfg).window <= WINDOW_MAX,
        WINDOW_MIN <= cfg.window_initial <= WINDOW_MAX ==> ControllerModel::initial(cfg).window
            == cfg.window_initial,
        cfg.window_initial < WINDOW_MIN ==> ControllerModel::initial(cfg).window == WINDOW_MIN,
        cfg.window_initial > WINDOW_MAX ==> ControllerModel::initial(cfg).window == WINDOW_MAX,
        ControllerModel::initial(cfg).available() == ControllerModel::initial(cfg).window,
{
}

/// Acquisitions and acknowledgements never change the slow-start threshold.
pub proof fn threshold_kept_without_loss(cfg: CongestionConfig, s: ControllerModel, signals: Seq<Signal>)
    requires
        forall|i: int| 0 <= i < signals.len() ==> !(#[trigger] signals[i] is Loss),
    ensures
        s.run(cfg, signals).ssthresh == s.ssthresh,
    decreases signals.len(),
{
    if signals.len() > 0 {
        assert(!(signals[0] is Loss));
        assert forall|i: int| 0 <= i < signals.drop_first().len() implies !(
        #[trigger] signals.drop_first()[i] is Loss) by {
            assert(signals.drop_first()[i] == signals[i + 1]);
        }
        threshold_kept_without_loss(cfg, s.step(cfg, signals[0]), signals.drop_first());
    }
}

/// Until the first loss, a controller's slow-start threshold is the
/// configured `slow_start_threshold`: slow start keeps doubling until the
/// window reaches it.
pub proof fn threshold_is_configured_until_loss(cfg: CongestionConfig, signals: Seq<Signal>)
    requires
        forall|i: int| 0 <= i < signals.len() ==> !(#[trigger] signals[i] is Loss),
    ensures
        ControllerModel::initial(cfg).run(cfg, signals).ssthresh == cfg.slow_start_threshold,
{
    threshold_kept_without_loss(cfg, ControllerModel::initial(cfg), signals);
}

/// Free slots are the window minus what is in flight, or 0 when the window
/// is full; the slow-start threshold plays no part.
pub proof fn available_is_free_slots(s: ControllerModel)
    requires
        s.is_wf(),
    ensures
        s.in_flight <= s.window ==> s.available() + s.in_flight == s.window,
        s.in_flight >= s.window ==> s.available() == 0,
{
}

/// Exactly `available()` slot requests in a row are granted: each of the
/// first `available()` takes one slot, and the one after is refused.
pub proof fn available_slots_can_be_acquired(s: ControllerModel, k: nat)
    requires
        s.is_wf(),
        k <= s.available(),
    ensures
        s.acquires(k).in_flight == s.in_flight + k,
        s.acquires(k).window == s.window,
        k == s.available() ==> s.acquires(k).in_flight >= s.acquires(k).window,
        k == s.available() ==> s.acquires(k).acquired() == s.acquires(k),
    decreases k,
{
    if k > 0 {
        available_slots_can_be_acquired(s, (k - 1) as nat);
    }
}

/// What one acknowledgement does: it releases a slot, keeps the threshold,
/// and only when it completes a round trip (the window's worth of
/// acknowledgements) grows the window and restarts the count. Slow start
/// doubles (capped by the threshold and `window_max`) and stays in slow start
/// while below the threshold; otherwise the window grows by
/// `additive_increase` and the phase is CongestionAvoidance.
pub proof fn ack_effect(cfg: CongestionConfig, s: ControllerModel)
    requires
        s.is_wf(),
    ensures
        s.acked(cfg).in_flight == (if s.in_flight > 0 {
            s.in_flight - 1
        } else {
            0
        }),
        s.acked(cfg).ssthresh == s.ssthresh,
        s.ack_pending + 1 < s.window ==> {
            &&& s.acked(cfg).window == s.window
            &&& s.acked(cfg).phase == s.phase
            &&& s.acked(cfg).ack_pending == s.ack_pending + 1
        },
        s.ack_pending + 1 == s.window ==> s.acked(cfg).ack_pending == 0,
        s.ack_pending + 1 == s.window && s.phase == CongestionPhase::SlowStart ==> {
            &&& s.acked(cfg).window == max_of(
                min_of(
                    min_of(min_of(2 * s.window, s.ssthresh), cfg.window_max as int),
                    WINDOW_MAX as int,
                ),
                WINDOW_MIN as int,
            )
            &&& (s.acked(cfg).phase == CongestionPhase::CongestionAvoidance) == (s.acked(cfg).window
                >= s.ssthresh)
            &&& (s.acked(cfg).phase == CongestionPhase::SlowStart) == (s.acked(cfg).window
                < s.ssthresh)
        },
        s.ack_pending + 1 == s.window && s.phase != CongestionPhase::SlowStart ==> {
            &&& s.acked(cfg).window == max_of(
                min_of(
                    min_of(s.window + cfg.additive_increase, cfg.window_max as int),
                    WINDOW_MAX as int,
                ),
                WINDOW_MIN as int,
            )
            &&& s.acked(cfg).phase == CongestionPhase::CongestionAvoidance
        },
{
}

/// Only a loss puts a controller into Recovery: acquisitions and
/// acknowledgements never do.
pub proof fn only_loss_enters_recovery(cfg: CongestionConfig, s: ControllerModel, signal: Signal)
    requires
        s.is_wf(),
        s.phase != CongestionPhase::Recovery,
        !(signal is Loss),
    ensures
        s.step(cfg, signal).phase != CongestionPhase::Recovery,
{
}

/// What one loss does: it releases a slot, sets the threshold to the window
/// scaled by the decrease factor (a factor above 1 acting as 1, and never
/// below `window_min` or `WINDOW_MIN`), sets the window to that threshold
/// (within the hard limits), enters Recovery and restarts the count of
/// acknowledgements.
pub proof fn loss_effect(cfg: CongestionConfig, s: ControllerModel)
    requires
        s.is_wf(),
    ensures
        s.lost(cfg).in_flight == (if s.in_flight > 0 {
            s.in_flight - 1
        } else {
            0
        }),
        s.lost(cfg).ssthresh == max_of(
            max_of(
                s.window * min_of(cfg.beta_decrease_permille as int, 1000) / 1000,
                cfg.window_min as int,
            ),
            WINDOW_MIN as int,
        ),
        s.lost(cfg).window == max_of(
            min_of(s.lost(cfg).ssthresh, WINDOW_MAX as int),
            WINDOW_MIN as int,
        ),
        s.lost(cfg).phase == CongestionPhase::Recovery,
        s.lost(cfg).ack_pending == 0,
{
}

/// After a loss, fewer than a whole new window of acknowledgements neither
/// grow the window nor end Recovery; the acknowledgement that completes the
/// new window ends Recovery.
pub proof fn loss_restarts_round_trip(cfg: CongestionConfig, s: ControllerModel, k: nat)
    requires
        s.is_wf(),
        k < s.lost(cfg).window,
    ensures
        s.lost(cfg).acks(cfg, k).window == s.lost(cfg).window,
        s.lost(cfg).acks(cfg, k).phase == CongestionPhase::Recovery,
        s.lost(cfg).acks(cfg, s.lost(cfg).window as nat).phase
            == CongestionPhase::CongestionAvoidance,
{
    let l = s.lost(cfg);
    step_keeps_wf(cfg, s, Signal::Loss);
    window_constant_within_round_trip(cfg, l, k);
    full_round_trip_grows_once(cfg, l);
}

/// The send counters after a sequence of sends, each a submission followed
/// by its result, in order.
pub open spec fn tally_after_all(t: Tally, results: Seq<SendResult>) -> Tally
    decreases results.len(),
{
    if results.len() == 0 {
        t
    } else {
        tally_after_all(t.after(results[0]), results.drop_first())
    }
}

/// How many of `results` are `r`.
pub open spec fn count_of(results: Seq<SendResult>, r: SendResult) -> nat
    decreases results.len(),
{
    if results.len() == 0 {
        0
    } else {
        (if results[0] == r {
            1nat
        } else {
            0nat
        }) + count_of(results.drop_first(), r)
    }
}

/// After `n` sends, `submitted` has grown by `n`, `acknowledged` by the number
/// of deliveries and `backpressured` by the number of sends that gave up on
/// an exhausted window.
pub proof fn tally_counts_sends(t: Tally, results: Seq<SendResult>)
    ensures
        tally_after_all(t, results).submitted == t.submitted + results.len(),
        tally_after_all(t, results).acknowledged == t.acknowledged + count_of(
            results,
            SendResult::Delivered,
        ),
        tally_after_all(t, results).backpressured == t.backpressured + count_of(
            results,
            SendResult::Exhausted,
        ),
    decreases results.len(),
{
    if results.len() > 0 {
        tally_counts_sends(t.after(results[0]), results.drop_first());
    }
}

/// Every send counts as submitted, and at most one of acknowledged and
/// backpressured: from zero counters, `acknowledged + backpressured <=
/// submitted` after any sequence of sends.
pub proof fn acknowledged_and_backpressured_within_submitted(results: Seq<SendResult>)
    ensures
        ({
            let t = tally_after_all(Tally { submitted: 0, acknowledged: 0, backpressured: 0 }, results);
            t.acknowledged + t.backpressured <= t.submitted
        }),
{
    tally_counts_sends(Tally { submitted: 0, acknowledged: 0, backpressured: 0 }, results);
    lemma_counts_within_length(results);
}

proof fn lemma_counts_within_length(results: Seq<SendResult>)
    ensures
        count_of(results, SendResult::Delivered) + count_of(results, SendResult::Exhausted)
            <= results.len(),
    decreases results.len(),
{
    if results.len() > 0 {
        lemma_counts_within_length(results.drop_first());
    }
}

} // verus!
