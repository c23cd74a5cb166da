//! Slot-aware congestion controller.
//!
//! An AIMD (additive increase / multiplicative decrease) send window,
//! calibrated to Solana's slot boundary instead of TCP's ACK clock.
//!
//! State machine:
//!   SlowStart → CongestionAvoidance (when window ≥ ssthresh)
//!   CongestionAvoidance → Recovery   (on backpressure signal)
//!   Recovery            → CongestionAvoidance (after one clean RTT)
//!
//! Every window the controller sets lies within the hard limits
//! `[WINDOW_MIN, WINDOW_MAX]`.
use vstd::prelude::*;

use crate::types::{
    clamp_to_window_limits, clamp_window, CongestionConfig, CongestionPhase, WindowState,
    WINDOW_MAX, WINDOW_MIN,
};

verus! {

/// The smaller of two integers.
pub open spec fn min_of(a: int, b: int) -> int {
    if a <= b {
        a
    } else {
        b
    }
}

/// The larger of two integers.
pub open spec fn max_of(a: int, b: int) -> int {
    if a >= b {
        a
    } else {
        b
    }
}

/// Abstract state of a congestion controller.
pub struct ControllerModel {
    /// Send window: how many transactions may be in flight.
    pub window: int,
    /// Transactions currently in flight.
    pub in_flight: int,
    /// Slow-start threshold.
    pub ssthresh: int,
    /// Phase of the state machine.
    pub phase: CongestionPhase,
    /// Acknowledgements counted since the window last changed.
    pub ack_pending: int,
}

impl ControllerModel {
    /// The state a controller starts in under `cfg`.
    pub open spec fn initial(cfg: CongestionConfig) -> ControllerModel {
        ControllerModel {
            window: clamp_window(cfg.window_initial as int),
            in_flight: 0,
            ssthresh: cfg.slow_start_threshold as int,
            phase: CongestionPhase::SlowStart,
            ack_pending: 0,
        }
    }

    /// Free send slots: `window - in_flight`, at least 0.
    pub open spec fn available(self) -> int {
        max_of(self.window - self.in_flight, 0)
    }

    /// Number of acknowledgements that make up one round trip.
    pub open spec fn rtt_length(self) -> int {
        max_of(self.window, 1)
    }

    /// Acknowledgement pacing is consistent: fewer acknowledgements are
    /// pending than one round trip holds.
    pub open spec fn is_paced(self) -> bool {
        0 <= self.ack_pending < self.rtt_length()
    }

    /// The window lies within the hard limits, at most `WINDOW_MAX`
    /// transactions are in flight, counts are non-negative and
    /// acknowledgement pacing is consistent.
    pub open spec fn is_wf(self) -> bool {
        &&& WINDOW_MIN <= self.window <= WINDOW_MAX
        &&& 0 <= self.in_flight <= WINDOW_MAX
        &&& self.ssthresh >= 0
        &&& self.is_paced()
    }

    /// Claiming a send slot: granted exactly when `in_flight < window`.
    pub open spec fn acquired(self) -> ControllerModel {
        if self.in_flight < self.window {
            ControllerModel { in_flight: self.in_flight + 1, ..self }
        } else {
            self
        }
    }

    /// Giving back one in-flight slot (never below zero).
    pub open spec fn released(self) -> ControllerModel {
        ControllerModel { in_flight: max_of(self.in_flight - 1, 0), ..self }
    }

    /// Window growth at the end of a round trip: doubling (capped by
    /// `ssthresh` and `window_max`) in slow start, adding
    /// `additive_increase` (capped by `window_max`) otherwise; either way
    /// kept within the hard limits.
    pub open spec fn grown(self, cfg: CongestionConfig) -> ControllerModel {
        match self.phase {
            CongestionPhase::SlowStart => {
                let next = clamp_window(
                    min_of(min_of(2 * self.window, self.ssthresh), cfg.window_max as int),
                );
                ControllerModel {
                    window: next,
                    phase: if next >= self.ssthresh {
                        CongestionPhase::CongestionAvoidance
                    } else {
                        CongestionPhase::SlowStart
                    },
                    ..self
                }
            },
            _ => ControllerModel {
                window: clamp_window(
                    min_of(self.window + cfg.additive_increase, cfg.window_max as int),
                ),
                ..self
            },
        }
    }

    /// Whether the next acknowledgement completes a round trip.
    pub open spec fn completes_rtt(self) -> bool {
        self.ack_pending + 1 >= self.rtt_length()
    }

    /// The state after one acknowledgement: one slot is released; if this
    /// completes a round trip the window grows, the pacing count restarts,
    /// and Recovery gives way to CongestionAvoidance.
    pub open spec fn acked(self, cfg: CongestionConfig) -> ControllerModel {
        let r = self.released();
        if self.completes_rtt() {
            let g = (ControllerModel { ack_pending: 0, ..r }).grown(cfg);
            if self.phase == CongestionPhase::Recovery {
                ControllerModel { phase: CongestionPhase::CongestionAvoidance, ..g }
            } else {
                g
            }
        } else {
            ControllerModel { ack_pending: self.ack_pending + 1, ..r }
        }
    }

    /// The decrease factor in thousandths, capped at 1000: a factor above 1
    /// acts as 1, so a loss never raises the window.
    pub open spec fn effective_permille(cfg: CongestionConfig) -> int {
        min_of(cfg.beta_decrease_permille as int, 1000)
    }

    /// The window scaled by the (capped) decrease factor: `floor(window * beta)`.
    pub open spec fn decreased(self, cfg: CongestionConfig) -> int {
        self.window * Self::effective_permille(cfg) / 1000
    }

    /// Slow-start threshold set on a loss:
    /// `max(floor(window * beta), window_min, WINDOW_MIN)`, with `beta` capped at 1.
    pub open spec fn loss_threshold(self, cfg: CongestionConfig) -> int {
        max_of(max_of(self.decreased(cfg), cfg.window_min as int), WINDOW_MIN as int)
    }

    /// The state after a loss: one slot is released, the window becomes the
    /// loss threshold (kept within the hard limits), the phase becomes
    /// Recovery and the pacing count restarts.
    pub open spec fn lost(self, cfg: CongestionConfig) -> ControllerModel {
        let ss = self.loss_threshold(cfg);
        ControllerModel {
            window: clamp_window(ss),
            in_flight: max_of(self.in_flight - 1, 0),
            ssthresh: ss,
            phase: CongestionPhase::Recovery,
            ack_pending: 0,
        }
    }
}

/// AIMD congestion controller.
///
/// A copy is an independent controller with the same state.
#[derive(Clone, Copy)]
pub struct CongestionController {
    cfg: CongestionConfig,
    win: WindowState,
    /// How many successful acks have accumulated since the last window increase.
    ack_pending: usize,
}

impl View for CongestionController {
    type V = ControllerModel;

    closed spec fn view(&self) -> ControllerModel {
        ControllerModel {
            window: self.win.current_window as int,
            in_flight: self.win.in_flight as int,
            ssthresh: self.win.ssthresh as int,
            phase: self.win.phase,
            ack_pending: self.ack_pending as int,
        }
    }
}

impl CongestionController {
    #[verifier::type_invariant]
    spec fn well_formed(self) -> bool {
        self@.is_wf()
    }

    /// The configuration the controller was made with.
    pub closed spec fn config(&self) -> CongestionConfig {
        self.cfg
    }

    /// A controller in its initial state under `cfg`.
    pub fn new(cfg: CongestionConfig) -> (c: Self)
        ensures
            c@ == ControllerModel::initial(cfg),
            c.config() == cfg,
            c@.ssthresh == cfg.slow_start_threshold,
            c@.phase == CongestionPhase::SlowStart,
            c@.in_flight == 0,
            c@.ack_pending == 0,
            c@.window == clamp_window(cfg.window_initial as int),
    {
        let win = WindowState::new(&cfg);
        CongestionController { cfg, win, ack_pending: 0 }
    }

    /// How long a send waits for a free slot, in milliseconds.
    pub fn backpressure_timeout_ms(&self) -> (ms: u64)
        ensures
            ms == self.config().backpressure_timeout_ms,
    {
        self.cfg.backpressure_timeout_ms
    }

    /// Number of send slots available right now.
    pub fn available(&self) -> (n: usize)
        ensures
            n == self@.available(),
    {
        self.win.available()
    }

    /// Try to claim one send slot. Returns `true` if the slot was granted.
    pub fn try_acquire(&mut self) -> (granted: bool)
        ensures
            granted == (old(self)@.in_flight < old(self)@.window),
            final(self)@ == old(self)@.acquired(),
            final(self).config() == old(self).config(),
    {
        proof {
            use_type_invariant(&*self);
        }
        if self.win.in_flight < self.win.current_window {
            self.win.in_flight = self.win.in_flight + 1;
            true
        } else {
            false
        }
    }

    /// Signal a successful delivery: releases a slot and, once per round
    /// trip, grows the window.
    pub fn on_ack(&mut self)
        ensures
            final(self)@ == old(self)@.acked(old(self).config()),
            final(self).config() == old(self).config(),
    {
        proof {
            use_type_invariant(&*self);
        }
        let mut win = self.win;
        win.in_flight = win.in_flight.saturating_sub(1);
        let pending = self.ack_pending + 1;
        let rtt_length = if win.current_window >= 1 {
            win.current_window
        } else {
            1
        };
        let rtt_complete = pending >= rtt_length;
        if rtt_complete {
            let mut grown = Self::grow_window(&self.cfg, win);
            if grown.phase == CongestionPhase::Recovery {
                grown.phase = CongestionPhase::CongestionAvoidance;
            }
            *self = CongestionController { cfg: self.cfg, win: grown, ack_pending: 0 };
        } else {
            *self = CongestionController { cfg: self.cfg, win, ack_pending: pending };
        }
    }

    /// Signal backpressure or packet loss: releases a slot and shrinks the
    /// window by the decrease factor.
    pub fn on_loss(&mut self)
        ensures
            final(self)@ == old(self)@.lost(old(self).config()),
            final(self).config() == old(self).config(),
    {
        proof {
            use_type_invariant(&*self);
        }
        let mut win = self.win;
        win.in_flight = win.in_flight.saturating_sub(1);
        let shrunk = Self::shrink_window(&self.cfg, win);
        *self = CongestionController { cfg: self.cfg, win: shrunk, ack_pending: 0 };
    }

    /// AIMD increase of `win` under `cfg`.
    fn grow_window(cfg: &CongestionConfig, win: WindowState) -> (next: WindowState)
        requires
            WINDOW_MIN <= win.current_window <= WINDOW_MAX,
        ensures
            ({
                let m = ControllerModel {
                    window: win.current_window as int,
                    in_flight: win.in_flight as int,
                    ssthresh: win.ssthresh as int,
                    phase: win.phase,
                    ack_pending: 0,
                };
                &&& next.current_window == m.grown(*cfg).window
                &&& next.phase == m.grown(*cfg).phase
            }),
            next.in_flight == win.in_flight,
            next.ssthresh == win.ssthresh,
    {
        let mut next = win;
        match win.phase {
            CongestionPhase::SlowStart => {
                let doubled = win.current_window * 2;
                let capped = if doubled <= win.ssthresh {
                    doubled
                } else {
                    win.ssthresh
                };
                let limited = if capped <= cfg.window_max {
                    capped
                } else {
                    cfg.window_max
                };
                next.current_window = clamp_to_window_limits(limited);
                if next.current_window >= win.ssthresh {
                    next.phase = CongestionPhase::CongestionAvoidance;
                }
            },
            CongestionPhase::CongestionAvoidance | CongestionPhase::Recovery => {
                let sum = win.current_window.saturating_add(cfg.additive_increase);
                let limited = if sum <= cfg.window_max {
                    sum
                } else {
                    cfg.window_max
                };
                next.current_window = clamp_to_window_limits(limited);
            },
        }
        next
    }

    /// AIMD decrease of `win` under `cfg`.
    fn shrink_window(cfg: &CongestionConfig, win: WindowState) -> (next: WindowState)
        requires
            WINDOW_MIN <= win.current_window <= WINDOW_MAX,
        ensures
            ({
                let m = ControllerModel {
                    window: win.current_window as int,
                    in_flight: win.in_flight as int,
                    ssthresh: win.ssthresh as int,
                    phase: win.phase,
                    ack_pending: 0,
                };
                &&& next.current_window == m.lost(*cfg).window
                &&& next.ssthresh == m.lost(*cfg).ssthresh
            }),
            next.phase == CongestionPhase::Recovery,
            next.in_flight == win.in_flight,
    {
        let w = win.current_window;
        let p = if cfg.beta_decrease_permille <= 1000 {
            cfg.beta_decrease_permille
        } else {
            1000
        };
        proof {
            lemma_scaled_window_fits(w as int, p as int);
        }
        let scaled = w * p / 1000;
        let at_least_min = if scaled >= cfg.window_min {
            scaled
        } else {
            cfg.window_min
        };
        let ssthresh = if at_least_min >= WINDOW_MIN {
            at_least_min
        } else {
            WINDOW_MIN
        };
        WindowState {
            current_window: clamp_to_window_limits(ssthresh),
            in_flight: win.in_flight,
            phase: CongestionPhase::Recovery,
            ssthresh,
        }
    }

    /// Snapshot of the current window state.
    pub fn window_state(&self) -> (w: WindowState)
        ensures
            w.current_window == self@.window,
            w.in_flight == self@.in_flight,
            w.ssthresh == self@.ssthresh,
            w.phase == self@.phase,
    {
        self.win
    }

    /// Current send window size.
    pub fn window_size(&self) -> (n: usize)
        ensures
            n == self@.window,
    {
        self.win.current_window
    }

    /// Current in-flight count.
    pub fn in_flight(&self) -> (n: usize)
        ensures
            n == self@.in_flight,
    {
        self.win.in_flight
    }
}

/// A window of at most `WINDOW_MAX` scaled by at most 1000 thousandths fits
/// in a `usize` product and is not raised by the scaling.
proof fn lemma_scaled_window_fits(w: int, p: int)
    requires
        0 <= w <= 512,
        0 <= p <= 1000,
    ensures
        0 <= w * p <= 512 * 1000,
        0 <= w * p / 1000 <= w,
{
    assert(0 <= w * p <= 512 * 1000) by (nonlinear_arith)
        requires
            0 <= w <= 512,
            0 <= p <= 1000,
    ;
    assert(w * p / 1000 <= w) by (nonlinear_arith)
        requires
            0 <= w,
            0 <= p <= 1000,
    ;
    assert(w * p / 1000 >= 0) by (nonlinear_arith)
        requires
            0 <= w,
            0 <= p,
    ;
}

} // verus!
