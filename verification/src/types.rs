use vstd::prelude::*;

verus! {

/// Solana slot duration in milliseconds, the base RTT reference.
pub const SLOT_DURATION_MS: u64 = 400;

/// Hard minimum of the send window (transactions in flight).
pub const WINDOW_MIN: usize = 1;

/// Hard maximum of the send window (transactions in flight).
pub const WINDOW_MAX: usize = 512;

/// Default initial window size.
pub const WINDOW_INITIAL: usize = 8;

/// `n` brought into the hard window limits `[WINDOW_MIN, WINDOW_MAX]`.
pub open spec fn clamp_window(n: int) -> int {
    if n < WINDOW_MIN {
        WINDOW_MIN as int
    } else if n > WINDOW_MAX {
        WINDOW_MAX as int
    } else {
        n
    }
}

/// `n` brought into the hard window limits `[WINDOW_MIN, WINDOW_MAX]`.
pub fn clamp_to_window_limits(n: usize) -> (r: usize)
    ensures
        r == clamp_window(n as int),
{
    if n < WINDOW_MIN {
        WINDOW_MIN
    } else if n > WINDOW_MAX {
        WINDOW_MAX
    } else {
        n
    }
}

// ─── Configuration ─────────────────────────────────────────────────────────
/// Parameters of the congestion controller.
///
/// The multiplicative-decrease factor is held in thousandths
/// (`beta_decrease_permille = 500` is a factor of 0.5); a factor above 1000
/// thousandths acts as 1000, so a loss never raises the window.
#[derive(Debug, Clone, Copy)]
pub struct CongestionConfig {
    /// Initial send window (number of transactions allowed in flight).
    pub window_initial: usize,
    /// Minimum window size: never drop below this.
    pub window_min: usize,
    /// Maximum window size: never grow above this.
    pub window_max: usize,
    /// Multiplicative decrease factor on backpressure / loss, in thousandths
    /// (0 < factor < 1000 for a decrease; above 1000 it acts as 1000).
    pub beta_decrease_permille: usize,
    /// Additive increase per RTT cycle.
    pub additive_increase: usize,
    /// Window at which slow start ends.
    pub slow_start_threshold: usize,
    /// How long `send` waits for in-flight capacity before returning
    /// `WindowExhausted`, in milliseconds.
    pub backpressure_timeout_ms: u64,
}

impl CongestionConfig {
    /// The default parameters.
    pub open spec fn default_spec() -> CongestionConfig {
        CongestionConfig {
            window_initial: WINDOW_INITIAL,
            window_min: WINDOW_MIN,
            window_max: WINDOW_MAX,
            beta_decrease_permille: 500,
            additive_increase: 1,
            slow_start_threshold: 32,
            backpressure_timeout_ms: 800,
        }
    }

    /// The bounds are ordered: `WINDOW_MIN <= window_min <= window_initial <=
    /// window_max <= WINDOW_MAX`, and slow start ends no lower than `window_min`.
    pub open spec fn is_valid(self) -> bool {
        &&& WINDOW_MIN <= self.window_min
        &&& self.window_min <= self.window_initial
        &&& self.window_initial <= self.window_max
        &&& self.window_max <= WINDOW_MAX
        &&& self.window_min <= self.slow_start_threshold
    }
}

impl Default for CongestionConfig {
    fn default() -> (cfg: Self)
        ensures
            cfg == CongestionConfig::default_spec(),
    {
        CongestionConfig {
            window_initial: WINDOW_INITIAL,
            window_min: WINDOW_MIN,
            window_max: WINDOW_MAX,
            beta_decrease_permille: 500,
            additive_increase: 1,
            slow_start_threshold: 32,
            backpressure_timeout_ms: SLOT_DURATION_MS * 2,
        }
    }
}

// ─── Window state ───────────────────────────────────────────────────────────
/// Phase of the congestion state machine.
#[derive(Debug, Clone, Copy, PartialEq, Eq, Structural)]
pub enum CongestionPhase {
    /// Exponential growth until `slow_start_threshold`.
    SlowStart,
    /// Additive increase / multiplicative decrease.
    CongestionAvoidance,
    /// Window was reduced due to backpressure: recovering.
    Recovery,
}

/// A snapshot of the send window.
#[derive(Debug, Clone, Copy, PartialEq, Eq, Structural)]
pub struct WindowState {
    pub current_window: usize,
    pub in_flight: usize,
    pub phase: CongestionPhase,
    pub ssthresh: usize,
}

impl WindowState {
    /// The window a controller starts with under `cfg`: the initial window,
    /// brought into the hard limits.
    pub fn new(cfg: &CongestionConfig) -> (w: Self)
        ensures
            w.current_window == clamp_window(cfg.window_initial as int),
            w.in_flight == 0,
            w.phase == CongestionPhase::SlowStart,
            w.ssthresh == cfg.slow_start_threshold,
    {
        WindowState {
            current_window: clamp_to_window_limits(cfg.window_initial),
            in_flight: 0,
            phase: CongestionPhase::SlowStart,
            ssthresh: cfg.slow_start_threshold,
        }
    }

    /// Capacity left in the window: `current_window - in_flight`, or 0 when
    /// more transactions are in flight than the window allows.
    pub open spec fn available_spec(self) -> int {
        if self.in_flight <= self.current_window {
            self.current_window - self.in_flight
        } else {
            0
        }
    }

    /// Available capacity (window minus in-flight, saturating at 0).
    pub fn available(&self) -> (n: usize)
        ensures
            n == self.available_spec(),
            self.in_flight <= self.current_window ==> n + self.in_flight == self.current_window,
            self.in_flight >= self.current_window ==> n == 0,
    {
        self.current_window.saturating_sub(self.in_flight)
    }
}

// ─── Per-send statistics ────────────────────────────────────────────────────
/// Counters of the send path.
#[derive(Debug, Clone, Copy)]
pub struct SendStats {
    /// Total transactions submitted to the send window.
    pub submitted: u64,
    /// Transactions acknowledged.
    pub acknowledged: u64,
    /// Transactions refused because the window was exhausted.
    pub backpressured: u64,
    /// Window reductions triggered.
    pub reductions: u64,
    /// Window increases.
    pub increases: u64,
    /// Peak window size observed.
    pub peak_window: usize,
    /// Last window state recorded.
    pub window: Option<WindowState>,
}

impl SendStats {
    /// All counters at zero and no window recorded.
    pub open spec fn zero() -> SendStats {
        SendStats {
            submitted: 0,
            acknowledged: 0,
            backpressured: 0,
            reductions: 0,
            increases: 0,
            peak_window: 0,
            window: None,
        }
    }
}

impl Default for SendStats {
    fn default() -> (s: Self)
        ensures
            s == SendStats::zero(),
    {
        SendStats {
            submitted: 0,
            acknowledged: 0,
            backpressured: 0,
            reductions: 0,
            increases: 0,
            peak_window: 0,
            window: None,
        }
    }
}

} // verus!
