use solana_tpu_client_cc::{
    CongestionConfig, CongestionController, CongestionPhase, WINDOW_INITIAL, WINDOW_MAX,
    WINDOW_MIN,
};

fn default_ctrl() -> CongestionController {
    CongestionController::new(CongestionConfig::default())
}

// ─── Unit tests of the controller ───────────────────────────────────────────

#[test]
fn initial_window_is_configured_value() {
    let c = default_ctrl();
    assert_eq!(c.window_size(), WINDOW_INITIAL);
}

#[test]
fn acquire_decrements_available() {
    let mut c = default_ctrl();
    let avail_before = c.available();
    assert!(c.try_acquire());
    assert_eq!(c.available(), avail_before - 1);
}

#[test]
fn window_exhausted_returns_false() {
    let mut c = default_ctrl();
    for _ in 0..c.window_size() {
        assert!(c.try_acquire());
    }
    assert!(!c.try_acquire());
}

#[test]
fn ack_releases_slot_and_grows_window() {
    let mut c = default_ctrl();
    let initial = c.window_size();
    for _ in 0..initial {
        c.try_acquire();
    }
    for _ in 0..initial {
        c.on_ack();
    }
    assert!(c.window_size() >= initial);
    assert_eq!(c.in_flight(), 0);
}

#[test]
fn loss_shrinks_window() {
    let mut c = default_ctrl();
    let initial = c.window_size();
    c.try_acquire();
    c.on_loss();
    assert!(c.window_size() <= initial);
}

#[test]
fn window_never_exceeds_max() {
    let mut c = default_ctrl();
    for _ in 0..1000 {
        let avail = c.available();
        for _ in 0..avail {
            c.try_acquire();
        }
        for _ in 0..avail.max(1) {
            c.on_ack();
        }
    }
    assert!(c.window_size() <= WINDOW_MAX);
}

#[test]
fn window_never_below_min() {
    let mut c = default_ctrl();
    for _ in 0..50 {
        c.try_acquire();
        c.on_loss();
    }
    assert!(c.window_size() >= WINDOW_MIN);
}

// ─── Controller behaviour ───────────────────────────────────────────────────

#[test]
fn initial_window_matches_config() {
    let c = default_ctrl();
    assert_eq!(c.window_size(), WINDOW_INITIAL);
}

#[test]
fn initial_phase_is_slow_start() {
    let c = default_ctrl();
    assert_eq!(c.window_state().phase, CongestionPhase::SlowStart);
}

#[test]
fn acquire_reduces_available_capacity() {
    let mut c = default_ctrl();
    let before = c.available();
    assert!(c.try_acquire());
    assert_eq!(c.available(), before - 1);
}

#[test]
fn cannot_exceed_window() {
    let mut c = default_ctrl();
    for _ in 0..c.window_size() {
        assert!(c.try_acquire());
    }
    assert!(!c.try_acquire(), "should not acquire beyond window");
}

#[test]
fn ack_restores_slot() {
    let mut c = default_ctrl();
    assert!(c.try_acquire());
    assert_eq!(c.in_flight(), 1);
    c.on_ack();
    assert_eq!(c.in_flight(), 0);
}

#[test]
fn loss_restores_slot_and_shrinks_window() {
    let mut c = default_ctrl();
    let initial = c.window_size();
    assert!(c.try_acquire());
    c.on_loss();
    assert_eq!(c.in_flight(), 0);
    assert!(c.window_size() <= initial);
}

#[test]
fn slow_start_doubles_window_per_rtt() {
    let mut c = default_ctrl();
    let initial = c.window_size();
    for _ in 0..initial {
        c.try_acquire();
    }
    for _ in 0..initial {
        c.on_ack();
    }
    assert!(c.window_size() >= initial);
}

#[test]
fn window_enters_congestion_avoidance_at_ssthresh() {
    let mut cfg = CongestionConfig::default();
    cfg.window_initial = 16;
    cfg.slow_start_threshold = 16;
    let mut c = CongestionController::new(cfg);
    for _ in 0..16 {
        c.try_acquire();
    }
    for _ in 0..16 {
        c.on_ack();
    }
    let phase = c.window_state().phase;
    assert!(
        phase == CongestionPhase::CongestionAvoidance || phase == CongestionPhase::SlowStart,
        "unexpected phase: {:?}",
        phase
    );
}

#[test]
fn loss_transitions_to_recovery() {
    let mut c = default_ctrl();
    c.try_acquire();
    c.on_loss();
    assert_eq!(c.window_state().phase, CongestionPhase::Recovery);
}

#[test]
fn window_never_exceeds_max_under_load() {
    let mut c = default_ctrl();
    for _ in 0..2000 {
        let avail = c.available();
        for _ in 0..avail {
            c.try_acquire();
        }
        for _ in 0..avail.max(1) {
            c.on_ack();
        }
    }
    assert!(c.window_size() <= WINDOW_MAX);
}

#[test]
fn window_never_below_min_after_repeated_loss() {
    let mut c = default_ctrl();
    for _ in 0..100 {
        c.try_acquire();
        c.on_loss();
    }
    assert!(c.window_size() >= WINDOW_MIN);
}
