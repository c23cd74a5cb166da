use solana_tpu_client_cc::{
    CongestionConfig, CongestionController, CongestionPhase, WindowState, WINDOW_MAX,
};

fn ctrl_with(initial: usize, ssthresh: usize) -> CongestionController {
    let mut cfg = CongestionConfig::default();
    cfg.window_initial = initial;
    cfg.slow_start_threshold = ssthresh;
    CongestionController::new(cfg)
}

#[test]
fn default_config_values() {
    let cfg = CongestionConfig::default();
    assert_eq!(cfg.window_initial, 8);
    assert_eq!(cfg.window_min, 1);
    assert_eq!(cfg.window_max, 512);
    assert_eq!(cfg.beta_decrease_permille, 500);
    assert_eq!(cfg.additive_increase, 1);
    assert_eq!(cfg.slow_start_threshold, 32);
    assert_eq!(cfg.backpressure_timeout_ms, 800);
}

#[test]
fn window_state_new_matches_config() {
    let cfg = CongestionConfig::default();
    let w = WindowState::new(&cfg);
    assert_eq!(w.current_window, 8);
    assert_eq!(w.in_flight, 0);
    assert_eq!(w.ssthresh, 32);
    assert_eq!(w.phase, CongestionPhase::SlowStart);
}

#[test]
fn available_saturates_at_zero() {
    let w = WindowState {
        current_window: 4,
        in_flight: 7,
        phase: CongestionPhase::Recovery,
        ssthresh: 4,
    };
    assert_eq!(w.available(), 0);
    let w2 = WindowState { in_flight: 1, ..w };
    assert_eq!(w2.available(), 3);
}

#[test]
fn full_slow_start_round_trip_doubles_exactly() {
    let mut c = ctrl_with(8, 32);
    for i in 0..7 {
        c.on_ack();
        // no growth before the round trip completes
        assert_eq!(c.window_size(), 8, "grew early at ack {}", i);
    }
    c.on_ack();
    assert_eq!(c.window_size(), 16);
    assert_eq!(c.window_state().phase, CongestionPhase::SlowStart);
}

#[test]
fn slow_start_growth_capped_by_ssthresh_then_avoidance() {
    let mut c = ctrl_with(8, 12);
    for _ in 0..8 {
        c.on_ack();
    }
    assert_eq!(c.window_size(), 12);
    assert_eq!(c.window_state().phase, CongestionPhase::CongestionAvoidance);
    for _ in 0..12 {
        c.on_ack();
    }
    assert_eq!(c.window_size(), 13);
}

#[test]
fn loss_halves_window_and_sets_threshold() {
    let mut c = ctrl_with(20, 32);
    c.on_loss();
    let w = c.window_state();
    assert_eq!(w.current_window, 10);
    assert_eq!(w.ssthresh, 10);
    assert_eq!(w.phase, CongestionPhase::Recovery);
}

#[test]
fn loss_respects_window_min() {
    let mut cfg = CongestionConfig::default();
    cfg.window_min = 4;
    cfg.window_initial = 5;
    let mut c = CongestionController::new(cfg);
    c.on_loss();
    assert_eq!(c.window_size(), 4);
    c.on_loss();
    assert_eq!(c.window_size(), 4);
}

#[test]
fn recovery_ends_after_one_clean_round_trip() {
    let mut c = ctrl_with(20, 32);
    c.on_loss();
    assert_eq!(c.window_size(), 10);
    for _ in 0..9 {
        c.on_ack();
        assert_eq!(c.window_state().phase, CongestionPhase::Recovery);
    }
    c.on_ack();
    assert_eq!(c.window_state().phase, CongestionPhase::CongestionAvoidance);
    assert_eq!(c.window_size(), 11);
}

#[test]
fn loss_restarts_round_trip_count() {
    let mut c = ctrl_with(4, 32);
    for _ in 0..3 {
        c.on_ack();
    }
    c.on_loss();
    // window 2: one more ack is not enough, two are
    c.on_ack();
    assert_eq!(c.window_size(), 2);
    c.on_ack();
    assert_eq!(c.window_size(), 3);
}

#[test]
fn growth_capped_by_threshold_and_window_max() {
    let mut cfg = CongestionConfig::default();
    cfg.window_initial = 510;
    cfg.slow_start_threshold = 100;
    cfg.additive_increase = 5;
    let mut c = CongestionController::new(cfg);
    // slow start with window >= ssthresh: the first round trip caps at ssthresh
    for _ in 0..510 {
        c.on_ack();
    }
    assert_eq!(c.window_size(), 100);
    assert_eq!(c.window_state().phase, CongestionPhase::CongestionAvoidance);
    let mut cfg2 = CongestionConfig::default();
    cfg2.window_initial = 510;
    cfg2.slow_start_threshold = 1000;
    cfg2.additive_increase = 5;
    let mut c2 = CongestionController::new(cfg2);
    c2.on_loss();
    assert_eq!(c2.window_size(), 255);
    let mut d = CongestionController::new(cfg2);
    for _ in 0..510 {
        d.on_ack();
    }
    assert_eq!(d.window_size(), WINDOW_MAX);
}

#[test]
fn acquire_then_ack_restores_in_flight() {
    let mut c = ctrl_with(8, 32);
    assert!(c.try_acquire());
    assert!(c.try_acquire());
    assert_eq!(c.in_flight(), 2);
    assert!(c.try_acquire());
    c.on_ack();
    assert_eq!(c.in_flight(), 2);
    c.on_loss();
    assert_eq!(c.in_flight(), 1);
}

#[test]
fn release_on_empty_stays_at_zero() {
    let mut c = ctrl_with(8, 32);
    c.on_ack();
    assert_eq!(c.in_flight(), 0);
    c.on_loss();
    assert_eq!(c.in_flight(), 0);
}

#[test]
fn loss_scales_window_by_beta() {
    let mut c1 = CongestionController::new(CongestionConfig::default());
    let mut cfg = CongestionConfig::default();
    cfg.beta_decrease_permille = 700;
    let mut c2 = CongestionController::new(cfg);
    c1.try_acquire();
    c2.try_acquire();
    c1.on_loss();
    c2.on_loss();
    assert_eq!(c1.window_size(), 4);
    // floor(8 * 0.7) = 5
    assert_eq!(c2.window_size(), 5);
    assert_eq!(c2.window_state().ssthresh, 5);
}

#[test]
fn loss_with_large_window_and_beta() {
    let mut cfg = CongestionConfig::default();
    cfg.window_initial = 500;
    cfg.beta_decrease_permille = 999;
    let mut c = CongestionController::new(cfg);
    c.on_loss();
    assert_eq!(c.window_size(), 499);
    let mut cfg0 = CongestionConfig::default();
    cfg0.beta_decrease_permille = 0;
    let mut z = CongestionController::new(cfg0);
    z.on_loss();
    assert_eq!(z.window_size(), 1);
}

#[test]
fn initial_window_kept_within_hard_limits() {
    let mut cfg = CongestionConfig::default();
    cfg.window_initial = 600;
    assert_eq!(CongestionController::new(cfg).window_size(), WINDOW_MAX);
    cfg.window_initial = 0;
    assert_eq!(CongestionController::new(cfg).window_size(), 1);
}

#[test]
fn slow_start_growth_kept_within_hard_maximum() {
    let mut cfg = CongestionConfig::default();
    cfg.window_initial = 400;
    cfg.window_max = 4096;
    cfg.slow_start_threshold = 4096;
    let mut c = CongestionController::new(cfg);
    for _ in 0..400 {
        c.on_ack();
    }
    assert_eq!(c.window_size(), WINDOW_MAX);
}

#[test]
fn huge_additive_increase_saturates_at_hard_maximum() {
    let mut cfg = CongestionConfig::default();
    cfg.window_initial = 1;
    cfg.additive_increase = usize::MAX;
    let mut c = CongestionController::new(cfg);
    c.on_loss();
    c.on_ack();
    assert_eq!(c.window_size(), WINDOW_MAX);
    assert_eq!(c.window_state().phase, CongestionPhase::CongestionAvoidance);
}

#[test]
fn backpressure_timeout_is_reported() {
    let c = CongestionController::new(CongestionConfig::default());
    assert_eq!(c.backpressure_timeout_ms(), 800);
}

#[test]
fn factor_above_one_never_raises_window() {
    let mut cfg = CongestionConfig::default();
    cfg.window_initial = 8;
    cfg.window_max = 8;
    cfg.beta_decrease_permille = 1500;
    let mut c = CongestionController::new(cfg);
    c.try_acquire();
    c.on_loss();
    assert_eq!(c.window_size(), 8);
    assert!(c.window_size() <= cfg.window_max);
}
