//! The workload tracker: window discipline, the EMA recurrence, the
//! ACWR convention, and convergence under a constant load.

use datagen_core::config::TrainingModelConfig;
use datagen_core::metrics::TrainingState;
use datagen_core::metrics::initialize_hrv_history_default;
use datagen_core::metrics::initialize_tss_history_default;

#[test]
fn windows_keep_their_length_after_any_number_of_updates() {
    let mut state = TrainingState::with_config(TrainingModelConfig::default());
    for day in 0..120u64 {
        state.update((day % 7) * 20_000, 55_000 + (day % 5) * 1000);
        assert_eq!(state.tss_history.len(), 28);
        assert_eq!(state.hrv_history.len(), 28);
    }
}

#[test]
fn update_shifts_the_windows_and_steps_the_indices() {
    let mut state = TrainingState::with_config(TrainingModelConfig::default());
    state.update(100_000, 70_000);
    // Oldest zero evicted, today's load appended.
    assert_eq!(state.tss_history[27], 100_000);
    assert_eq!(state.tss_history[0], 0);
    assert_eq!(state.hrv_history[27], 70_000);
    // One EMA step from zero: load / time constant.
    assert_eq!(state.ctl, 100_000 / 42);
    assert_eq!(state.atl, 100_000 / 7);
    assert_eq!(state.tsb, 100_000 / 42 - 100_000 / 7);
    // One loaded day in the window: acute mean 100/7, chronic mean 100/28,
    // ratio exactly the window quotient 4.0.
    assert_eq!(state.acwr, 4000);
}

#[test]
fn acwr_defaults_to_one_when_the_chronic_mean_is_zero() {
    let mut state = TrainingState::with_config(TrainingModelConfig::default());
    state.update(0, 60_000);
    assert_eq!(state.acwr, 1000);
}

#[test]
fn ema_converges_to_a_constant_load_within_a_tenth() {
    // Realized load held at exactly 50 TSS for 500 days with the
    // default time constants: both indices settle within 0.1 TSS.
    let mut state = TrainingState::with_config(TrainingModelConfig::default());
    for _ in 0..500 {
        state.update(50_000, 60_000);
    }
    let ctl = state.ctl as i64;
    let atl = state.atl as i64;
    assert!((ctl - 50_000).abs() <= 100, "ctl settled at {ctl}");
    assert!((atl - 50_000).abs() <= 100, "atl settled at {atl}");
    // And once settled, further updates do not move the indices.
    let settled = (state.ctl, state.atl);
    state.update(50_000, 60_000);
    assert_eq!((state.ctl, state.atl), settled);
}

#[test]
fn rolling_means_average_the_right_windows() {
    let mut state = TrainingState::with_config(TrainingModelConfig::default());
    // Fill the whole window: 21 days at 20 TSS, then 7 days at 90 TSS.
    for _ in 0..21 {
        state.update(20_000, 60_000);
    }
    for _ in 0..7 {
        state.update(90_000, 60_000);
    }
    assert_eq!(state.rolling_tss_7day(), 90_000);
    assert_eq!(
        state.rolling_tss_chronic(),
        (21 * 20_000 + 7 * 90_000) / 28
    );
    assert_eq!(state.rolling_hrv_7day(), 60_000);
}

#[test]
fn risk_category_buckets_are_the_fixed_bands() {
    let mut state = TrainingState::with_config(TrainingModelConfig::default());
    for (acwr, label, risky) in [
        (799u64, "undertrained", true),
        (800, "optimal_low", false),
        (1000, "optimal_low", false),
        (1001, "optimal_high", false),
        (1300, "optimal_high", false),
        (1301, "caution", false),
        (1500, "caution", false),
        (1501, "danger", true),
    ] {
        state.acwr = acwr;
        assert_eq!(state.acwr_risk_category(), label, "acwr {acwr}");
        assert_eq!(state.is_acwr_risky(), risky, "acwr {acwr}");
    }
}

#[test]
fn seeded_state_starts_from_the_baseline() {
    let state = TrainingState::new(40_000, 65_000);
    assert_eq!(state.ctl, 40_000);
    assert_eq!(state.atl, 40_000 / 10 * 9);
    assert_eq!(state.tsb, 40_000 - 40_000 / 10 * 9);
    assert_eq!(state.acwr, 1000);
    assert_eq!(state.tss_history, vec![40_000 / 10 * 8; 28]);
    assert_eq!(state.hrv_history, vec![65_000; 28]);
    assert_eq!(state.config(), &TrainingModelConfig::default());
}

#[test]
fn tss_pre_history_follows_the_weekday_pattern() {
    // 10 h/week at 60 TSS/h with a neutral recovery rate: 600 weekly
    // TSS, about 85.714 daily, weighted by the weekday multipliers.
    let h = initialize_tss_history_default(10_000, 1000);
    assert_eq!(h.len(), 28);
    let avg = 10_000u64 * 60_000 / 1000 / 7; // 85_714 milli-TSS
    assert_eq!(h[0], avg * 300 / 1000);
    assert_eq!(h[1], avg);
    assert_eq!(h[5], avg * 1300 / 1000);
    assert_eq!(h[7], h[0]);
}

#[test]
fn hrv_pre_history_oscillates_within_the_valid_range() {
    let h = initialize_hrv_history_default(60_000, 50_000, 62_000);
    assert_eq!(h.len(), 28);
    assert_eq!(h[0], 60_000);
    assert_eq!(h[2], 62_000); // 63_000 clamped to the range's top
    assert_eq!(h[6], 57_000);
    for v in &h {
        assert!((50_000..=62_000).contains(v));
    }
}
