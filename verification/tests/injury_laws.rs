//! The injury model's hard guarantees on concrete values: the
//! zero-load guard, the neutral ACWR band, the probability cap, and
//! the exact risk formulas.

use datagen_core::athlete::Athlete;
use datagen_core::athlete::generate_athlete_profile;
use datagen_core::config::InjuryModelConfig;
use datagen_core::config::TrainingModelConfig;
use datagen_core::daily::calculate_injury_with_config;
use datagen_core::injury::calculate_injury_probability;
use datagen_core::injury::calculate_injury_probability_default;
use datagen_core::injury::determine_injury_type;
use datagen_core::metrics::TrainingState;
use datagen_core::simulation::InjuryType;

/// A well-formed athlete with a fixed recovery rate.
fn athlete_with_recovery(recovery_rate: u64) -> Athlete {
    let mut a = generate_athlete_profile(7);
    a.recovery_rate = recovery_rate;
    a
}

/// A well-formed tracker state with chosen indices and a flat history.
fn state_with(acwr: u64, atl: u64, ctl: u64, history_value: u64) -> TrainingState {
    let config = TrainingModelConfig::default();
    TrainingState {
        tss_history: vec![history_value; config.acwr_chronic_window],
        hrv_history: vec![60_000; config.acwr_chronic_window],
        ctl,
        atl,
        tsb: ctl as i64 - atl as i64,
        acwr,
        config,
    }
}

#[test]
fn zero_load_gives_zero_probability_however_extreme_the_state() {
    // ACWR 5.0, ATL 999 TSS: as extreme as the tracker can represent.
    let athlete = athlete_with_recovery(500);
    let state = state_with(5000, 999_000, 1_000, 100_000);
    let config = InjuryModelConfig::default();
    let p = calculate_injury_probability(&athlete, &state, 0, &config);
    assert_eq!(p, 0);
    let p_default = calculate_injury_probability_default(&athlete, &state, 0);
    assert_eq!(p_default, 0);
}

#[test]
fn zero_load_never_produces_an_occurrence() {
    let athlete = athlete_with_recovery(500);
    let state = state_with(5000, 999_000, 1_000, 100_000);
    let config = InjuryModelConfig::default();
    // Even a roll of zero (the most injury-prone draw) cannot fire.
    let (injury, injury_type, p) =
        calculate_injury_with_config(&athlete, &state, 0, &config, 0);
    assert!(!injury);
    assert!(injury_type.is_none());
    assert_eq!(p, 0);
}

#[test]
fn neutral_band_leaves_only_the_base_probability() {
    // ACWR anywhere in [0.8, 1.3] contributes no risk; with all other
    // factors quiet the probability is exactly the base 0.5%.
    let athlete = athlete_with_recovery(500);
    let config = InjuryModelConfig::default();
    for acwr in [800u64, 1000, 1299, 1300] {
        let state = state_with(acwr, 50_000, 60_000, 100_000);
        let p = calculate_injury_probability(&athlete, &state, 100_000, &config);
        assert_eq!(p, 5000, "acwr {acwr} should contribute nothing");
    }
}

#[test]
fn acwr_risk_outside_the_band_is_linear() {
    // ACWR 2.0: (2000 - 1500) * 150 = 75_000 ppm over the base, with a
    // neutral recovery modifier of exactly 1.0 (recovery rate 0.5).
    let athlete = athlete_with_recovery(500);
    let config = InjuryModelConfig::default();
    let state = state_with(2000, 50_000, 60_000, 100_000);
    let p = calculate_injury_probability(&athlete, &state, 100_000, &config);
    assert_eq!(p, 5000 + 75_000);
    // Undertraining also adds risk: ACWR 0.5 gives (800 - 500) * 30.
    let state = state_with(500, 50_000, 60_000, 100_000);
    let p = calculate_injury_probability(&athlete, &state, 100_000, &config);
    assert_eq!(p, 5000 + 9_000);
}

#[test]
fn recovery_modifier_scales_all_contributions() {
    // Recovery rate 1.5 gives modifier 0: only the base remains.
    let athlete = athlete_with_recovery(1500);
    let config = InjuryModelConfig::default();
    let state = state_with(2000, 50_000, 60_000, 100_000);
    let p = calculate_injury_probability(&athlete, &state, 100_000, &config);
    assert_eq!(p, 5000);
}

#[test]
fn probability_is_capped_for_any_combination_of_extremes() {
    // ACWR 10, ATL 500 TSS, TSB -200 TSS, spike ratio 50: the cap holds.
    let athlete = athlete_with_recovery(500);
    let config = InjuryModelConfig::default();
    let mut state = state_with(10_000, 500_000, 300_000, 2_000);
    state.tsb = -200_000;
    // history mean 2 TSS; today's 100 TSS is a 50x spike
    let p = calculate_injury_probability(&athlete, &state, 100_000, &config);
    assert_eq!(p, config.max_injury_probability);
    assert_eq!(p, 300_000);
}

#[test]
fn occurrence_is_decided_strictly_below_the_probability() {
    let athlete = athlete_with_recovery(500);
    let config = InjuryModelConfig::default();
    let state = state_with(2000, 50_000, 60_000, 100_000);
    let p = calculate_injury_probability(&athlete, &state, 100_000, &config);
    let (hit, kind, _) =
        calculate_injury_with_config(&athlete, &state, 100_000, &config, p - 1);
    assert!(hit);
    assert!(kind.is_some());
    let (miss, no_kind, _) =
        calculate_injury_with_config(&athlete, &state, 100_000, &config, p);
    assert!(!miss);
    assert!(no_kind.is_none());
}

#[test]
fn injury_type_follows_the_threshold_dominance_order() {
    let athlete = athlete_with_recovery(500);
    let config = InjuryModelConfig::default();
    // ACWR over danger: exposure, whatever the fatigue.
    let state = state_with(2000, 200_000, 60_000, 100_000);
    let (hit, kind, _) = calculate_injury_with_config(&athlete, &state, 100_000, &config, 0);
    assert!(hit);
    assert_eq!(kind, Some(InjuryType::Exposure));
    // ACWR in band, ATL over the high fatigue threshold: physiological.
    let state = state_with(1000, 200_000, 60_000, 100_000);
    let (hit, kind, _) = calculate_injury_with_config(&athlete, &state, 100_000, &config, 0);
    assert!(hit);
    assert_eq!(kind, Some(InjuryType::Physiological));
    // Neither: baseline.
    let state = state_with(1000, 50_000, 60_000, 100_000);
    let (hit, kind, _) = calculate_injury_with_config(&athlete, &state, 100_000, &config, 0);
    assert!(hit);
    assert_eq!(kind, Some(InjuryType::Baseline));
}

#[test]
fn contribution_attribution_picks_the_dominant_factor() {
    assert_eq!(determine_injury_type(10, 5, 3), "exposure");
    assert_eq!(determine_injury_type(1, 5, 3), "physiological");
    assert_eq!(determine_injury_type(1, 2, 3), "baseline");
    // Ties fall away from the ACWR factor.
    assert_eq!(determine_injury_type(5, 5, 3), "physiological");
    assert_eq!(determine_injury_type(1, 3, 3), "baseline");
}
