//! Injury probability: a pure function of the athlete, the workload
//! state and today's realized load, with a hard guard — zero load means
//! zero probability. Probabilities are parts-per-million.

use vstd::prelude::*;
use crate::athlete::{Athlete, athlete_wf};
use crate::config::{InjuryModelConfig, injury_config_wf};
use crate::metrics::{TrainingState, MAX_LOAD_MILLI};
use crate::util::{clamp, clamp_u64, lemma_mul_bounds};

verus! {

/// TSS of ATL excess per unit of probability, above the high fatigue threshold.
pub const FATIGUE_HIGH_DIVISOR: u64 = 300;

/// TSS of ATL excess per unit of probability, above the moderate threshold.
pub const FATIGUE_MODERATE_DIVISOR: u64 = 500;

/// TSS of negative-form excess per unit of probability, below the high threshold.
pub const FORM_HIGH_DIVISOR: u64 = 150;

/// TSS of negative-form excess per unit of probability, below the moderate threshold.
pub const FORM_MODERATE_DIVISOR: u64 = 300;

/// Probability (ppm) per unit of spike ratio above the high threshold.
pub const SPIKE_HIGH_MULT_PPM: u64 = 50_000;

/// Probability (ppm) per unit of spike ratio above the moderate threshold.
pub const SPIKE_MODERATE_MULT_PPM: u64 = 20_000;

/// Risk from the acute:chronic ratio (ppm): an asymmetric three-zone
/// piecewise-linear function. Zero exactly on the middle band between
/// the undertrained and caution thresholds.
pub open spec fn acwr_risk_ppm(acwr: u64, c: InjuryModelConfig) -> int {
    if acwr > c.acwr_danger_threshold {
        (acwr - c.acwr_danger_threshold) * c.acwr_danger_multiplier
    } else if acwr > c.acwr_caution_threshold {
        (acwr - c.acwr_caution_threshold) * c.acwr_caution_multiplier
    } else if acwr < c.acwr_undertrained_threshold {
        (c.acwr_undertrained_threshold - acwr) * c.acwr_undertrained_multiplier
    } else {
        0
    }
}

/// Risk from acute fatigue (ppm): zero below the moderate ATL threshold,
/// then two linear zones.
pub open spec fn fatigue_risk_ppm(atl: u64, c: InjuryModelConfig) -> int {
    if atl > c.fatigue_high_threshold {
        (atl - c.fatigue_high_threshold) * 1_000_000 / (FATIGUE_HIGH_DIVISOR * 1000)
    } else if atl > c.fatigue_moderate_threshold {
        (atl - c.fatigue_moderate_threshold) * 1_000_000 / (FATIGUE_MODERATE_DIVISOR * 1000)
    } else {
        0
    }
}

/// Risk from deeply negative form (ppm): zero above the moderate TSB
/// threshold, then two linear zones driven by how negative form is.
pub open spec fn form_risk_ppm(tsb: i64, c: InjuryModelConfig) -> int {
    if tsb < c.form_high_risk_threshold {
        (c.form_high_risk_threshold - tsb) * 1_000_000 / (FORM_HIGH_DIVISOR * 1000)
    } else if tsb < c.form_moderate_risk_threshold {
        (c.form_moderate_risk_threshold - tsb) * 1_000_000 / (FORM_MODERATE_DIVISOR * 1000)
    } else {
        0
    }
}

/// Risk from a load spike (ppm): the ratio of today's load to the
/// rolling acute-window mean, in two linear zones; zero when the rolling
/// mean is zero.
pub open spec fn spike_risk_ppm(daily_tss: u64, recent_avg: int, c: InjuryModelConfig) -> int {
    if recent_avg > 0 {
        let ratio = daily_tss * 1000 / recent_avg;
        if ratio > c.spike_high_threshold {
            (ratio - c.spike_high_threshold) * SPIKE_HIGH_MULT_PPM / 1000
        } else if ratio > c.spike_moderate_threshold {
            (ratio - c.spike_moderate_threshold) * SPIKE_MODERATE_MULT_PPM / 1000
        } else {
            0
        }
    } else {
        0
    }
}

/// The daily injury probability (ppm). Exactly zero whenever the
/// realized load is zero; otherwise the base probability plus the four
/// risk contributions scaled by the recovery modifier
/// `1.5 - recovery_rate`, clamped to `[0, max_injury_probability]`.
pub open spec fn injury_probability_ppm(
    recovery_rate: u64,
    acwr: u64,
    atl: u64,
    tsb: i64,
    recent_avg: int,
    actual_tss: u64,
    c: InjuryModelConfig,
) -> int {
    if actual_tss == 0 {
        0
    } else {
        clamp(
            c.base_injury_probability
                + (acwr_risk_ppm(acwr, c) + fatigue_risk_ppm(atl, c) + form_risk_ppm(tsb, c)
                    + spike_risk_ppm(actual_tss, recent_avg, c)) * (1500 - recovery_rate) / 1000,
            0,
            c.max_injury_probability as int,
        )
    }
}

/// Risk contribution of the acute:chronic ratio.
fn calculate_acwr_risk(acwr: u64, config: &InjuryModelConfig) -> (r: u64)
    requires
        injury_config_wf(*config),
        acwr <= 400_000,
    ensures
        r == acwr_risk_ppm(acwr, *config),
        r <= 100_000_000_000,
{
    if acwr > config.acwr_danger_threshold {
        let excess = acwr - config.acwr_danger_threshold;
        proof {
            lemma_mul_bounds(excess as int, config.acwr_danger_multiplier as int, 400_000, 100_000);
        }
        excess * config.acwr_danger_multiplier
    } else if acwr > config.acwr_caution_threshold {
        let excess = acwr - config.acwr_caution_threshold;
        proof {
            lemma_mul_bounds(excess as int, config.acwr_caution_multiplier as int, 400_000, 100_000);
        }
        excess * config.acwr_caution_multiplier
    } else if acwr < config.acwr_undertrained_threshold {
        let excess = config.acwr_undertrained_threshold - acwr;
        proof {
            lemma_mul_bounds(
                excess as int, config.acwr_undertrained_multiplier as int, 1_000_000, 100_000);
        }
        excess * config.acwr_undertrained_multiplier
    } else {
        0
    }
}

/// Risk contribution of acute fatigue.
fn calculate_fatigue_risk(atl: u64, config: &InjuryModelConfig) -> (r: u64)
    requires
        injury_config_wf(*config),
        atl <= MAX_LOAD_MILLI,
    ensures
        r == fatigue_risk_ppm(atl, *config),
        r <= 4_000_000_000,
{
    if atl > config.fatigue_high_threshold {
        let num = (atl - config.fatigue_high_threshold) * 1_000_000;
        proof {
            vstd::arithmetic::div_mod::lemma_div_is_ordered(
                num as int, 1_000_000_000_000_000, (FATIGUE_HIGH_DIVISOR * 1000) as int);
        }
        num / (FATIGUE_HIGH_DIVISOR * 1000)
    } else if atl > config.fatigue_moderate_threshold {
        let num = (atl - config.fatigue_moderate_threshold) * 1_000_000;
        proof {
            vstd::arithmetic::div_mod::lemma_div_is_ordered(
                num as int, 1_000_000_000_000_000, (FATIGUE_MODERATE_DIVISOR * 1000) as int);
        }
        num / (FATIGUE_MODERATE_DIVISOR * 1000)
    } else {
        0
    }
}

/// Risk contribution of negative form.
fn calculate_form_risk(tsb: i64, config: &InjuryModelConfig) -> (r: u64)
    requires
        injury_config_wf(*config),
        -2_000_000_000 <= tsb <= 2_000_000_000,
    ensures
        r == form_risk_ppm(tsb, *config),
        r <= 14_000_000_000,
{
    if tsb < config.form_high_risk_threshold {
        let excess = config.form_high_risk_threshold - tsb;
        let num = (excess as u64) * 1_000_000;
        proof {
            vstd::arithmetic::div_mod::lemma_div_is_ordered(
                num as int, 2_000_000_000_000_000, (FORM_HIGH_DIVISOR * 1000) as int);
        }
        num / (FORM_HIGH_DIVISOR * 1000)
    } else if tsb < config.form_moderate_risk_threshold {
        let excess = config.form_moderate_risk_threshold - tsb;
        let num = (excess as u64) * 1_000_000;
        proof {
            vstd::arithmetic::div_mod::lemma_div_is_ordered(
                num as int, 2_000_000_000_000_000, (FORM_MODERATE_DIVISOR * 1000) as int);
        }
        num / (FORM_MODERATE_DIVISOR * 1000)
    } else {
        0
    }
}

/// Risk contribution of a load spike over the tracker's rolling mean.
fn calculate_spike_risk(
    daily_tss: u64,
    training_state: &TrainingState,
    config: &InjuryModelConfig,
) -> (r: u64)
    requires
        injury_config_wf(*config),
        training_state.wf(),
        daily_tss <= MAX_LOAD_MILLI,
    ensures
        r == spike_risk_ppm(
            daily_tss,
            training_state.acute_sum() / (training_state.config.acwr_acute_window as int),
            *config,
        ),
        r <= 50_000_000_000_000,
{
    let recent_avg = training_state.rolling_tss_7day();
    if recent_avg > 0 {
        let ratio = daily_tss * 1000 / recent_avg;
        proof {
            vstd::arithmetic::div_mod::lemma_div_nonincreasing(
                (daily_tss * 1000) as int, recent_avg as int);
        }
        if ratio > config.spike_high_threshold {
            (ratio - config.spike_high_threshold) * SPIKE_HIGH_MULT_PPM / 1000
        } else if ratio > config.spike_moderate_threshold {
            (ratio - config.spike_moderate_threshold) * SPIKE_MODERATE_MULT_PPM / 1000
        } else {
            0
        }
    } else {
        0
    }
}

/// Daily injury probability (ppm) for an athlete given the current
/// workload state and today's realized load.
///
/// Zero realized load gives probability exactly zero, whatever the
/// state; any result is capped at the configured maximum.
pub fn calculate_injury_probability(
    athlete: &Athlete,
    training_state: &TrainingState,
    actual_tss: u64,
    config: &InjuryModelConfig,
) -> (r: u64)
    requires
        athlete_wf(*athlete),
        training_state.wf(),
        injury_config_wf(*config),
        actual_tss <= MAX_LOAD_MILLI,
    ensures
        r == injury_probability_ppm(
            athlete.recovery_rate,
            training_state.acwr,
            training_state.atl,
            training_state.tsb,
            training_state.acute_sum() / (training_state.config.acwr_acute_window as int),
            actual_tss,
            *config,
        ),
        actual_tss == 0 ==> r == 0,
        r <= config.max_injury_probability,
{
    if actual_tss == 0 {
        return 0;
    }

    let acwr_risk = calculate_acwr_risk(training_state.acwr, config);
    let fatigue_risk = calculate_fatigue_risk(training_state.atl, config);
    let form_risk = calculate_form_risk(training_state.tsb, config);
    let spike_risk = calculate_spike_risk(actual_tss, training_state, config);

    let recovery_modifier = 1500 - athlete.recovery_rate;
    let total_risk = acwr_risk + fatigue_risk + form_risk + spike_risk;
    proof {
        lemma_mul_bounds(total_risk as int, recovery_modifier as int, 51_000_000_000_000, 1500);
    }
    let scaled = total_risk * recovery_modifier / 1000;
    let raw = config.base_injury_probability + scaled;
    clamp_u64(raw, 0, config.max_injury_probability)
}

/// As [`calculate_injury_probability`], with the default configuration.
pub fn calculate_injury_probability_default(
    athlete: &Athlete,
    training_state: &TrainingState,
    actual_tss: u64,
) -> (r: u64)
    requires
        athlete_wf(*athlete),
        training_state.wf(),
        actual_tss <= MAX_LOAD_MILLI,
    ensures
        r == injury_probability_ppm(
            athlete.recovery_rate,
            training_state.acwr,
            training_state.atl,
            training_state.tsb,
            training_state.acute_sum() / (training_state.config.acwr_acute_window as int),
            actual_tss,
            crate::config::spec_default_injury_config(),
        ),
        actual_tss == 0 ==> r == 0,
        r <= crate::config::spec_default_injury_config().max_injury_probability,
{
    calculate_injury_probability(athlete, training_state, actual_tss, &InjuryModelConfig::default())
}

/// The dominant-factor attribution of an injury: the label of the
/// largest of the three contributions (ties fall toward the later ones).
pub fn determine_injury_type(
    acwr_contribution: u64,
    fatigue_contribution: u64,
    form_contribution: u64,
) -> (r: &'static str)
    ensures
        r@ == (if acwr_contribution > fatigue_contribution
                && acwr_contribution > form_contribution {
            "exposure"@
        } else if fatigue_contribution > form_contribution {
            "physiological"@
        } else {
            "baseline"@
        }),
{
    if acwr_contribution > fatigue_contribution && acwr_contribution > form_contribution {
        "exposure"
    } else if fatigue_contribution > form_contribution {
        "physiological"
    } else {
        "baseline"
    }
}

/// With default thresholds the ACWR risk contribution is exactly zero
/// on the whole neutral band from the undertrained threshold (0.8) to
/// the caution threshold (1.3) inclusive.
pub proof fn lemma_acwr_neutral_zone(acwr: u64)
    requires
        800 <= acwr <= 1300,
    ensures
        acwr_risk_ppm(acwr, crate::config::spec_default_injury_config()) == 0,
{
}

} // verus!
