//! Daily telemetry: morning heart rate and HRV, sleep, recovery
//! battery and stress, plus the day's injury draw, assembled into one
//! `DailyMetrics` record. All formulas are linear with clamps, driven
//! by the workload state before today's update.

use vstd::prelude::*;
use crate::athlete::{Athlete, athlete_wf};
use crate::config::{InjuryModelConfig, TrainingModelConfig, injury_config_wf};
use crate::injury::{calculate_injury_probability, injury_probability_ppm};
use crate::metrics::{TrainingState, StateModel, model_acute_sum, MAX_LOAD_MILLI};
use crate::plan::TrainingDay;
use crate::rng::{RandomSource, sw_below, sw_noise};
use crate::simulation::{DailyMetrics, InjuryType};
use crate::util::{clamp, clamp_i64, lemma_mul_bounds};

verus! {

/// Draws consumed per day by telemetry and the injury draw.
pub const METRICS_DRAWS: u64 = 9;

/// Fatigue effect on resting heart rate: up to a 10% increase (milli).
pub open spec fn spec_fatigue_effect(atl: int) -> int {
    if atl / 100 > 100 {
        100
    } else {
        atl / 100
    }
}

/// Morning resting heart rate: baseline raised by the fatigue effect
/// plus noise, clamped to 90-120% of the baseline (milli-BPM).
pub open spec fn spec_resting_hr(a: Athlete, atl: int, noise: int) -> int {
    clamp(
        a.resting_hr * (1000 + spec_fatigue_effect(atl)) / 1000 + noise,
        a.resting_hr * 9 / 10,
        a.resting_hr * 12 / 10,
    )
}

/// HRV suppression by acute fatigue: up to 20% (milli).
pub open spec fn spec_hrv_suppression(atl: int) -> int {
    if atl / 200 > 200 {
        200
    } else {
        atl / 200
    }
}

/// Morning HRV: baseline suppressed by fatigue plus noise, clamped to
/// the athlete's valid range (milli-ms).
pub open spec fn spec_morning_hrv(a: Athlete, atl: int, noise: int) -> int {
    clamp(
        a.hrv_baseline * (1000 - spec_hrv_suppression(atl)) / 1000 + noise,
        a.hrv_range.lo as int,
        a.hrv_range.hi as int,
    )
}

/// Sleep disruption by heavy fatigue (milli-hours).
pub open spec fn spec_sleep_disruption(atl: int) -> int {
    if atl > 80_000 {
        (atl - 80_000) / 200
    } else {
        0
    }
}

/// Sleep duration: habitual sleep minus disruption plus noise, clamped
/// to 4-10 hours (milli-hours).
pub open spec fn spec_sleep_hours(a: Athlete, atl: int, noise: int) -> int {
    clamp(a.lifestyle.sleep_hours - spec_sleep_disruption(atl) + noise, 4000, 10_000)
}

/// Sleep quality: habitual quality minus half the disruption plus
/// noise, clamped to the unit range (milli).
pub open spec fn spec_sleep_quality(a: Athlete, atl: int, noise: int) -> int {
    clamp(
        a.lifestyle.sleep_quality - spec_sleep_disruption(atl) / 2 + noise,
        0,
        1000,
    )
}

/// Morning recovery battery: half full plus recovery-and-sleep credit,
/// drained by fatigue, clamped to 20-100 points (milli-points).
pub open spec fn spec_battery_morning(a: Athlete, quality: int, atl: int, noise: int) -> int {
    clamp(
        50_000 + 50 * a.recovery_rate * quality / 1000 - atl / 5 + noise,
        20_000,
        100_000,
    )
}

/// Evening stress: lifestyle background plus training load and fatigue
/// contributions plus noise, clamped to 0-100 points (milli-points).
pub open spec fn spec_stress(a: Athlete, actual_tss: int, atl: int, noise: int) -> int {
    clamp(
        a.lifestyle.stress * 50 + actual_tss / 5 + atl / 10 + noise,
        0,
        100_000,
    )
}

/// The activity-drain modifier: higher recovery capacity drains less.
/// Split on the recovery rate's sign relative to the midpoint so that
/// both divisions act on non-negative numerators.
pub open spec fn spec_drain_modifier(recovery_rate: int) -> int {
    if recovery_rate >= 500 {
        1000 - (recovery_rate - 500) / 5
    } else {
        1000 + (500 - recovery_rate) / 5
    }
}

/// Evening recovery battery: the morning level drained by the day's
/// realized load, scaled by the recovery modifier, clamped to 5-100
/// points (milli-points).
pub open spec fn spec_battery_evening(morning: int, actual_tss: int, a: Athlete) -> int {
    clamp(
        morning - actual_tss * 2 / 5 * spec_drain_modifier(a.recovery_rate as int) / 1000,
        5_000,
        100_000,
    )
}

/// Dominant-threshold attribution of an injury: exposure when the
/// ratio exceeds the danger threshold, else physiological when acute
/// fatigue exceeds its high threshold, else baseline.
pub open spec fn spec_injury_type(acwr: int, atl: int, c: InjuryModelConfig) -> InjuryType {
    if acwr > c.acwr_danger_threshold {
        InjuryType::Exposure
    } else if atl > c.fatigue_high_threshold {
        InjuryType::Physiological
    } else {
        InjuryType::Baseline
    }
}

/// The full daily record for one athlete-day, as a function of the
/// athlete, the planned day, the workload state before the update,
/// the realized load, and the day's nine telemetry draws at `base`.
pub open spec fn spec_daily_metrics(
    a: Athlete,
    td: TrainingDay,
    m: StateModel,
    actual_tss: u64,
    icfg: InjuryModelConfig,
    tcfg: TrainingModelConfig,
    seed: u64,
    base: u64,
) -> DailyMetrics {
    let rhr_noise = sw_noise(seed, base, 4000);
    let hrv_noise = sw_noise(seed, (base + 1) as u64, 10_000);
    let sleep_noise = sw_noise(seed, (base + 2) as u64, 1000);
    let deep_noise = sw_noise(seed, (base + 3) as u64, 50);
    let rem_noise = sw_noise(seed, (base + 4) as u64, 50);
    let quality_noise = sw_noise(seed, (base + 5) as u64, 200);
    let battery_noise = sw_noise(seed, (base + 6) as u64, 10_000);
    let stress_noise = sw_noise(seed, (base + 7) as u64, 10_000);
    let roll = sw_below(seed, (base + 8) as u64, 1_000_000);
    let sleep = spec_sleep_hours(a, m.atl, sleep_noise);
    let deep_pct = 150 + deep_noise;
    let rem_pct = 200 + rem_noise;
    let quality = spec_sleep_quality(a, m.atl, quality_noise);
    let morning = spec_battery_morning(a, quality, m.atl, battery_noise);
    let prob = injury_probability_ppm(
        a.recovery_rate,
        m.acwr as u64,
        m.atl as u64,
        m.tsb as i64,
        model_acute_sum(m, tcfg.acwr_acute_window as int) / (tcfg.acwr_acute_window as int),
        actual_tss,
        icfg,
    );
    let injury = roll < prob;
    DailyMetrics {
        athlete_id: a.id,
        ordinal: td.ordinal,
        month: td.month,
        day: td.day,
        resting_hr: spec_resting_hr(a, m.atl, rhr_noise) as u64,
        hrv: spec_morning_hrv(a, m.atl, hrv_noise) as u64,
        sleep_hours: sleep as u64,
        deep_sleep: (sleep * deep_pct / 1000) as u64,
        light_sleep: (sleep * (1000 - deep_pct - rem_pct) / 1000) as u64,
        rem_sleep: (sleep * rem_pct / 1000) as u64,
        sleep_quality: quality as u64,
        body_battery_morning: morning as u64,
        stress: spec_stress(a, actual_tss as int, m.atl, stress_noise) as u64,
        body_battery_evening: spec_battery_evening(morning, actual_tss as int, a) as u64,
        planned_tss: td.total_tss,
        actual_tss,
        ctl: m.ctl as u64,
        atl: m.atl as u64,
        tsb: m.tsb as i64,
        acwr: m.acwr as u64,
        injury,
        injury_type: if injury {
            Some(spec_injury_type(m.acwr, m.atl, icfg))
        } else {
            None
        },
        injury_probability: prob as u64,
    }
}

/// Morning resting heart rate and HRV from the state before the update.
fn simulate_morning_hr(
    athlete: &Athlete,
    training_state: &TrainingState,
    rhr_noise: i64,
    hrv_noise: i64,
) -> (r: (u64, u64))
    requires
        athlete_wf(*athlete),
        training_state.wf(),
        -4000 <= rhr_noise <= 4000,
        -10_000 <= hrv_noise <= 10_000,
    ensures
        r.0 == spec_resting_hr(*athlete, training_state.atl as int, rhr_noise as int),
        r.1 == spec_morning_hrv(*athlete, training_state.atl as int, hrv_noise as int),
{
    let atl = training_state.atl;
    let eff = if atl / 100 > 100 { 100 } else { atl / 100 };
    proof {
        lemma_mul_bounds(athlete.resting_hr as int, 1000 + eff, 300_000, 1100);
        vstd::arithmetic::div_mod::lemma_div_is_ordered(
            (athlete.resting_hr * 9) as int, (athlete.resting_hr * 12) as int, 10);
    }
    let base_rhr = athlete.resting_hr * (1000 + eff) / 1000;
    let lo = athlete.resting_hr * 9 / 10;
    let hi = athlete.resting_hr * 12 / 10;
    let rhr = clamp_i64(base_rhr as i64 + rhr_noise, lo as i64, hi as i64) as u64;

    let sup = if atl / 200 > 200 { 200 } else { atl / 200 };
    proof {
        lemma_mul_bounds(athlete.hrv_baseline as int, 1000 - sup, 1_000_000, 1000);
    }
    let base_hrv = athlete.hrv_baseline * (1000 - sup) / 1000;
    let hrv = clamp_i64(
        base_hrv as i64 + hrv_noise,
        athlete.hrv_range.lo as i64,
        athlete.hrv_range.hi as i64,
    ) as u64;
    (rhr, hrv)
}

/// Sleep duration, the three stage durations, and sleep quality.
fn simulate_sleep(
    athlete: &Athlete,
    training_state: &TrainingState,
    sleep_noise: i64,
    deep_noise: i64,
    rem_noise: i64,
    quality_noise: i64,
) -> (r: (u64, u64, u64, u64, u64))
    requires
        athlete_wf(*athlete),
        training_state.wf(),
        -1000 <= sleep_noise <= 1000,
        -50 <= deep_noise <= 50,
        -50 <= rem_noise <= 50,
        -200 <= quality_noise <= 200,
    ensures
        r.0 == spec_sleep_hours(*athlete, training_state.atl as int, sleep_noise as int),
        r.1 == r.0 * (150 + deep_noise) / 1000,
        r.2 == r.0 * (1000 - (150 + deep_noise) - (200 + rem_noise)) / 1000,
        r.3 == r.0 * (200 + rem_noise) / 1000,
        r.4 == spec_sleep_quality(*athlete, training_state.atl as int, quality_noise as int),
{
    let atl = training_state.atl;
    let disruption = if atl > 80_000 { (atl - 80_000) / 200 } else { 0 };
    let sleep = clamp_i64(
        athlete.lifestyle.sleep_hours as i64 - disruption as i64 + sleep_noise,
        4000,
        10_000,
    ) as u64;
    let deep_pct = (150 + deep_noise) as u64;
    let rem_pct = (200 + rem_noise) as u64;
    let light_pct = 1000 - deep_pct - rem_pct;
    proof {
        lemma_mul_bounds(sleep as int, deep_pct as int, 10_000, 200);
        lemma_mul_bounds(sleep as int, rem_pct as int, 10_000, 250);
        lemma_mul_bounds(sleep as int, light_pct as int, 10_000, 1000);
    }
    let deep = sleep * deep_pct / 1000;
    let rem = sleep * rem_pct / 1000;
    let light = sleep * light_pct / 1000;
    let quality = clamp_i64(
        athlete.lifestyle.sleep_quality as i64 - (disruption / 2) as i64 + quality_noise,
        0,
        1000,
    ) as u64;
    (sleep, deep, light, rem, quality)
}

/// Morning recovery battery.
fn simulate_body_battery_morning(
    athlete: &Athlete,
    sleep_quality: u64,
    training_state: &TrainingState,
    noise: i64,
) -> (r: u64)
    requires
        athlete_wf(*athlete),
        training_state.wf(),
        sleep_quality <= 1000,
        -10_000 <= noise <= 10_000,
    ensures
        r == spec_battery_morning(
            *athlete, sleep_quality as int, training_state.atl as int, noise as int),
{
    proof {
        lemma_mul_bounds(athlete.recovery_rate as int, sleep_quality as int, 1500, 1000);
    }
    let credit = 50 * (athlete.recovery_rate * sleep_quality) / 1000;
    let drain = training_state.atl / 5;
    proof {
        assert(50 * ((athlete.recovery_rate * sleep_quality) as int)
            == 50 * athlete.recovery_rate * sleep_quality) by (nonlinear_arith);
    }
    clamp_i64(
        50_000 + credit as i64 - drain as i64 + noise,
        20_000,
        100_000,
    ) as u64
}

/// Evening stress level.
fn simulate_stress(
    athlete: &Athlete,
    actual_tss: u64,
    training_state: &TrainingState,
    noise: i64,
) -> (r: u64)
    requires
        athlete_wf(*athlete),
        training_state.wf(),
        actual_tss <= MAX_LOAD_MILLI,
        -10_000 <= noise <= 10_000,
    ensures
        r == spec_stress(
            *athlete, actual_tss as int, training_state.atl as int, noise as int),
{
    let base = athlete.lifestyle.stress * 50;
    let training = actual_tss / 5;
    let fatigue = training_state.atl / 10;
    clamp_i64(
        base as i64 + training as i64 + fatigue as i64 + noise,
        0,
        100_000,
    ) as u64
}

/// Evening recovery battery.
fn simulate_body_battery_evening(
    morning_battery: u64,
    actual_tss: u64,
    athlete: &Athlete,
) -> (r: u64)
    requires
        athlete_wf(*athlete),
        morning_battery <= 100_000,
        actual_tss <= MAX_LOAD_MILLI,
    ensures
        r == spec_battery_evening(
            morning_battery as int, actual_tss as int, *athlete),
{
    let rr = athlete.recovery_rate;
    let modifier = if rr >= 500 { 1000 - (rr - 500) / 5 } else { 1000 + (500 - rr) / 5 };
    let drain = actual_tss * 2 / 5;
    proof {
        lemma_mul_bounds(drain as int, modifier as int, 400_000_000, 1100);
    }
    let scaled = drain * modifier / 1000;
    clamp_i64(
        morning_battery as i64 - scaled as i64,
        5_000,
        100_000,
    ) as u64
}

/// The day's injury outcome: the probability, the Bernoulli decision
/// against the given roll, and the dominant-threshold type.
///
/// With zero realized load the probability is zero, so no injury can
/// occur, whatever the roll.
pub fn calculate_injury_with_config(
    athlete: &Athlete,
    training_state: &TrainingState,
    actual_tss: u64,
    config: &InjuryModelConfig,
    roll: u64,
) -> (r: (bool, Option<InjuryType>, u64))
    requires
        athlete_wf(*athlete),
        training_state.wf(),
        injury_config_wf(*config),
        actual_tss <= MAX_LOAD_MILLI,
    ensures
        r.2 == injury_probability_ppm(
            athlete.recovery_rate,
            training_state.acwr,
            training_state.atl,
            training_state.tsb,
            training_state.acute_sum() / (training_state.config.acwr_acute_window as int),
            actual_tss,
            *config,
        ),
        r.0 == (roll < r.2),
        actual_tss == 0 ==> !r.0,
        r.1 == (if r.0 {
            Some(spec_injury_type(
                training_state.acwr as int, training_state.atl as int, *config))
        } else {
            None::<InjuryType>
        }),
        r.2 <= config.max_injury_probability,
{
    let injury_prob = calculate_injury_probability(athlete, training_state, actual_tss, config);
    let injury = roll < injury_prob;
    let injury_type = if injury {
        if training_state.acwr > config.acwr_danger_threshold {
            Some(InjuryType::Exposure)
        } else if training_state.atl > config.fatigue_high_threshold {
            Some(InjuryType::Physiological)
        } else {
            Some(InjuryType::Baseline)
        }
    } else {
        None
    };
    (injury, injury_type, injury_prob)
}

/// Produce the day's complete metrics record: telemetry from the nine
/// draws at the source's position, the injury outcome, and the
/// workload indices before today's update.
pub fn simulate_daily_metrics_with_config(
    src: &mut RandomSource,
    athlete: &Athlete,
    training_day: &TrainingDay,
    training_state: &TrainingState,
    actual_tss: u64,
    injury_config: &InjuryModelConfig,
) -> (r: DailyMetrics)
    requires
        athlete_wf(*athlete),
        training_state.wf(),
        injury_config_wf(*injury_config),
        actual_tss <= MAX_LOAD_MILLI,
        old(src).pos + METRICS_DRAWS < u64::MAX,
    ensures
        final(src).seed == old(src).seed,
        final(src).pos == old(src).pos + METRICS_DRAWS,
        r == spec_daily_metrics(
            *athlete, *training_day, training_state.model(), actual_tss,
            *injury_config, training_state.config, old(src).seed, old(src).pos),
        actual_tss == 0 ==> !r.injury,
        r.injury_probability <= injury_config.max_injury_probability,
{
    let rhr_noise = src.next_noise(4000);
    let hrv_noise = src.next_noise(10_000);
    let sleep_noise = src.next_noise(1000);
    let deep_noise = src.next_noise(50);
    let rem_noise = src.next_noise(50);
    let quality_noise = src.next_noise(200);
    let battery_noise = src.next_noise(10_000);
    let stress_noise = src.next_noise(10_000);
    let roll = src.next_roll_ppm();

    let (resting_hr, hrv) = simulate_morning_hr(athlete, training_state, rhr_noise, hrv_noise);
    let (sleep_hours, deep_sleep, light_sleep, rem_sleep, sleep_quality) =
        simulate_sleep(athlete, training_state, sleep_noise, deep_noise, rem_noise, quality_noise);
    let body_battery_morning =
        simulate_body_battery_morning(athlete, sleep_quality, training_state, battery_noise);
    let stress = simulate_stress(athlete, actual_tss, training_state, stress_noise);
    let body_battery_evening =
        simulate_body_battery_evening(body_battery_morning, actual_tss, athlete);
    let (injury, injury_type, injury_probability) =
        calculate_injury_with_config(athlete, training_state, actual_tss, injury_config, roll);

    DailyMetrics {
        athlete_id: athlete.id,
        ordinal: training_day.ordinal,
        month: training_day.month,
        day: training_day.day,
        resting_hr,
        hrv,
        sleep_hours,
        deep_sleep,
        light_sleep,
        rem_sleep,
        sleep_quality,
        body_battery_morning,
        stress,
        body_battery_evening,
        planned_tss: training_day.total_tss,
        actual_tss,
        ctl: training_state.ctl,
        atl: training_state.atl,
        tsb: training_state.tsb,
        acwr: training_state.acwr,
        injury,
        injury_type,
        injury_probability,
    }
}

/// As [`simulate_daily_metrics_with_config`], with the default
/// injury-model configuration.
pub fn simulate_daily_metrics(
    src: &mut RandomSource,
    athlete: &Athlete,
    training_day: &TrainingDay,
    training_state: &TrainingState,
    actual_tss: u64,
) -> (r: DailyMetrics)
    requires
        athlete_wf(*athlete),
        training_state.wf(),
        actual_tss <= MAX_LOAD_MILLI,
        old(src).pos + METRICS_DRAWS < u64::MAX,
    ensures
        final(src).seed == old(src).seed,
        final(src).pos == old(src).pos + METRICS_DRAWS,
        r == spec_daily_metrics(
            *athlete, *training_day, training_state.model(), actual_tss,
            crate::config::spec_default_injury_config(), training_state.config,
            old(src).seed, old(src).pos),
        actual_tss == 0 ==> !r.injury,
{
    simulate_daily_metrics_with_config(
        src, athlete, training_day, training_state, actual_tss,
        &InjuryModelConfig::default())
}

} // verus!
