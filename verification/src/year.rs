//! One athlete's year: the day orchestrator. Walks the annual plan in
//! calendar order, realizes each day's workouts, produces the day's
//! telemetry and injury outcome, and updates the workload state. The
//! whole year is a pure function of (athlete, year, seed, parameters).

use vstd::prelude::*;
use crate::activity::{Activity, ACTIVITY_DRAWS, generate_activities, spec_realized};
use crate::athlete::{Athlete, athlete_wf};
use crate::config::{InjuryModelConfig, SimulationParams, TrainingModelConfig, params_wf, training_config_wf};
use crate::daily::{simulate_daily_metrics_with_config, spec_daily_metrics};
use crate::metrics::{
    TrainingState, StateModel, MAX_LOAD_MILLI, MAX_HRV_MILLI, spec_state_update,
    spec_init_tss_value, spec_init_hrv_value, initialize_tss_history, initialize_hrv_history,
    sum_seq, sum_range, lemma_sum_bound,
};
use crate::plan::{AnnualPlan, TrainingDay, spec_plan_day, spec_race_dates,
    generate_annual_plan, plan_ok};
use crate::rng::{RandomSource, sw_noise};
use crate::simulation::{AthleteSimulationResult, DailyMetrics};
use crate::util::{clamp, clamp_i64, scale_milli, scale_milli_i64, spec_wrap_add, wrap_add};
use crate::calendar::spec_days_in_year;

verus! {

/// Draws consumed per simulated day of the year stream: one completion
/// noise draw, four activity inclusion rolls, eight telemetry draws and
/// one injury roll.
pub const YEAR_DAY_DRAWS: u64 = 14;

/// Offset separating the plan stream's seed from the year stream's.
pub const PLAN_STREAM_OFFSET: u64 = 0x9E37_79B9_7F4A_7C15;

/// First draw position of day `k` of the year stream.
pub open spec fn year_day_base(k: int) -> u64 {
    (YEAR_DAY_DRAWS * k) as u64
}

/// Completion rate of a day (milli): rest days never train, race days
/// always complete fully; otherwise 95% reduced by heavy fatigue and
/// deeply negative form, scaled by lifestyle adherence, plus noise,
/// clamped to the unit range.
pub open spec fn spec_completion(a: Athlete, m: StateModel, td: TrainingDay, noise: int) -> int {
    if td.is_rest_day {
        0
    } else if td.is_race_day {
        1000
    } else {
        let b1 = if m.atl > 100_000 {
            950 - (m.atl - 100_000) / 500
        } else {
            950
        };
        let b2 = if m.tsb < -30_000 {
            b1 - ((-m.tsb) - 30_000) / 200
        } else {
            b1
        };
        clamp(scale_milli(b2, a.lifestyle.exercise as int) + noise, 0, 1000)
    }
}

/// Workout completion rate for the day, from the state before the
/// update and the day's completion-noise draw.
pub fn calculate_completion_rate(
    athlete: &Athlete,
    training_state: &TrainingState,
    training_day: &TrainingDay,
    noise: i64,
) -> (r: u64)
    requires
        athlete_wf(*athlete),
        training_state.wf(),
        -100 <= noise <= 100,
    ensures
        r == spec_completion(*athlete, training_state.model(), *training_day, noise as int),
        r <= 1000,
{
    if training_day.is_rest_day {
        return 0;
    }
    if training_day.is_race_day {
        return 1000;
    }
    let atl = training_state.atl;
    let tsb = training_state.tsb;
    let b1: i64 = if atl > 100_000 {
        950 - ((atl - 100_000) / 500) as i64
    } else {
        950
    };
    let b2: i64 = if tsb < -30_000 {
        b1 - ((-tsb) - 30_000) / 200
    } else {
        b1
    };
    let b3 = scale_milli_i64(b2, athlete.lifestyle.exercise);
    clamp_i64(b3 + noise, 0, 1000) as u64
}

/// The initial workload state of a year: windows pre-filled by the
/// history initializers, chronic index at the window mean, acute index
/// at 90% of it, neutral ratio.
pub open spec fn spec_initial_model(a: Athlete, c: TrainingModelConfig) -> StateModel {
    let tss = Seq::new(
        c.acwr_chronic_window as nat,
        |i: int| spec_init_tss_value(a.weekly_training_hours, a.recovery_rate, c, i) as u64,
    );
    let hrv = Seq::new(
        c.acwr_chronic_window as nat,
        |i: int| spec_init_hrv_value(a.hrv_baseline, a.hrv_range.lo, a.hrv_range.hi, i) as u64,
    );
    let ctl = sum_seq(tss) / (c.acwr_chronic_window as int);
    StateModel {
        tss,
        hrv,
        ctl,
        atl: ctl / 10 * 9,
        tsb: ctl - ctl / 10 * 9,
        acwr: 1000,
    }
}

/// The day's completion rate in the year stream.
pub open spec fn spec_day_completion(
    a: Athlete,
    m: StateModel,
    td: TrainingDay,
    seed: u64,
    k: int,
) -> int {
    spec_completion(a, m, td, sw_noise(seed, year_day_base(k), 100))
}

/// The day's realized activities and aggregate load in the year stream.
pub open spec fn spec_day_realized(
    a: Athlete,
    m: StateModel,
    td: TrainingDay,
    seed: u64,
    k: int,
) -> (Seq<Activity>, int) {
    spec_realized(
        a.id, td, spec_day_completion(a, m, td, seed, k), seed,
        (year_day_base(k) + 1) as u64)
}

/// The day's metrics record in the year stream.
pub open spec fn spec_day_record(
    a: Athlete,
    m: StateModel,
    td: TrainingDay,
    icfg: InjuryModelConfig,
    tcfg: TrainingModelConfig,
    seed: u64,
    k: int,
) -> DailyMetrics {
    spec_daily_metrics(
        a, td, m, spec_day_realized(a, m, td, seed, k).1 as u64, icfg, tcfg, seed,
        (year_day_base(k) + 1 + ACTIVITY_DRAWS) as u64)
}

/// The state transition of one simulated day: update with the realized
/// load and the day's HRV reading.
pub open spec fn spec_day_transition(
    a: Athlete,
    m: StateModel,
    td: TrainingDay,
    icfg: InjuryModelConfig,
    tcfg: TrainingModelConfig,
    seed: u64,
    k: int,
) -> StateModel {
    spec_state_update(
        m,
        spec_day_realized(a, m, td, seed, k).1 as u64,
        spec_day_record(a, m, td, icfg, tcfg, seed, k).hrv,
        tcfg,
    )
}

/// Workload state before day `k` of the year.
pub open spec fn spec_year_state(
    a: Athlete,
    days: Seq<TrainingDay>,
    icfg: InjuryModelConfig,
    tcfg: TrainingModelConfig,
    seed: u64,
    k: int,
) -> StateModel
    decreases k,
{
    if k <= 0 {
        spec_initial_model(a, tcfg)
    } else {
        let prev = spec_year_state(a, days, icfg, tcfg, seed, k - 1);
        spec_day_transition(a, prev, days[k - 1], icfg, tcfg, seed, k - 1)
    }
}

/// The first `k` daily records of the year.
pub open spec fn spec_metrics_seq(
    a: Athlete,
    days: Seq<TrainingDay>,
    icfg: InjuryModelConfig,
    tcfg: TrainingModelConfig,
    seed: u64,
    k: int,
) -> Seq<DailyMetrics>
    decreases k,
{
    if k <= 0 {
        Seq::empty()
    } else {
        spec_metrics_seq(a, days, icfg, tcfg, seed, k - 1).push(
            spec_day_record(
                a, spec_year_state(a, days, icfg, tcfg, seed, k - 1), days[k - 1],
                icfg, tcfg, seed, k - 1))
    }
}

/// The activities realized over the first `k` days of the year.
pub open spec fn spec_activities_seq(
    a: Athlete,
    days: Seq<TrainingDay>,
    icfg: InjuryModelConfig,
    tcfg: TrainingModelConfig,
    seed: u64,
    k: int,
) -> Seq<Activity>
    decreases k,
{
    if k <= 0 {
        Seq::empty()
    } else {
        spec_activities_seq(a, days, icfg, tcfg, seed, k - 1)
            + spec_day_realized(
                a, spec_year_state(a, days, icfg, tcfg, seed, k - 1), days[k - 1],
                seed, k - 1).0
    }
}

/// The plan the athlete's year runs on: generated from the plan
/// stream's seed, one day per calendar date.
pub open spec fn spec_year_days(a: Athlete, year: i32, plan_seed: u64) -> Seq<TrainingDay> {
    Seq::new(
        spec_days_in_year(year) as nat,
        |i: int| spec_plan_day(a, year, plan_seed, spec_race_dates(year, plan_seed), i),
    )
}

/// A year's simulation result matches the model for these inputs: the
/// metrics and activity tables equal the model's, day for day. The
/// model is a pure function of (athlete, year, seed, parameters), which
/// is what makes the population loop safely parallel.
pub open spec fn year_result_ok(
    r: AthleteSimulationResult,
    a: Athlete,
    year: i32,
    base_seed: u64,
    params: SimulationParams,
) -> bool {
    let aseed = spec_wrap_add(base_seed, a.id) as u64;
    let pseed = spec_wrap_add(aseed, PLAN_STREAM_OFFSET) as u64;
    let days = spec_year_days(a, year, pseed);
    let n = spec_days_in_year(year);
    &&& r.athlete == a
    &&& r.daily_metrics@ == spec_metrics_seq(a, days, params.injury, params.training, aseed, n)
    &&& r.activities@ == spec_activities_seq(a, days, params.injury, params.training, aseed, n)
}

/// Build the year's starting workload state: windows pre-filled with
/// the synthetic history, chronic index at the window mean, acute index
/// at 90% of it, neutral ratio.
fn initial_training_state(athlete: &Athlete, config: &TrainingModelConfig) -> (r: TrainingState)
    requires
        athlete_wf(*athlete),
        training_config_wf(*config),
    ensures
        r.wf(),
        r.config == *config,
        r.model() == spec_initial_model(*athlete, *config),
{
    let tss_history = initialize_tss_history(
        athlete.weekly_training_hours, athlete.recovery_rate, config);
    let hrv_history = initialize_hrv_history(
        athlete.hrv_baseline, athlete.hrv_range.lo, athlete.hrv_range.hi, config);

    let cw = config.acwr_chronic_window;
    let chronic_sum = sum_range(&tss_history, 0, cw);
    proof {
        assert(tss_history@.subrange(0, cw as int) =~= tss_history@);
        lemma_sum_bound(tss_history@, MAX_LOAD_MILLI);
        vstd::arithmetic::div_mod::lemma_div_is_ordered(
            sum_seq(tss_history@), (cw as int) * (MAX_LOAD_MILLI as int), cw as int);
        vstd::arithmetic::div_mod::lemma_div_multiples_vanish(
            MAX_LOAD_MILLI as int, cw as int);
    }
    let initial_ctl = chronic_sum / (cw as u64);
    proof {
        assert(initial_ctl <= MAX_LOAD_MILLI);
        vstd::arithmetic::div_mod::lemma_div_is_ordered(
            initial_ctl as int, MAX_LOAD_MILLI as int, 10);
    }
    let initial_atl = initial_ctl / 10 * 9;
    let r = TrainingState {
        tss_history,
        hrv_history,
        ctl: initial_ctl,
        atl: initial_atl,
        tsb: (initial_ctl as i64) - (initial_atl as i64),
        acwr: 1000,
        config: *config,
    };
    proof {
        assert(r.model().tss =~= spec_initial_model(*athlete, *config).tss);
        assert(r.model().hrv =~= spec_initial_model(*athlete, *config).hrv);
        assert(sum_seq(r.model().tss) == sum_seq(spec_initial_model(*athlete, *config).tss));
        assert(r.model() =~= spec_initial_model(*athlete, *config));
    }
    r
}

/// Run the year's day loop over a generated plan: the sequential
/// orchestration of completion, realization, telemetry and state
/// update, day by day in calendar order.
#[verifier::rlimit(100)]
fn run_year(
    athlete: &Athlete,
    plan: &AnnualPlan,
    Ghost(plan_seed): Ghost<u64>,
    athlete_seed: u64,
    params: &SimulationParams,
) -> (r: (Vec<DailyMetrics>, Vec<Activity>))
    requires
        athlete_wf(*athlete),
        params_wf(*params),
        2 <= plan.year <= 9999,
        plan_ok(*plan, *athlete, plan.year, plan_seed),
    ensures
        r.0@ == spec_metrics_seq(
            *athlete, spec_year_days(*athlete, plan.year, plan_seed),
            params.injury, params.training, athlete_seed,
            spec_days_in_year(plan.year)),
        r.1@ == spec_activities_seq(
            *athlete, spec_year_days(*athlete, plan.year, plan_seed),
            params.injury, params.training, athlete_seed,
            spec_days_in_year(plan.year)),
{
    let ghost days = spec_year_days(*athlete, plan.year, plan_seed);
    proof {
        assert(plan.days@ =~= days);
    }
    let mut training_state = initial_training_state(athlete, &params.training);
    let mut src = RandomSource::new(athlete_seed);
    let mut daily_metrics: Vec<DailyMetrics> = Vec::new();
    let mut all_activities: Vec<Activity> = Vec::new();
    let n_days = plan.days.len();
    let mut k: usize = 0;
    while k < n_days
        invariant
            athlete_wf(*athlete),
            params_wf(*params),
            k <= n_days,
            n_days == plan.days@.len(),
            2 <= plan.year <= 9999,
            plan_ok(*plan, *athlete, plan.year, plan_seed),
            plan.days@ == days,
            days.len() == spec_days_in_year(plan.year),
            n_days <= 366,
            src.seed == athlete_seed,
            src.pos == YEAR_DAY_DRAWS * k,
            training_state.wf(),
            training_state.config == params.training,
            training_state.model() == spec_year_state(
                *athlete, days, params.injury, params.training, athlete_seed, k as int),
            daily_metrics@ == spec_metrics_seq(
                *athlete, days, params.injury, params.training, athlete_seed, k as int),
            all_activities@ == spec_activities_seq(
                *athlete, days, params.injury, params.training, athlete_seed, k as int),
        decreases n_days - k,
    {
        let ghost m_k = training_state.model();
        let td = &plan.days[k];
        proof {
            assert(*td == days[k as int]);
        }
        let completion_noise = src.next_noise(100);
        let completion = calculate_completion_rate(
            athlete, &training_state, td, completion_noise);
        proof {
            assert(completion as int == spec_day_completion(
                *athlete, m_k, days[k as int], athlete_seed, k as int));
        }
        let (activities, actual_tss) = generate_activities(
            &mut src, athlete, td, completion);
        proof {
            assert(activities@ == spec_day_realized(
                *athlete, m_k, days[k as int], athlete_seed, k as int).0);
            assert(actual_tss as int == spec_day_realized(
                *athlete, m_k, days[k as int], athlete_seed, k as int).1);
        }
        let metrics = simulate_daily_metrics_with_config(
            &mut src, athlete, td, &training_state, actual_tss, &params.injury);
        proof {
            assert(metrics == spec_day_record(
                *athlete, m_k, days[k as int], params.injury, params.training,
                athlete_seed, k as int));
            assert(metrics.hrv <= MAX_HRV_MILLI);
        }
        training_state.update(actual_tss, metrics.hrv);
        proof {
            assert(training_state.model() == spec_day_transition(
                *athlete, m_k, days[k as int], params.injury, params.training,
                athlete_seed, k as int));
            assert(training_state.model() == spec_year_state(
                *athlete, days, params.injury, params.training, athlete_seed, k + 1));
        }
        daily_metrics.push(metrics);
        proof {
            assert(daily_metrics@ =~= spec_metrics_seq(
                *athlete, days, params.injury, params.training, athlete_seed, k + 1));
        }
        let mut j: usize = 0;
        let ghost acts_before = all_activities@;
        while j < activities.len()
            invariant
                j <= activities@.len(),
                all_activities@ == acts_before + activities@.subrange(0, j as int),
            decreases activities@.len() - j,
        {
            all_activities.push(activities[j]);
            proof {
                assert(all_activities@ =~= acts_before + activities@.subrange(0, j + 1));
            }
            j = j + 1;
        }
        proof {
            assert(activities@.subrange(0, activities@.len() as int) =~= activities@);
            assert(all_activities@ =~= spec_activities_seq(
                *athlete, days, params.injury, params.training, athlete_seed, k + 1));
        }
        k = k + 1;
    }
    (daily_metrics, all_activities)
}

/// Simulate one athlete's full year with explicit parameters.
///
/// Days are processed strictly in calendar order: the workload state at
/// each day depends on every day before it. The result is pinned to the
/// model, so identical inputs give an identical result.
pub fn simulate_full_year_with_config(
    athlete: &Athlete,
    year: i32,
    base_seed: u64,
    params: &SimulationParams,
) -> (r: AthleteSimulationResult)
    requires
        athlete_wf(*athlete),
        params_wf(*params),
        2 <= year <= 9999,
    ensures
        year_result_ok(r, *athlete, year, base_seed, *params),
        r.daily_metrics@.len() == spec_days_in_year(year),
{
    let athlete_seed = wrap_add(base_seed, athlete.id);
    let plan_seed = wrap_add(athlete_seed, PLAN_STREAM_OFFSET);
    let plan = generate_annual_plan(athlete, year, plan_seed);
    let (daily_metrics, all_activities) = run_year(
        athlete, &plan, Ghost(plan_seed), athlete_seed, params);
    proof {
        lemma_metrics_seq_len(
            *athlete, spec_year_days(*athlete, year, plan_seed),
            params.injury, params.training, athlete_seed, spec_days_in_year(year));
    }
    AthleteSimulationResult {
        athlete: *athlete,
        daily_metrics,
        activities: all_activities,
    }
}

/// A metrics sequence of the model has exactly one record per day.
pub proof fn lemma_metrics_seq_len(
    a: Athlete,
    days: Seq<TrainingDay>,
    icfg: InjuryModelConfig,
    tcfg: TrainingModelConfig,
    seed: u64,
    k: int,
)
    requires
        k >= 0,
    ensures
        spec_metrics_seq(a, days, icfg, tcfg, seed, k).len() == k,
    decreases k,
{
    if k > 0 {
        lemma_metrics_seq_len(a, days, icfg, tcfg, seed, k - 1);
    }
}

/// Simulate one athlete's full year with the default parameters.
pub fn simulate_full_year(
    athlete: &Athlete,
    year: i32,
    base_seed: u64,
) -> (r: AthleteSimulationResult)
    requires
        athlete_wf(*athlete),
        2 <= year <= 9999,
    ensures
        year_result_ok(r, *athlete, year, base_seed, crate::config::spec_default_params()),
{
    simulate_full_year_with_config(athlete, year, base_seed, &SimulationParams::default())
}

} // verus!
