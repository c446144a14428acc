//! The population orchestrator: per-athlete seeds derived from the
//! global seed, one independent simulation per athlete, aggregated into
//! one dataset. Determinism is per athlete, never per schedule: each
//! slot of the dataset is a pure function of (seed, index, year,
//! parameters), so any execution order — or any worker-pool width —
//! produces the same dataset.

use vstd::prelude::*;
use crate::athlete::{athlete_wf, generate_athlete_profile_with_config, spec_generate_athlete};
use crate::config::{SimulationParams, params_wf};
use crate::simulation::{AthleteSimulationResult, SimulationResult};
use crate::util::{spec_wrap_add, wrap_add};
use crate::year::{simulate_full_year_with_config, year_result_ok};

verus! {

/// Configuration of a data-generation run.
#[derive(Debug, Clone, Copy, PartialEq, Eq)]
pub struct SimulationConfig {
    /// Number of athletes to generate.
    pub n_athletes: usize,
    /// Simulated calendar year.
    pub year: i32,
    /// Global random seed.
    pub seed: u64,
    /// Worker-pool width for a parallel run; 0 means auto-detect.
    /// The dataset never depends on it.
    pub threads: usize,
    /// Model parameters.
    pub params: SimulationParams,
}

/// Well-formedness of a run configuration.
pub open spec fn simulation_config_wf(c: SimulationConfig) -> bool {
    &&& params_wf(c.params)
    &&& 2 <= c.year <= 9999
    &&& c.n_athletes <= 1_000_000
}

impl Default for SimulationConfig {
    /// One hundred athletes of the default population in 2024, seed 42,
    /// auto-detected parallelism.
    fn default() -> (r: SimulationConfig)
        ensures
            r.n_athletes == 100 && r.year == 2024 && r.seed == 42 && r.threads == 0,
            r.params == crate::config::spec_default_params(),
            simulation_config_wf(r),
    {
        SimulationConfig {
            n_athletes: 100,
            year: 2024,
            seed: 42,
            threads: 0,
            params: SimulationParams::default(),
        }
    }
}

/// Slot `index` of a dataset matches the model: the profile is sampled
/// from the seed derived for that index, and the year's result matches
/// the model for that profile. Both are pure functions of
/// (seed, index, year, params).
pub open spec fn athlete_slot_ok(
    r: AthleteSimulationResult,
    index: u64,
    year: i32,
    seed: u64,
    params: SimulationParams,
) -> bool {
    let profile_seed = spec_wrap_add(seed, index) as u64;
    &&& r.athlete == spec_generate_athlete(profile_seed, params.athlete)
    &&& year_result_ok(r, r.athlete, year, seed, params)
}

/// A whole dataset matches the model: one slot per athlete index.
pub open spec fn dataset_ok(
    results: Seq<AthleteSimulationResult>,
    n: int,
    year: i32,
    seed: u64,
    params: SimulationParams,
) -> bool {
    &&& results.len() == n
    &&& forall|i: int| 0 <= i < n
        ==> athlete_slot_ok(#[trigger] results[i], i as u64, year, seed, params)
}

/// Simulate the athlete at one index of the population: derive the
/// profile seed, sample the profile, and run its year. This is the
/// independent unit of work a worker pool fans out; it shares nothing
/// and depends only on its arguments.
pub fn simulate_athlete(
    seed: u64,
    index: u64,
    year: i32,
    params: &SimulationParams,
) -> (r: AthleteSimulationResult)
    requires
        params_wf(*params),
        2 <= year <= 9999,
    ensures
        athlete_slot_ok(r, index, year, seed, *params),
{
    let profile_seed = wrap_add(seed, index);
    let athlete = generate_athlete_profile_with_config(profile_seed, &params.athlete);
    simulate_full_year_with_config(&athlete, year, seed, params)
}

/// Generate the complete dataset, one athlete at a time in index
/// order. Every slot is pinned to the model, so this sequential run
/// produces exactly the dataset any parallel schedule produces.
pub fn generate_dataset(config: &SimulationConfig) -> (r: SimulationResult)
    requires
        simulation_config_wf(*config),
    ensures
        dataset_ok(r.results@, config.n_athletes as int, config.year, config.seed,
            config.params),
{
    let mut results: Vec<AthleteSimulationResult> = Vec::new();
    let mut i: usize = 0;
    while i < config.n_athletes
        invariant
            simulation_config_wf(*config),
            i <= config.n_athletes,
            results@.len() == i,
            forall|j: int| 0 <= j < i ==> athlete_slot_ok(
                #[trigger] results@[j], j as u64, config.year, config.seed, config.params),
        decreases config.n_athletes - i,
    {
        let r = simulate_athlete(config.seed, i as u64, config.year, &config.params);
        results.push(r);
        i = i + 1;
    }
    SimulationResult { results }
}

/// Reproducibility under parallelism: two datasets that both match the
/// model for the same (seed, population size, year, parameters) are
/// identical, athlete for athlete and day for day — their profile,
/// daily-metrics and activity tables are equal whatever order or
/// worker-pool width produced them.
pub proof fn lemma_dataset_deterministic(
    r1: Seq<AthleteSimulationResult>,
    r2: Seq<AthleteSimulationResult>,
    n: int,
    year: i32,
    seed: u64,
    params: SimulationParams,
)
    requires
        dataset_ok(r1, n, year, seed, params),
        dataset_ok(r2, n, year, seed, params),
    ensures
        r1.len() == r2.len(),
        forall|i: int| 0 <= i < r1.len() ==> #[trigger] r1[i].athlete == r2[i].athlete,
        forall|i: int| 0 <= i < r1.len()
            ==> #[trigger] r1[i].daily_metrics@ == r2[i].daily_metrics@,
        forall|i: int| 0 <= i < r1.len()
            ==> #[trigger] r1[i].activities@ == r2[i].activities@,
{
    assert forall|i: int| 0 <= i < r1.len() implies #[trigger] r1[i].athlete == r2[i].athlete
        && r1[i].daily_metrics@ == r2[i].daily_metrics@
        && r1[i].activities@ == r2[i].activities@ by {
        assert(athlete_slot_ok(r1[i], i as u64, year, seed, params));
        assert(athlete_slot_ok(r2[i], i as u64, year, seed, params));
    }
}

} // verus!
