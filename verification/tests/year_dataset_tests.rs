//! The full pipeline: one athlete's year, rest-day guarantees across
//! realized data, and reproducibility of the whole dataset whatever
//! order the athletes are simulated in.

use datagen_core::athlete::generate_athlete_profile;
use datagen_core::config::SimulationParams;
use datagen_core::dataset::SimulationConfig;
use datagen_core::dataset::generate_dataset;
use datagen_core::dataset::simulate_athlete;
use datagen_core::plan::generate_annual_plan;
use datagen_core::year::PLAN_STREAM_OFFSET;
use datagen_core::year::simulate_full_year;
use datagen_core::year::simulate_full_year_with_config;

#[test]
fn a_year_produces_one_record_per_calendar_day() {
    let athlete = generate_athlete_profile(3);
    let result = simulate_full_year(&athlete, 2024, 42);
    assert_eq!(result.daily_metrics.len(), 366);
    assert_eq!(result.athlete, athlete);
    for (i, rec) in result.daily_metrics.iter().enumerate() {
        assert_eq!(rec.ordinal as usize, i);
        assert_eq!(rec.athlete_id, athlete.id);
    }
    let result23 =
        simulate_full_year_with_config(&athlete, 2023, 42, &SimulationParams::default());
    assert_eq!(result23.daily_metrics.len(), 365);
}

#[test]
fn years_are_reproducible_and_seed_sensitive() {
    let athlete = generate_athlete_profile(8);
    let a = simulate_full_year(&athlete, 2024, 42);
    let b = simulate_full_year(&athlete, 2024, 42);
    assert_eq!(a, b);
    let c = simulate_full_year(&athlete, 2024, 43);
    assert_ne!(a.daily_metrics, c.daily_metrics);
}

#[test]
fn rest_days_realize_no_load_and_no_activities() {
    let athlete = generate_athlete_profile(5);
    let base_seed = 42u64;
    let result = simulate_full_year(&athlete, 2024, base_seed);
    // The plan of this run: same derivation the year orchestrator uses.
    let athlete_seed = base_seed.wrapping_add(athlete.id);
    let plan_seed = athlete_seed.wrapping_add(PLAN_STREAM_OFFSET);
    let plan = generate_annual_plan(&athlete, 2024, plan_seed);
    let mut rest_days = 0;
    for day in &plan.days {
        if day.is_rest_day {
            rest_days += 1;
            let rec = &result.daily_metrics[day.ordinal as usize];
            assert_eq!(rec.actual_tss, 0, "rest day {} trained", day.ordinal);
            assert_eq!(rec.planned_tss, 0);
            assert!(!rec.injury, "injury on a rest day {}", day.ordinal);
            assert_eq!(rec.injury_probability, 0);
            assert!(
                result.activities.iter().all(|a| a.ordinal != day.ordinal),
                "activity on rest day {}",
                day.ordinal
            );
        }
    }
    assert!(rest_days >= 52);
}

#[test]
fn realized_load_is_the_sum_of_the_days_activities() {
    let athlete = generate_athlete_profile(6);
    let result = simulate_full_year(&athlete, 2024, 7);
    for rec in &result.daily_metrics {
        let day_total: u64 = result
            .activities
            .iter()
            .filter(|a| a.ordinal == rec.ordinal)
            .map(|a| a.tss)
            .sum();
        assert_eq!(rec.actual_tss, day_total, "day {}", rec.ordinal);
    }
}

#[test]
fn dataset_is_reproducible_and_order_independent() {
    // The reproducibility contract: the same (seed, n, year, params)
    // give the same tables, and each athlete's slot can be recomputed
    // independently, in any order, with the same outcome.
    let config = SimulationConfig {
        n_athletes: 6,
        year: 2024,
        seed: 42,
        threads: 0,
        params: SimulationParams::default(),
    };
    let first = generate_dataset(&config);
    let second = generate_dataset(&config);
    assert_eq!(first.results.len(), 6);
    for i in 0..6 {
        assert_eq!(first.results[i], second.results[i]);
    }
    // Recompute the slots in reverse order, as a worker pool might.
    for i in (0..6usize).rev() {
        let slot = simulate_athlete(config.seed, i as u64, config.year, &config.params);
        assert_eq!(slot, first.results[i], "slot {i} depends on schedule");
    }
}

#[test]
fn dataset_aggregates_count_what_they_say() {
    let config = SimulationConfig {
        n_athletes: 3,
        year: 2023,
        seed: 9,
        threads: 0,
        params: SimulationParams::default(),
    };
    let data = generate_dataset(&config);
    assert_eq!(data.total_daily_records(), 3 * 365);
    let manual_activities: usize = data.results.iter().map(|r| r.activities.len()).sum();
    assert_eq!(data.total_activities(), manual_activities);
    let manual_injuries: usize = data
        .results
        .iter()
        .flat_map(|r| r.daily_metrics.iter())
        .filter(|d| d.injury)
        .count();
    let expected_rate = if manual_injuries == 0 {
        0
    } else {
        (manual_injuries as u64) * 100_000 / (3 * 365)
    };
    assert_eq!(data.injury_rate(), expected_rate);
    let per_athlete = &data.results[0];
    let own_injuries =
        per_athlete.daily_metrics.iter().filter(|d| d.injury).count();
    assert_eq!(per_athlete.injury_count(), own_injuries);
    let flat = data.all_daily_metrics();
    assert_eq!(flat.len(), 3 * 365);
    assert_eq!(flat[0], data.results[0].daily_metrics[0]);
    assert_eq!(flat[365], data.results[1].daily_metrics[0]);
    let acts = data.all_activities();
    assert_eq!(acts.len(), manual_activities);
    let athletes = data.athletes();
    assert_eq!(athletes.len(), 3);
    assert_eq!(athletes[2], data.results[2].athlete);
}

#[test]
fn metrics_stay_in_their_physical_ranges() {
    let athlete = generate_athlete_profile(10);
    let result = simulate_full_year(&athlete, 2024, 1);
    for rec in &result.daily_metrics {
        assert!((4000..=10_000).contains(&rec.sleep_hours));
        assert!(rec.sleep_quality <= 1000);
        assert!((20_000..=100_000).contains(&rec.body_battery_morning));
        assert!((5_000..=100_000).contains(&rec.body_battery_evening));
        assert!(rec.stress <= 100_000);
        assert!(rec.hrv >= athlete.hrv_range.lo && rec.hrv <= athlete.hrv_range.hi);
        assert!(rec.injury_probability <= 300_000);
        assert_eq!(rec.injury, rec.injury_type.is_some());
        assert_eq!(rec.tsb, rec.ctl as i64 - rec.atl as i64);
    }
}
