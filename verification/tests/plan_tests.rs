//! The periodized plan: calendar arithmetic, exact phase boundaries
//! around a race, rest-day and race-day structure, and the workout
//! inversion formula.

use datagen_core::athlete::generate_athlete_profile;
use datagen_core::calendar::days_in_year;
use datagen_core::calendar::is_leap_year;
use datagen_core::calendar::iso_week_of;
use datagen_core::calendar::month_day_of_ordinal;
use datagen_core::calendar::month_start;
use datagen_core::calendar::weekday_of;
use datagen_core::plan::Sport;
use datagen_core::plan::TrainingPhase;
use datagen_core::plan::determine_phase;
use datagen_core::plan::generate_annual_plan;
use datagen_core::plan::generate_workout_spec;
use datagen_core::plan::workout_name;

#[test]
fn leap_years_and_year_lengths() {
    assert!(is_leap_year(2024));
    assert!(!is_leap_year(2023));
    assert!(!is_leap_year(1900));
    assert!(is_leap_year(2000));
    assert_eq!(days_in_year(2024), 366);
    assert_eq!(days_in_year(2023), 365);
}

#[test]
fn ordinals_map_to_months_and_days() {
    assert_eq!(month_day_of_ordinal(2024, 0), (1, 1));
    assert_eq!(month_day_of_ordinal(2024, 31), (2, 1));
    assert_eq!(month_day_of_ordinal(2024, 59), (2, 29));
    assert_eq!(month_day_of_ordinal(2024, 60), (3, 1));
    assert_eq!(month_day_of_ordinal(2024, 365), (12, 31));
    assert_eq!(month_day_of_ordinal(2023, 59), (3, 1));
    assert_eq!(month_start(2024, 5), 121);
}

#[test]
fn weekdays_anchor_on_known_dates() {
    // 2024-01-01 was a Monday, 2000-01-01 a Saturday, 2023-01-01 a Sunday.
    assert_eq!(weekday_of(2024, 0), 0);
    assert_eq!(weekday_of(2000, 0), 5);
    assert_eq!(weekday_of(2023, 0), 6);
    // 2024-12-31 was a Tuesday.
    assert_eq!(weekday_of(2024, 365), 1);
}

#[test]
fn iso_weeks_follow_the_thursday_rule() {
    // Monday 2024-01-01 opens week 1 of 2024.
    assert_eq!(iso_week_of(2024, 0), 1);
    // Sunday 2023-01-01 still belongs to 2022's last week, week 52.
    assert_eq!(iso_week_of(2023, 0), 52);
    // Monday 2024-12-30 belongs to week 1 of 2025.
    assert_eq!(iso_week_of(2024, 364), 1);
}

#[test]
fn phase_boundaries_are_exact_around_a_race() {
    // A race on day 200 of 2024: the bands switch exactly at
    // 0 / 1 / 4 / 15 / 43 days to the race.
    let races: Vec<u16> = vec![200];
    let phase = |d: u16| determine_phase(2024, d, &races);
    assert_eq!(phase(200), TrainingPhase::Race);
    assert_eq!(phase(199), TrainingPhase::RacePrep);
    assert_eq!(phase(197), TrainingPhase::RacePrep);
    assert_eq!(phase(196), TrainingPhase::Taper);
    assert_eq!(phase(186), TrainingPhase::Taper);
    assert_eq!(phase(185), TrainingPhase::Peak);
    assert_eq!(phase(158), TrainingPhase::Peak);
    assert_eq!(phase(157), TrainingPhase::Build);
    assert_eq!(phase(116), TrainingPhase::Build);
}

#[test]
fn month_fallback_covers_days_without_a_nearby_race() {
    let races: Vec<u16> = vec![];
    // January: off-season. February: base. October: recovery.
    assert_eq!(determine_phase(2024, 10, &races), TrainingPhase::OffSeason);
    assert_eq!(determine_phase(2024, 40, &races), TrainingPhase::Base);
    assert_eq!(determine_phase(2024, 280, &races), TrainingPhase::Recovery);
    assert_eq!(determine_phase(2024, 350, &races), TrainingPhase::OffSeason);
    // Any month not named by the table resolves to the Build default.
    assert_eq!(determine_phase(2024, 121, &races), TrainingPhase::Build);
}

#[test]
fn workout_inversion_has_the_expected_exact_values() {
    // 100 TSS at Build intensity 0.75 (no jitter):
    // hours = 100 / (0.75^2 * 100) = 1.7777 h, duration 106.62 min.
    let w = generate_workout_spec(Sport::Bike, 100_000, TrainingPhase::Build, 0);
    assert_eq!(w.intensity_factor, 750);
    assert_eq!(w.duration_minutes, 106_620);
    assert_eq!(w.tss_per_hour, 56_274);
    assert_eq!(w.sport, Sport::Bike);
    // The duration clamp binds for tiny loads.
    let w = generate_workout_spec(Sport::Run, 1_000, TrainingPhase::Base, 0);
    assert_eq!(w.duration_minutes, 20_000);
}

#[test]
fn workout_names_come_from_the_lookup_table() {
    assert_eq!(workout_name(Sport::Swim, TrainingPhase::Base), "Endurance Swim");
    assert_eq!(workout_name(Sport::Swim, TrainingPhase::Build), "Threshold Swim");
    assert_eq!(workout_name(Sport::Bike, TrainingPhase::Peak), "Interval Ride");
    assert_eq!(workout_name(Sport::Run, TrainingPhase::Taper), "Run Session");
    assert_eq!(workout_name(Sport::Strength, TrainingPhase::Race), "Strength Training");
}

#[test]
fn generated_plan_covers_the_year_in_order() {
    let athlete = generate_athlete_profile(11);
    let plan = generate_annual_plan(&athlete, 2024, 99);
    assert_eq!(plan.days.len(), 366);
    assert_eq!(plan.year, 2024);
    for (i, day) in plan.days.iter().enumerate() {
        assert_eq!(day.ordinal as usize, i);
    }
    let plan23 = generate_annual_plan(&athlete, 2023, 99);
    assert_eq!(plan23.days.len(), 365);
}

#[test]
fn generated_plan_is_deterministic() {
    let athlete = generate_athlete_profile(11);
    let a = generate_annual_plan(&athlete, 2024, 99);
    let b = generate_annual_plan(&athlete, 2024, 99);
    assert_eq!(a, b);
    // A different seed gives a different plan.
    let c = generate_annual_plan(&athlete, 2024, 100);
    assert_ne!(a, c);
}

#[test]
fn race_calendar_stays_in_the_race_season() {
    let athlete = generate_athlete_profile(5);
    for seed in 0..20u64 {
        let plan = generate_annual_plan(&athlete, 2024, seed);
        assert!(plan.race_dates.len() >= 1);
        assert!(plan.race_dates.len() <= 4);
        let may = month_start(2024, 5);
        let october = month_start(2024, 10);
        for &r in &plan.race_dates {
            assert!(r >= may && r < october, "race at ordinal {r}");
            let day = &plan.days[r as usize];
            assert!(day.is_race_day);
            assert_eq!(day.phase, TrainingPhase::Race);
            assert_eq!(day.total_tss, 0);
        }
    }
}

#[test]
fn rest_days_carry_no_target_load_at_all() {
    let athlete = generate_athlete_profile(13);
    let plan = generate_annual_plan(&athlete, 2024, 21);
    let mut rest_days = 0;
    for day in &plan.days {
        // Monday is the designated rest weekday.
        if day.day_of_week == 0 {
            assert!(day.is_rest_day);
        }
        if day.is_rest_day {
            rest_days += 1;
            assert_eq!(day.total_tss, 0);
            assert_eq!(day.swim_tss, 0);
            assert_eq!(day.bike_tss, 0);
            assert_eq!(day.run_tss, 0);
            assert_eq!(day.strength_tss, 0);
            assert!(day.swim_workout.is_none());
            assert!(day.bike_workout.is_none());
            assert!(day.run_workout.is_none());
            assert!(day.strength_workout.is_none());
        }
    }
    assert!(rest_days >= 52, "at least the Mondays rest");
}

#[test]
fn workouts_exist_exactly_for_loaded_disciplines() {
    let athlete = generate_athlete_profile(17);
    let plan = generate_annual_plan(&athlete, 2024, 3);
    for day in &plan.days {
        assert_eq!(day.swim_workout.is_some(), day.swim_tss > 0);
        assert_eq!(day.bike_workout.is_some(), day.bike_tss > 0);
        assert_eq!(day.run_workout.is_some(), day.run_tss > 0);
        assert_eq!(day.strength_workout.is_some(), day.strength_tss > 0);
        if let Some(w) = &day.bike_workout {
            assert!((20_000..=300_000).contains(&w.duration_minutes));
            assert!((600..=900).contains(&w.intensity_factor));
        }
    }
}

#[test]
fn get_day_finds_each_ordinal() {
    let athlete = generate_athlete_profile(19);
    let plan = generate_annual_plan(&athlete, 2024, 4);
    let day = plan.get_day(100).expect("day 100 exists");
    assert_eq!(day.ordinal, 100);
    assert!(plan.get_day(366).is_none());
}
