//! Athlete sampling: determinism, configured ranges, internal
//! consistency, and the zone tables.

use datagen_core::athlete::Gender;
use datagen_core::athlete::calculate_hr_zones;
use datagen_core::athlete::calculate_power_zones;
use datagen_core::athlete::generate_athlete_profile;
use datagen_core::athlete::generate_athlete_profile_with_config;
use datagen_core::config::AthleteConfig;
use datagen_core::athlete::Chronotype;
use datagen_core::athlete::LifestyleKind;
use datagen_core::athlete::RecoveryProfile;
use datagen_core::athlete::SensorProfile;
use datagen_core::athlete::Specialization;
use datagen_core::physiology::CyclePhase;
use datagen_core::physiology::get_cycle_phase;
use datagen_core::physiology::get_phase_modifiers;
use datagen_core::plan::Sport;
use datagen_core::plan::TrainingPhase;
use datagen_core::simulation::InjuryType;

#[test]
fn profiles_are_deterministic_in_their_seed() {
    let a = generate_athlete_profile(42);
    let b = generate_athlete_profile(42);
    assert_eq!(a, b);
    let c = generate_athlete_profile(43);
    assert_ne!(a, c);
    assert_eq!(a.id, 42);
}

#[test]
fn profiles_respect_the_configured_ranges() {
    let config = AthleteConfig {
        min_age: 20,
        max_age: 30,
        min_weekly_hours: 8_000,
        max_weekly_hours: 12_000,
        female_probability: 0,
    };
    for seed in 0..25u64 {
        let a = generate_athlete_profile_with_config(seed, &config);
        assert!((20..=30).contains(&a.age));
        assert!((8_000..=12_000).contains(&a.weekly_training_hours));
        assert_eq!(a.gender, Gender::Male);
        assert!(a.menstrual_cycle_config.is_none());
    }
    let all_female = AthleteConfig { female_probability: 1_000_000, ..config };
    let a = generate_athlete_profile_with_config(3, &all_female);
    assert_eq!(a.gender, Gender::Female);
    let cycle = a.menstrual_cycle_config.expect("female profiles carry a cycle");
    assert!((26..=32).contains(&cycle.cycle_length));
}

#[test]
fn profiles_are_internally_consistent() {
    for seed in 0..25u64 {
        let a = generate_athlete_profile(seed);
        assert!(a.resting_hr < a.lthr && a.lthr < a.max_hr);
        assert!(a.hrv_range.lo <= a.hrv_baseline && a.hrv_baseline <= a.hrv_range.hi);
        assert!(a.recovery_rate <= 1500);
        assert!(a.lifestyle.exercise <= 1000);
        assert!((5000..=9000).contains(&a.lifestyle.sleep_hours));
        assert_eq!(a.heart_rate_reserve(), a.max_hr - a.resting_hr);
        assert_eq!(a.power_to_weight(), a.ftp * 1000 / a.weight_kg);
        assert_eq!(a.is_female(), a.gender == Gender::Female);
    }
}

#[test]
fn hr_zone_table_matches_the_threshold_fractions() {
    let z = calculate_hr_zones(160_000, 50_000, 190_000);
    assert_eq!(z.z1.lo, 75_000);
    assert_eq!(z.z1.hi, 128_000);
    assert_eq!(z.z2.hi, 144_000);
    assert_eq!(z.z3.hi, 152_000);
    assert_eq!(z.z4.hi, 163_200);
    assert_eq!(z.z5.hi, 169_600);
    assert_eq!(z.z6.hi, 190_000);
    assert_eq!(z.zone_for_hr(120_000), 1);
    assert_eq!(z.zone_for_hr(150_000), 3);
    assert_eq!(z.zone_for_hr(200_000), 6);
    assert_eq!(z.get_zone(3).map(|b| b.hi), Some(152_000));
    assert!(z.get_zone(0).is_none());
    assert!(z.get_zone(7).is_none());
}

#[test]
fn power_zone_table_matches_the_ftp_fractions() {
    let z = calculate_power_zones(250_000);
    assert_eq!(z.z1.hi, 137_500);
    assert_eq!(z.z2.lo, 140_000);
    assert_eq!(z.z4.hi, 262_500);
    assert_eq!(z.z6.lo, 302_500);
    assert_eq!(z.zone_for_power(100_000), 1);
    assert_eq!(z.zone_for_power(250_000), 4);
    assert_eq!(z.zone_for_power(400_000), 6);
}

#[test]
fn target_hr_interpolates_the_reserve() {
    let mut a = generate_athlete_profile(1);
    a.resting_hr = 50_000;
    a.max_hr = 190_000;
    assert_eq!(a.target_hr_percent(0), 50_000);
    assert_eq!(a.target_hr_percent(1000), 190_000);
    assert_eq!(a.target_hr_percent(500), 120_000);
}

#[test]
fn variant_labels_are_stable() {
    assert_eq!(Gender::Male.as_str(), "male");
    assert_eq!(Gender::Female.as_str(), "female");
    assert_eq!(Specialization::SwimStrong.as_str(), "swim_strong");
    assert_eq!(Specialization::Balanced.as_str(), "balanced");
    assert_eq!(Chronotype::Lark.as_str(), "lark");
    assert_eq!(SensorProfile::Garmin.as_str(), "garmin");
    assert_eq!(RecoveryProfile::HrvDominant.as_str(), "hrv_dominant");
    assert_eq!(LifestyleKind::BalancedCompetitor.as_str(), "Balanced Competitor");
    assert_eq!(Sport::Swim.as_str(), "swim");
    assert_eq!(TrainingPhase::RacePrep.as_str(), "race_prep");
    assert_eq!(TrainingPhase::OffSeason.as_str(), "off_season");
    assert_eq!(InjuryType::Physiological.as_str(), "physiological");
}

#[test]
fn cycle_phases_band_the_cycle_day() {
    let a = generate_athlete_profile_with_config(
        9,
        &AthleteConfig { female_probability: 1_000_000, ..AthleteConfig::default() },
    );
    let mut cycle = a.menstrual_cycle_config.expect("female profile");
    cycle.cycle_length = 28;
    assert_eq!(get_cycle_phase(0, &cycle), CyclePhase::Menstrual);
    assert_eq!(get_cycle_phase(4, &cycle), CyclePhase::Menstrual);
    assert_eq!(get_cycle_phase(5, &cycle), CyclePhase::Follicular);
    assert_eq!(get_cycle_phase(13, &cycle), CyclePhase::Follicular);
    assert_eq!(get_cycle_phase(14, &cycle), CyclePhase::Ovulatory);
    assert_eq!(get_cycle_phase(17, &cycle), CyclePhase::Luteal);
    assert_eq!(get_cycle_phase(28, &cycle), CyclePhase::Menstrual);
}

#[test]
fn phase_modifier_table_is_fixed() {
    let m = get_phase_modifiers(CyclePhase::Menstrual);
    assert_eq!((m.energy, m.recovery, m.hrv, m.injury_risk), (900, 950, 950, 1100));
    let o = get_phase_modifiers(CyclePhase::Ovulatory);
    assert_eq!(o.injury_risk, 1050);
}

/// The default sampling configuration in milli-units.
#[test]
fn default_athlete_config_values() {
    let c = AthleteConfig::default();
    assert_eq!(c.min_age, 18);
    assert_eq!(c.max_age, 55);
    assert_eq!(c.min_weekly_hours, 5000);
    assert_eq!(c.max_weekly_hours, 25_000);
    assert_eq!(c.female_probability, 350_000);
}
