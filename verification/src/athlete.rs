//! Athlete profiles: identity, physiology, training background and
//! lifestyle, as fixed-point integers (milli-units unless noted).

use vstd::prelude::*;
use crate::config::{AthleteConfig, athlete_config_wf};
use crate::rng::{RandomSource, sw_below, sw_range, sw_noise};
use crate::util::{clamp, clamp_u64, clamp_i64, scale_milli, scale_milli_i64, lemma_mul_bounds};

verus! {

/// Gender of the athlete.
#[derive(Debug, Clone, Copy, PartialEq, Eq, Structural)]
pub enum Gender {
    Male,
    Female,
}

impl Gender {
    /// Lower-case label of the variant.
    pub fn as_str(&self) -> (r: &'static str)
        ensures
            r@ == (match *self {
                Gender::Male => "male"@,
                Gender::Female => "female"@,
            }),
    {
        match self {
            Gender::Male => "male",
            Gender::Female => "female",
        }
    }
}

/// Athletic specialization in triathlon.
#[derive(Debug, Clone, Copy, PartialEq, Eq, Structural)]
pub enum Specialization {
    SwimStrong,
    BikeStrong,
    RunStrong,
    Balanced,
}

impl Specialization {
    /// Snake-case label of the variant.
    pub fn as_str(&self) -> (r: &'static str)
        ensures
            r@ == (match *self {
                Specialization::SwimStrong => "swim_strong"@,
                Specialization::BikeStrong => "bike_strong"@,
                Specialization::RunStrong => "run_strong"@,
                Specialization::Balanced => "balanced"@,
            }),
    {
        match self {
            Specialization::SwimStrong => "swim_strong",
            Specialization::BikeStrong => "bike_strong",
            Specialization::RunStrong => "run_strong",
            Specialization::Balanced => "balanced",
        }
    }
}

/// Chronotype (sleep preference).
#[derive(Debug, Clone, Copy, PartialEq, Eq, Structural)]
pub enum Chronotype {
    Lark,
    Owl,
    Intermediate,
}

impl Chronotype {
    /// Lower-case label of the variant.
    pub fn as_str(&self) -> (r: &'static str)
        ensures
            r@ == (match *self {
                Chronotype::Lark => "lark"@,
                Chronotype::Owl => "owl"@,
                Chronotype::Intermediate => "intermediate"@,
            }),
    {
        match self {
            Chronotype::Lark => "lark",
            Chronotype::Owl => "owl",
            Chronotype::Intermediate => "intermediate",
        }
    }
}

/// Sensor device profile.
#[derive(Debug, Clone, Copy, PartialEq, Eq, Structural)]
pub enum SensorProfile {
    Garmin,
    Optical,
}

impl SensorProfile {
    /// Lower-case label of the variant.
    pub fn as_str(&self) -> (r: &'static str)
        ensures
            r@ == (match *self {
                SensorProfile::Garmin => "garmin"@,
                SensorProfile::Optical => "optical"@,
            }),
    {
        match self {
            SensorProfile::Garmin => "garmin",
            SensorProfile::Optical => "optical",
        }
    }
}

/// Recovery profile type: which signal dominates the athlete's recovery.
#[derive(Debug, Clone, Copy, PartialEq, Eq, Structural)]
pub enum RecoveryProfile {
    HrvDominant,
    SleepDominant,
    RhrDominant,
    StressDominant,
    Balanced,
}

impl RecoveryProfile {
    /// Snake-case label of the variant.
    pub fn as_str(&self) -> (r: &'static str)
        ensures
            r@ == (match *self {
                RecoveryProfile::HrvDominant => "hrv_dominant"@,
                RecoveryProfile::SleepDominant => "sleep_dominant"@,
                RecoveryProfile::RhrDominant => "rhr_dominant"@,
                RecoveryProfile::StressDominant => "stress_dominant"@,
                RecoveryProfile::Balanced => "balanced"@,
            }),
    {
        match self {
            RecoveryProfile::HrvDominant => "hrv_dominant",
            RecoveryProfile::SleepDominant => "sleep_dominant",
            RecoveryProfile::RhrDominant => "rhr_dominant",
            RecoveryProfile::StressDominant => "stress_dominant",
            RecoveryProfile::Balanced => "balanced",
        }
    }
}

/// A closed interval of milli-unit values.
#[derive(Debug, Clone, Copy, PartialEq, Eq, Structural)]
pub struct Band {
    /// Lower bound.
    pub lo: u64,
    /// Upper bound.
    pub hi: u64,
}

/// Heart rate zone boundaries, in milli-BPM.
#[derive(Debug, Clone, Copy, PartialEq, Eq, Structural)]
pub struct HeartRateZones {
    /// Recovery.
    pub z1: Band,
    /// Endurance.
    pub z2: Band,
    /// Tempo.
    pub z3: Band,
    /// Threshold.
    pub z4: Band,
    /// VO2 max.
    pub z5: Band,
    /// Anaerobic.
    pub z6: Band,
}

impl HeartRateZones {
    /// The bounds of zone `zone` (1-6), or `None` outside that range.
    pub fn get_zone(&self, zone: u8) -> (r: Option<Band>)
        ensures
            zone == 1 ==> r == Some(self.z1),
            zone == 2 ==> r == Some(self.z2),
            zone == 3 ==> r == Some(self.z3),
            zone == 4 ==> r == Some(self.z4),
            zone == 5 ==> r == Some(self.z5),
            zone == 6 ==> r == Some(self.z6),
            (zone == 0 || zone > 6) ==> r is None,
    {
        match zone {
            1 => Some(self.z1),
            2 => Some(self.z2),
            3 => Some(self.z3),
            4 => Some(self.z4),
            5 => Some(self.z5),
            6 => Some(self.z6),
            _ => None,
        }
    }

    /// The first zone whose upper bound is at least `hr` (zone 6 above all).
    pub fn zone_for_hr(&self, hr: u64) -> (r: u8)
        ensures
            r == spec_zone_for(hr, self.z1.hi, self.z2.hi, self.z3.hi, self.z4.hi, self.z5.hi),
    {
        if hr <= self.z1.hi { 1 }
        else if hr <= self.z2.hi { 2 }
        else if hr <= self.z3.hi { 3 }
        else if hr <= self.z4.hi { 4 }
        else if hr <= self.z5.hi { 5 }
        else { 6 }
    }
}

/// The zone index picked by comparing a value against five upper bounds.
pub open spec fn spec_zone_for(v: u64, u1: u64, u2: u64, u3: u64, u4: u64, u5: u64) -> u8 {
    if v <= u1 { 1u8 }
    else if v <= u2 { 2u8 }
    else if v <= u3 { 3u8 }
    else if v <= u4 { 4u8 }
    else if v <= u5 { 5u8 }
    else { 6u8 }
}

/// Power zone boundaries (lower, upper), in milli-watts.
#[derive(Debug, Clone, Copy, PartialEq, Eq, Structural)]
pub struct PowerZones {
    /// Active recovery.
    pub z1: Band,
    /// Endurance.
    pub z2: Band,
    /// Tempo.
    pub z3: Band,
    /// Threshold.
    pub z4: Band,
    /// VO2 max.
    pub z5: Band,
    /// Anaerobic capacity.
    pub z6: Band,
}

impl PowerZones {
    /// The bounds of zone `zone` (1-6), or `None` outside that range.
    pub fn get_zone(&self, zone: u8) -> (r: Option<Band>)
        ensures
            zone == 1 ==> r == Some(self.z1),
            zone == 2 ==> r == Some(self.z2),
            zone == 3 ==> r == Some(self.z3),
            zone == 4 ==> r == Some(self.z4),
            zone == 5 ==> r == Some(self.z5),
            zone == 6 ==> r == Some(self.z6),
            (zone == 0 || zone > 6) ==> r is None,
    {
        match zone {
            1 => Some(self.z1),
            2 => Some(self.z2),
            3 => Some(self.z3),
            4 => Some(self.z4),
            5 => Some(self.z5),
            6 => Some(self.z6),
            _ => None,
        }
    }

    /// The first zone whose upper bound is at least `power` (zone 6 above all).
    pub fn zone_for_power(&self, power: u64) -> (r: u8)
        ensures
            r == spec_zone_for(power, self.z1.hi, self.z2.hi, self.z3.hi, self.z4.hi, self.z5.hi),
    {
        if power <= self.z1.hi { 1 }
        else if power <= self.z2.hi { 2 }
        else if power <= self.z3.hi { 3 }
        else if power <= self.z4.hi { 4 }
        else if power <= self.z5.hi { 5 }
        else { 6 }
    }
}

/// The heart rate zones implied by the three anchors (milli-BPM).
pub open spec fn spec_hr_zones(lthr: int, resting_hr: int, max_hr: int) -> HeartRateZones {
    let u = lthr / 100;
    HeartRateZones {
        z1: Band { lo: (resting_hr / 2 * 3) as u64, hi: (u * 80) as u64 },
        z2: Band { lo: (u * 80) as u64, hi: (u * 90) as u64 },
        z3: Band { lo: (u * 90) as u64, hi: (u * 95) as u64 },
        z4: Band { lo: (u * 95) as u64, hi: (u * 102) as u64 },
        z5: Band { lo: (u * 102) as u64, hi: (u * 106) as u64 },
        z6: Band { lo: (u * 106) as u64, hi: max_hr as u64 },
    }
}

/// The power zones implied by the threshold power (milli-watts).
pub open spec fn spec_power_zones(ftp: int) -> PowerZones {
    let u = ftp / 100;
    PowerZones {
        z1: Band { lo: 0u64, hi: (u * 55) as u64 },
        z2: Band { lo: (u * 56) as u64, hi: (u * 75) as u64 },
        z3: Band { lo: (u * 76) as u64, hi: (u * 90) as u64 },
        z4: Band { lo: (u * 91) as u64, hi: (u * 105) as u64 },
        z5: Band { lo: (u * 106) as u64, hi: (u * 120) as u64 },
        z6: Band { lo: (u * 121) as u64, hi: u64::MAX },
    }
}

/// Heart rate zones from lactate-threshold, resting and max HR
/// (all milli-BPM): fixed fractions of the threshold, zone 6 up to max.
pub fn calculate_hr_zones(lthr: u64, resting_hr: u64, max_hr: u64) -> (r: HeartRateZones)
    requires
        lthr <= 1_000_000,
        resting_hr <= 1_000_000,
        max_hr <= 1_000_000,
    ensures
        r == spec_hr_zones(lthr as int, resting_hr as int, max_hr as int),
        r.z1.lo == resting_hr / 2 * 3 && r.z1.hi == lthr / 100 * 80,
        r.z2.lo == lthr / 100 * 80 && r.z2.hi == lthr / 100 * 90,
        r.z3.lo == lthr / 100 * 90 && r.z3.hi == lthr / 100 * 95,
        r.z4.lo == lthr / 100 * 95 && r.z4.hi == lthr / 100 * 102,
        r.z5.lo == lthr / 100 * 102 && r.z5.hi == lthr / 100 * 106,
        r.z6.lo == lthr / 100 * 106 && r.z6.hi == max_hr,
{
    let u = lthr / 100;
    HeartRateZones {
        z1: Band { lo: resting_hr / 2 * 3, hi: u * 80 },
        z2: Band { lo: u * 80, hi: u * 90 },
        z3: Band { lo: u * 90, hi: u * 95 },
        z4: Band { lo: u * 95, hi: u * 102 },
        z5: Band { lo: u * 102, hi: u * 106 },
        z6: Band { lo: u * 106, hi: max_hr },
    }
}

/// Power zones as fixed fractions of functional threshold power
/// (milli-watts); zone 6 is unbounded above.
pub fn calculate_power_zones(ftp: u64) -> (r: PowerZones)
    requires
        ftp <= 10_000_000,
    ensures
        r == spec_power_zones(ftp as int),
        r.z1.lo == 0 && r.z1.hi == ftp / 100 * 55,
        r.z2.lo == ftp / 100 * 56 && r.z2.hi == ftp / 100 * 75,
        r.z3.lo == ftp / 100 * 76 && r.z3.hi == ftp / 100 * 90,
        r.z4.lo == ftp / 100 * 91 && r.z4.hi == ftp / 100 * 105,
        r.z5.lo == ftp / 100 * 106 && r.z5.hi == ftp / 100 * 120,
        r.z6.lo == ftp / 100 * 121 && r.z6.hi == u64::MAX,
{
    let u = ftp / 100;
    PowerZones {
        z1: Band { lo: 0, hi: u * 55 },
        z2: Band { lo: u * 56, hi: u * 75 },
        z3: Band { lo: u * 76, hi: u * 90 },
        z4: Band { lo: u * 91, hi: u * 105 },
        z5: Band { lo: u * 106, hi: u * 120 },
        z6: Band { lo: u * 121, hi: u64::MAX },
    }
}

/// The six lifestyle templates, from most to least disciplined in the
/// population weighting.
#[derive(Debug, Clone, Copy, PartialEq, Eq, Structural)]
pub enum LifestyleKind {
    HighlyDisciplined,
    BalancedCompetitor,
    WeekendSocializer,
    SleepDeprivedWorkaholic,
    UnderRecovered,
    HealthConscious,
}

impl LifestyleKind {
    /// Human label of the template.
    pub fn as_str(&self) -> (r: &'static str)
        ensures
            r@ == (match *self {
                LifestyleKind::HighlyDisciplined => "Highly Disciplined Athlete"@,
                LifestyleKind::BalancedCompetitor => "Balanced Competitor"@,
                LifestyleKind::WeekendSocializer => "Weekend Socializer"@,
                LifestyleKind::SleepDeprivedWorkaholic => "Sleep-Deprived Workaholic"@,
                LifestyleKind::UnderRecovered => "Under-Recovered Athlete"@,
                LifestyleKind::HealthConscious => "Health-Conscious Athlete"@,
            }),
    {
        match self {
            LifestyleKind::HighlyDisciplined => "Highly Disciplined Athlete",
            LifestyleKind::BalancedCompetitor => "Balanced Competitor",
            LifestyleKind::WeekendSocializer => "Weekend Socializer",
            LifestyleKind::SleepDeprivedWorkaholic => "Sleep-Deprived Workaholic",
            LifestyleKind::UnderRecovered => "Under-Recovered Athlete",
            LifestyleKind::HealthConscious => "Health-Conscious Athlete",
        }
    }
}

/// Lifestyle profile of an athlete: all fractions in milli-units,
/// sleep hours in milli-hours.
#[derive(Debug, Clone, Copy, PartialEq, Eq, Structural)]
pub struct LifestyleProfile {
    /// The template this profile was drawn from.
    pub kind: LifestyleKind,
    /// Habitual sleep, in milli-hours.
    pub sleep_hours: u64,
    /// Habitual sleep quality (milli-fraction).
    pub sleep_quality: u64,
    /// Nutrition quality (milli-fraction).
    pub nutrition: u64,
    /// Background stress (milli-fraction).
    pub stress: u64,
    /// Smoking (milli-fraction).
    pub smoking: u64,
    /// Drinking (milli-fraction).
    pub drinking: u64,
    /// Exercise adherence (milli-fraction).
    pub exercise: u64,
}

/// Recovery sensitivity signature (milli-fractions).
#[derive(Debug, Clone, Copy, PartialEq, Eq, Structural)]
pub struct RecoverySignature {
    /// Weight of the HRV signal.
    pub hrv_sensitivity: u64,
    /// Weight of the sleep signal.
    pub sleep_sensitivity: u64,
    /// Weight of the resting-HR signal.
    pub rhr_sensitivity: u64,
    /// Weight of the stress signal.
    pub stress_sensitivity: u64,
}

/// Menstrual cycle configuration (for female athletes).
#[derive(Debug, Clone, Copy, PartialEq, Eq, Structural)]
pub struct MenstrualCycleConfig {
    /// Cycle length in days.
    pub cycle_length: u8,
    /// Regularity (milli-fraction).
    pub regularity: u64,
    /// Luteal phase length in days.
    pub luteal_phase_length: u8,
}

/// Complete athlete profile. Milli-units throughout: heart rates in
/// milli-BPM, power in milli-watts, hours in milli-hours, fractions in
/// milli-fractions.
#[derive(Debug, Clone, Copy, PartialEq, Eq)]
pub struct Athlete {
    /// Identity: the athlete's profile seed, unique per run.
    pub id: u64,
    /// Gender.
    pub gender: Gender,
    /// Age in years.
    pub age: u8,
    /// Height, in milli-cm.
    pub height_cm: u64,
    /// Weight, in milli-kg.
    pub weight_kg: u64,
    /// Genetic performance factor (milli; 1000 = average).
    pub genetic_factor: u64,
    /// HRV baseline, in milli-ms.
    pub hrv_baseline: u64,
    /// Valid HRV range, in milli-ms.
    pub hrv_range: Band,
    /// Maximal heart rate, milli-BPM.
    pub max_hr: u64,
    /// Resting heart rate, milli-BPM.
    pub resting_hr: u64,
    /// Lactate threshold heart rate, milli-BPM.
    pub lthr: u64,
    /// Heart rate zones.
    pub hr_zones: HeartRateZones,
    /// VO2 max, milli-ml/kg/min.
    pub vo2max: u64,
    /// Functional threshold power, milli-watts.
    pub ftp: u64,
    /// Power zones.
    pub power_zones: PowerZones,
    /// Critical swim speed, milli-seconds per 100 m.
    pub css: u64,
    /// Run threshold pace, milli-minutes per km.
    pub run_threshold_pace: u64,
    /// Training experience, years.
    pub training_experience: u8,
    /// Weekly training volume, milli-hours.
    pub weekly_training_hours: u64,
    /// Recovery capacity (milli; at most 1500).
    pub recovery_rate: u64,
    /// Discipline specialization.
    pub specialization: Specialization,
    /// Lifestyle profile.
    pub lifestyle: LifestyleProfile,
    /// Recovery profile type.
    pub recovery_profile: RecoveryProfile,
    /// Recovery sensitivity signature.
    pub recovery_signature: RecoverySignature,
    /// Sensor device profile.
    pub sensor_profile: SensorProfile,
    /// Chronotype.
    pub chronotype: Chronotype,
    /// Menstrual cycle configuration; present exactly for female athletes.
    pub menstrual_cycle_config: Option<MenstrualCycleConfig>,
}

/// Well-formedness of a profile: every field inside the bounds the
/// simulation arithmetic assumes.
pub open spec fn athlete_wf(a: Athlete) -> bool {
    &&& a.recovery_rate <= 1500
    &&& 1000 <= a.weekly_training_hours <= 200_000
    &&& a.weight_kg >= 30_000
    &&& a.weight_kg <= 200_000
    &&& a.resting_hr <= a.max_hr <= 300_000
    &&& a.lthr <= 300_000
    &&& a.hrv_range.lo <= a.hrv_baseline <= a.hrv_range.hi
    &&& a.hrv_range.hi <= crate::metrics::MAX_HRV_MILLI
    &&& a.hrv_range.hi <= 1_000_000
    &&& a.lifestyle.sleep_hours <= 24_000
    &&& a.lifestyle.sleep_quality <= 1000
    &&& a.lifestyle.nutrition <= 1000
    &&& a.lifestyle.stress <= 1000
    &&& a.lifestyle.smoking <= 1000
    &&& a.lifestyle.drinking <= 1000
    &&& a.lifestyle.exercise <= 1000
    &&& a.run_threshold_pace <= 100_000
    &&& a.css <= 1_000_000
    &&& a.ftp <= 10_000_000
    &&& a.vo2max <= 1_000_000
    &&& (a.gender is Female <==> a.menstrual_cycle_config is Some)
    &&& (match a.menstrual_cycle_config {
        Some(m) => 20 <= m.cycle_length <= 40,
        None => true,
    })
}

impl Athlete {
    /// Whether the athlete is female.
    pub fn is_female(&self) -> (r: bool)
        ensures
            r == (self.gender is Female),
    {
        matches!(self.gender, Gender::Female)
    }

    /// Heart rate reserve: maximal minus resting heart rate (milli-BPM).
    pub fn heart_rate_reserve(&self) -> (r: u64)
        requires
            self.resting_hr <= self.max_hr,
        ensures
            r == self.max_hr - self.resting_hr,
    {
        self.max_hr - self.resting_hr
    }

    /// Target heart rate at a milli-fraction of the reserve:
    /// `resting + (max - resting) * percent / 1000` (milli-BPM).
    pub fn target_hr_percent(&self, percent: u64) -> (r: u64)
        requires
            self.resting_hr <= self.max_hr <= 300_000,
            percent <= 1000,
        ensures
            r == self.resting_hr
                + (self.max_hr - self.resting_hr) * percent / 1000,
    {
        let reserve = self.max_hr - self.resting_hr;
        proof {
            assert(reserve * percent <= 300_000 * 1000) by (nonlinear_arith)
                requires reserve <= 300_000, percent <= 1000,
            {}
        }
        self.resting_hr + reserve * percent / 1000
    }

    /// Power-to-weight ratio, in milli-W/kg.
    pub fn power_to_weight(&self) -> (r: u64)
        requires
            self.weight_kg >= 1,
            self.ftp <= 10_000_000,
        ensures
            r == self.ftp * 1000 / (self.weight_kg as int),
    {
        self.ftp * 1000 / self.weight_kg
    }
}


/// Draws consumed by lifestyle sampling: the template roll plus seven
/// field draws.
pub const LIFESTYLE_DRAWS: u64 = 8;

/// Draws consumed by profile sampling.
pub const PROFILE_DRAWS: u64 = 33;

/// The lifestyle template selected by a weighted roll over the
/// population shares 30/25/12/12/11/10.
pub open spec fn spec_lifestyle_kind(roll: int) -> LifestyleKind {
    if roll < 300_000 {
        LifestyleKind::HighlyDisciplined
    } else if roll < 550_000 {
        LifestyleKind::BalancedCompetitor
    } else if roll < 670_000 {
        LifestyleKind::WeekendSocializer
    } else if roll < 790_000 {
        LifestyleKind::SleepDeprivedWorkaholic
    } else if roll < 900_000 {
        LifestyleKind::UnderRecovered
    } else {
        LifestyleKind::HealthConscious
    }
}

/// The lifestyle fields drawn uniformly from the template's ranges at
/// positions `base`..`base+6`: sleep hours, sleep quality, nutrition,
/// drinking, smoking, stress, exercise (sleep clamped to 5-9 hours).
pub open spec fn spec_lifestyle_fields(kind: LifestyleKind, seed: u64, base: u64) -> LifestyleProfile {
    let quality = sw_range(seed, (base + 1) as u64,
        spec_template_bound(kind, 2), spec_template_bound(kind, 3));
    let nutrition = sw_range(seed, (base + 2) as u64,
        spec_template_bound(kind, 4), spec_template_bound(kind, 5));
    let drinking = sw_range(seed, (base + 3) as u64,
        spec_template_bound(kind, 6), spec_template_bound(kind, 7));
    let smoking = sw_range(seed, (base + 4) as u64,
        spec_template_bound(kind, 8), spec_template_bound(kind, 9));
    let stress = sw_range(seed, (base + 5) as u64,
        spec_template_bound(kind, 10), spec_template_bound(kind, 11));
    let exercise = sw_range(seed, (base + 6) as u64,
        spec_template_bound(kind, 12), spec_template_bound(kind, 13));
    LifestyleProfile {
        kind,
        sleep_hours: clamp(sw_range(seed, base,
            spec_template_bound(kind, 0), spec_template_bound(kind, 1)), 5000, 9000) as u64,
        sleep_quality: quality as u64,
        nutrition: nutrition as u64,
        stress: stress as u64,
        smoking: smoking as u64,
        drinking: drinking as u64,
        exercise: exercise as u64,
    }
}

/// The template range table: bound `j` of template `kind`, where the
/// pairs (lo, hi) run sleep, quality, nutrition, drinking, smoking,
/// stress, exercise. Sleep in milli-hours, the rest milli-fractions.
pub open spec fn spec_template_bound(kind: LifestyleKind, j: int) -> u64 {
    let t: Seq<u64> = match kind {
        LifestyleKind::HighlyDisciplined => seq![
            7500u64, 9000, 900, 1000, 900, 1000, 0, 100, 0, 0, 0, 200, 900, 1000],
        LifestyleKind::BalancedCompetitor => seq![
            6500u64, 8000, 700, 900, 700, 900, 100, 200, 0, 0, 200, 400, 700, 900],
        LifestyleKind::WeekendSocializer => seq![
            6000u64, 7500, 600, 800, 600, 800, 300, 600, 0, 100, 300, 600, 600, 800],
        LifestyleKind::SleepDeprivedWorkaholic => seq![
            4500u64, 6500, 400, 700, 500, 800, 200, 400, 0, 0, 600, 900, 600, 800],
        LifestyleKind::UnderRecovered => seq![
            5000u64, 7000, 300, 600, 400, 700, 200, 400, 0, 0, 400, 800, 700, 900],
        LifestyleKind::HealthConscious => seq![
            7000u64, 8500, 800, 1000, 800, 1000, 0, 200, 0, 0, 100, 300, 800, 1000],
    };
    t[j]
}

/// The lifestyle profile drawn at positions `base`..`base+7`.
pub open spec fn spec_lifestyle_profile(seed: u64, base: u64) -> LifestyleProfile {
    spec_lifestyle_fields(
        spec_lifestyle_kind(sw_below(seed, base, 1_000_000)), seed, (base + 1) as u64)
}

/// Draw a lifestyle profile: a weighted template selection, then each
/// factor uniform within the template's range.
pub fn generate_lifestyle_factors(src: &mut RandomSource) -> (r: LifestyleProfile)
    requires
        old(src).pos + LIFESTYLE_DRAWS < u64::MAX,
    ensures
        final(src).seed == old(src).seed,
        final(src).pos == old(src).pos + LIFESTYLE_DRAWS,
        r == spec_lifestyle_profile(old(src).seed, old(src).pos),
        r.sleep_hours <= 24_000,
        r.sleep_quality <= 1000 && r.nutrition <= 1000 && r.stress <= 1000,
        r.smoking <= 1000 && r.drinking <= 1000 && r.exercise <= 1000,
{
    let roll = src.next_roll_ppm();
    let kind = if roll < 300_000 {
        LifestyleKind::HighlyDisciplined
    } else if roll < 550_000 {
        LifestyleKind::BalancedCompetitor
    } else if roll < 670_000 {
        LifestyleKind::WeekendSocializer
    } else if roll < 790_000 {
        LifestyleKind::SleepDeprivedWorkaholic
    } else if roll < 900_000 {
        LifestyleKind::UnderRecovered
    } else {
        LifestyleKind::HealthConscious
    };
    let bounds: (u64, u64, u64, u64, u64, u64, u64, u64, u64, u64, u64, u64, u64, u64) =
        match kind {
            LifestyleKind::HighlyDisciplined =>
                (7500, 9000, 900, 1000, 900, 1000, 0, 100, 0, 0, 0, 200, 900, 1000),
            LifestyleKind::BalancedCompetitor =>
                (6500, 8000, 700, 900, 700, 900, 100, 200, 0, 0, 200, 400, 700, 900),
            LifestyleKind::WeekendSocializer =>
                (6000, 7500, 600, 800, 600, 800, 300, 600, 0, 100, 300, 600, 600, 800),
            LifestyleKind::SleepDeprivedWorkaholic =>
                (4500, 6500, 400, 700, 500, 800, 200, 400, 0, 0, 600, 900, 600, 800),
            LifestyleKind::UnderRecovered =>
                (5000, 7000, 300, 600, 400, 700, 200, 400, 0, 0, 400, 800, 700, 900),
            LifestyleKind::HealthConscious =>
                (7000, 8500, 800, 1000, 800, 1000, 0, 200, 0, 0, 100, 300, 800, 1000),
        };
    let sleep_raw = src.next_range(bounds.0, bounds.1);
    let sleep_hours = clamp_u64(sleep_raw, 5000, 9000);
    let sleep_quality = src.next_range(bounds.2, bounds.3);
    let nutrition = src.next_range(bounds.4, bounds.5);
    let drinking = src.next_range(bounds.6, bounds.7);
    let smoking = src.next_range(bounds.8, bounds.9);
    let stress = src.next_range(bounds.10, bounds.11);
    let exercise = src.next_range(bounds.12, bounds.13);
    let r = LifestyleProfile {
        kind,
        sleep_hours,
        sleep_quality,
        nutrition,
        stress,
        smoking,
        drinking,
        exercise,
    };
    proof {
        assert(r == spec_lifestyle_profile(old(src).seed, old(src).pos));
    }
    r
}


/// The specialization picked by a uniform draw over the four variants.
pub open spec fn spec_specialization_of(i: int) -> Specialization {
    if i == 0 {
        Specialization::SwimStrong
    } else if i == 1 {
        Specialization::BikeStrong
    } else if i == 2 {
        Specialization::RunStrong
    } else {
        Specialization::Balanced
    }
}

/// The chronotype picked by a uniform draw over the three variants.
pub open spec fn spec_chronotype_of(i: int) -> Chronotype {
    if i == 0 {
        Chronotype::Lark
    } else if i == 1 {
        Chronotype::Owl
    } else {
        Chronotype::Intermediate
    }
}

/// The recovery profile picked by a uniform draw over the five variants.
pub open spec fn spec_recovery_profile_of(i: int) -> RecoveryProfile {
    if i == 0 {
        RecoveryProfile::HrvDominant
    } else if i == 1 {
        RecoveryProfile::SleepDominant
    } else if i == 2 {
        RecoveryProfile::RhrDominant
    } else if i == 3 {
        RecoveryProfile::StressDominant
    } else {
        RecoveryProfile::Balanced
    }
}

/// The athlete profile sampled from the profile stream for `seed`:
/// gender, age, anthropometrics, lifestyle, specialization, aerobic
/// capacity and the heart-rate, power and pace anchors derived from it,
/// each from a fixed draw position.
pub open spec fn spec_generate_athlete(seed: u64, c: AthleteConfig) -> Athlete {
    let female = sw_below(seed, 0, 1_000_000) < c.female_probability;
    let age = sw_range(seed, 1, c.min_age as u64, c.max_age as u64);
    let height = if female {
        sw_range(seed, 2, 153_000, 177_000)
    } else {
        sw_range(seed, 2, 165_000, 191_000)
    };
    let wnoise = sw_noise(seed, 3, 6000);
    let wbase: int = if female { 58_000 } else { 72_000 };
    let wfactor: int = if female { 300 } else { 400 };
    let weight = clamp(wbase + scale_milli(height - 165_000, wfactor) + wnoise, 40_000, 150_000);
    let genetic = sw_range(seed, 4, 800, 1200);
    let lifestyle = spec_lifestyle_profile(seed, 5);
    let specialization = spec_specialization_of(sw_below(seed, 13, 4));
    let expcap: int = if age >= 18 {
        if age - 17 > 30 {
            30
        } else {
            age - 17
        }
    } else {
        1
    };
    let experience = sw_range(seed, 14, 1, expcap as u64);
    let vbase: int = if female { 47_000 } else { 52_000 };
    let vraw = vbase - (age - 30) * 200 + experience * 400;
    let vo2 = clamp(scale_milli(vraw, genetic) + sw_noise(seed, 15, 3000), 30_000, 85_000);
    let weekly = sw_range(seed, 16, c.min_weekly_hours, c.max_weekly_hours);
    let pw = sw_range(seed, 17, 2500, 4500);
    let ftp = weight * pw / 1000 * genetic / 1000;
    let css = clamp(140_000 - vo2 + sw_noise(seed, 18, 5000), 65_000, 120_000);
    let resting = clamp(80_000 - vo2 / 2 + sw_noise(seed, 19, 3000), 38_000, 75_000);
    let maxhr = 208_000 - age * 700;
    let lthr = maxhr * sw_range(seed, 20, 860, 900) / 1000;
    let pace = clamp(9_000 - vo2 / 15, 3_200, 7_500);
    let rr = clamp(
        800 + lifestyle.sleep_quality / 5 + lifestyle.exercise / 5 - (age - 18) * 5
            + sw_noise(seed, 21, 100),
        500,
        1500,
    );
    let hrvb = clamp(30_000 + vo2 / 2 + rr / 10 + sw_noise(seed, 22, 5000), 20_000, 120_000);
    Athlete {
        id: seed,
        gender: if female {
            Gender::Female
        } else {
            Gender::Male
        },
        age: age as u8,
        height_cm: height as u64,
        weight_kg: weight as u64,
        genetic_factor: genetic as u64,
        hrv_baseline: hrvb as u64,
        hrv_range: Band { lo: (hrvb * 700 / 1000) as u64, hi: (hrvb * 1300 / 1000) as u64 },
        max_hr: maxhr as u64,
        resting_hr: resting as u64,
        lthr: lthr as u64,
        hr_zones: spec_hr_zones(lthr, resting, maxhr),
        vo2max: vo2 as u64,
        ftp: ftp as u64,
        power_zones: spec_power_zones(ftp),
        css: css as u64,
        run_threshold_pace: pace as u64,
        training_experience: experience as u8,
        weekly_training_hours: weekly as u64,
        recovery_rate: rr as u64,
        specialization,
        lifestyle,
        recovery_profile: spec_recovery_profile_of(sw_below(seed, 25, 5)),
        recovery_signature: RecoverySignature {
            hrv_sensitivity: sw_range(seed, 26, 800, 1200) as u64,
            sleep_sensitivity: sw_range(seed, 27, 800, 1200) as u64,
            rhr_sensitivity: sw_range(seed, 28, 800, 1200) as u64,
            stress_sensitivity: sw_range(seed, 29, 800, 1200) as u64,
        },
        sensor_profile: if sw_below(seed, 24, 2) == 0 {
            SensorProfile::Garmin
        } else {
            SensorProfile::Optical
        },
        chronotype: spec_chronotype_of(sw_below(seed, 23, 3)),
        menstrual_cycle_config: if female {
            Some(MenstrualCycleConfig {
                cycle_length: sw_range(seed, 30, 26, 32) as u8,
                regularity: sw_range(seed, 31, 700, 1000) as u64,
                luteal_phase_length: sw_range(seed, 32, 12, 16) as u8,
            })
        } else {
            None
        },
    }
}

/// Sample a complete athlete profile from `seed` with explicit ranges.
/// Deterministic: the same seed and configuration give the same profile
/// in every run; the profile's identity is its seed.
#[verifier::rlimit(100)]
pub fn generate_athlete_profile_with_config(seed: u64, config: &AthleteConfig) -> (r: Athlete)
    requires
        athlete_config_wf(*config),
    ensures
        r == spec_generate_athlete(seed, *config),
        athlete_wf(r),
        r.id == seed,
{
    let mut src = RandomSource::new(seed);
    let gender_roll = src.next_roll_ppm();
    let female = gender_roll < config.female_probability;
    let age = src.next_range(config.min_age as u64, config.max_age as u64);
    let height = if female {
        src.next_range(153_000, 177_000)
    } else {
        src.next_range(165_000, 191_000)
    };
    let wnoise = src.next_noise(6000);
    let wbase: i64 = if female { 58_000 } else { 72_000 };
    let wfactor: u64 = if female { 300 } else { 400 };
    let weight = clamp_i64(
        wbase + scale_milli_i64(height as i64 - 165_000, wfactor) + wnoise,
        40_000,
        150_000,
    ) as u64;
    let genetic = src.next_range(800, 1200);
    let lifestyle = generate_lifestyle_factors(&mut src);
    let spec_roll = src.next_below(4);
    let specialization = if spec_roll == 0 {
        Specialization::SwimStrong
    } else if spec_roll == 1 {
        Specialization::BikeStrong
    } else if spec_roll == 2 {
        Specialization::RunStrong
    } else {
        Specialization::Balanced
    };
    let expcap: u64 = if age >= 18 {
        if age - 17 > 30 {
            30
        } else {
            age - 17
        }
    } else {
        1
    };
    let experience = src.next_range(1, expcap);
    let vbase: i64 = if female { 47_000 } else { 52_000 };
    let vraw = vbase - (age as i64 - 30) * 200 + (experience as i64) * 400;
    let vnoise = src.next_noise(3000);
    let vo2 = clamp_i64(scale_milli_i64(vraw, genetic) + vnoise, 30_000, 85_000) as u64;
    let weekly = src.next_range(config.min_weekly_hours, config.max_weekly_hours);
    let pw = src.next_range(2500, 4500);
    proof {
        lemma_mul_bounds(weight as int, pw as int, 150_000, 4500);
        lemma_mul_bounds((weight * pw / 1000) as int, genetic as int, 675_000, 1200);
    }
    let ftp = weight * pw / 1000 * genetic / 1000;
    let cssnoise = src.next_noise(5000);
    let css = clamp_i64(140_000 - vo2 as i64 + cssnoise, 65_000, 120_000) as u64;
    let rnoise = src.next_noise(3000);
    let resting = clamp_i64(80_000 - (vo2 / 2) as i64 + rnoise, 38_000, 75_000) as u64;
    let maxhr = 208_000 - age * 700;
    let lfrac = src.next_range(860, 900);
    proof {
        lemma_mul_bounds(maxhr as int, lfrac as int, 208_000, 900);
    }
    let lthr = maxhr * lfrac / 1000;
    let pace = clamp_u64(9_000 - vo2 / 15, 3_200, 7_500);
    let rrnoise = src.next_noise(100);
    let rr = clamp_i64(
        800 + (lifestyle.sleep_quality / 5) as i64 + (lifestyle.exercise / 5) as i64
            - (age as i64 - 18) * 5 + rrnoise,
        500,
        1500,
    ) as u64;
    let hnoise = src.next_noise(5000);
    let hrvb = clamp_i64(
        30_000 + (vo2 / 2) as i64 + (rr / 10) as i64 + hnoise,
        20_000,
        120_000,
    ) as u64;
    proof {
        assert(hrvb * 700 <= hrvb * 1000) by (nonlinear_arith)
            requires 0 <= hrvb,
        {}
        assert(hrvb * 1000 <= hrvb * 1300) by (nonlinear_arith)
            requires 0 <= hrvb,
        {}
        assert(hrvb * 1000 == 1000 * (hrvb as int)) by (nonlinear_arith);
        vstd::arithmetic::div_mod::lemma_div_is_ordered(
            (hrvb * 700) as int, (hrvb * 1000) as int, 1000);
        vstd::arithmetic::div_mod::lemma_div_is_ordered(
            (hrvb * 1000) as int, (hrvb * 1300) as int, 1000);
        vstd::arithmetic::div_mod::lemma_div_multiples_vanish(hrvb as int, 1000);
    }
    let hrv_lo = hrvb * 700 / 1000;
    let hrv_hi = hrvb * 1300 / 1000;
    let chrono_roll = src.next_below(3);
    let chronotype = if chrono_roll == 0 {
        Chronotype::Lark
    } else if chrono_roll == 1 {
        Chronotype::Owl
    } else {
        Chronotype::Intermediate
    };
    let sensor_roll = src.next_below(2);
    let sensor_profile = if sensor_roll == 0 {
        SensorProfile::Garmin
    } else {
        SensorProfile::Optical
    };
    let rp_roll = src.next_below(5);
    let recovery_profile = if rp_roll == 0 {
        RecoveryProfile::HrvDominant
    } else if rp_roll == 1 {
        RecoveryProfile::SleepDominant
    } else if rp_roll == 2 {
        RecoveryProfile::RhrDominant
    } else if rp_roll == 3 {
        RecoveryProfile::StressDominant
    } else {
        RecoveryProfile::Balanced
    };
    let recovery_signature = RecoverySignature {
        hrv_sensitivity: src.next_range(800, 1200),
        sleep_sensitivity: src.next_range(800, 1200),
        rhr_sensitivity: src.next_range(800, 1200),
        stress_sensitivity: src.next_range(800, 1200),
    };
    let cycle_length = src.next_range(26, 32);
    let regularity = src.next_range(700, 1000);
    let luteal = src.next_range(12, 16);
    let menstrual_cycle_config = if female {
        Some(MenstrualCycleConfig {
            cycle_length: cycle_length as u8,
            regularity,
            luteal_phase_length: luteal as u8,
        })
    } else {
        None
    };
    let r = Athlete {
        id: seed,
        gender: if female { Gender::Female } else { Gender::Male },
        age: age as u8,
        height_cm: height,
        weight_kg: weight,
        genetic_factor: genetic,
        hrv_baseline: hrvb,
        hrv_range: Band { lo: hrv_lo, hi: hrv_hi },
        max_hr: maxhr,
        resting_hr: resting,
        lthr,
        hr_zones: calculate_hr_zones(lthr, resting, maxhr),
        vo2max: vo2,
        ftp,
        power_zones: calculate_power_zones(ftp),
        css,
        run_threshold_pace: pace,
        training_experience: experience as u8,
        weekly_training_hours: weekly,
        recovery_rate: rr,
        specialization,
        lifestyle,
        recovery_profile,
        recovery_signature,
        sensor_profile,
        chronotype,
        menstrual_cycle_config,
    };
    proof {
        assert(r == spec_generate_athlete(seed, *config));
    }
    r
}

/// Sample a complete athlete profile with the default ranges.
pub fn generate_athlete_profile(seed: u64) -> (r: Athlete)
    ensures
        r == spec_generate_athlete(seed, crate::config::spec_default_athlete_config()),
        athlete_wf(r),
        r.id == seed,
{
    generate_athlete_profile_with_config(seed, &AthleteConfig::default())
}

} // verus!
