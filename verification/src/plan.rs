//! Periodized annual training plan: race calendar, per-day phase,
//! target load and workout specifications. Generation is a pure
//! function of (athlete, year, seed); every random draw sits at a fixed
//! position of the plan's ChaCha8 stream, so the contracts pin the
//! whole plan.

use vstd::prelude::*;
use crate::athlete::{Athlete, Specialization, athlete_wf};
use crate::calendar::{
    spec_days_in_year, spec_month_of_ordinal, spec_month_start, spec_weekday_of,
    spec_iso_week_of, days_in_year, month_day_of_ordinal, weekday_of, iso_week_of,
    month_start, lemma_month_start_monotonic, lemma_month_start_full_year,
};
use crate::rng::{RandomSource, sw_below, sw_range, sw_noise};
use crate::util::{clamp, clamp_u64, lemma_mul_bounds};

verus! {

/// Training phase in periodization.
#[derive(Debug, Clone, Copy, PartialEq, Eq, Structural)]
pub enum TrainingPhase {
    Base,
    Build,
    Peak,
    RacePrep,
    Race,
    Taper,
    Recovery,
    OffSeason,
    Transition,
}

impl TrainingPhase {
    /// Snake-case label of the variant.
    pub fn as_str(&self) -> (r: &'static str)
        ensures
            r@ == (match *self {
                TrainingPhase::Base => "base"@,
                TrainingPhase::Build => "build"@,
                TrainingPhase::Peak => "peak"@,
                TrainingPhase::RacePrep => "race_prep"@,
                TrainingPhase::Race => "race"@,
                TrainingPhase::Taper => "taper"@,
                TrainingPhase::Recovery => "recovery"@,
                TrainingPhase::OffSeason => "off_season"@,
                TrainingPhase::Transition => "transition"@,
            }),
    {
        match self {
            TrainingPhase::Base => "base",
            TrainingPhase::Build => "build",
            TrainingPhase::Peak => "peak",
            TrainingPhase::RacePrep => "race_prep",
            TrainingPhase::Race => "race",
            TrainingPhase::Taper => "taper",
            TrainingPhase::Recovery => "recovery",
            TrainingPhase::OffSeason => "off_season",
            TrainingPhase::Transition => "transition",
        }
    }
}

/// Sport (discipline) of a workout.
#[derive(Debug, Clone, Copy, PartialEq, Eq, Structural)]
pub enum Sport {
    Swim,
    Bike,
    Run,
    Strength,
}

impl Sport {
    /// Lower-case label of the variant.
    pub fn as_str(&self) -> (r: &'static str)
        ensures
            r@ == (match *self {
                Sport::Swim => "swim"@,
                Sport::Bike => "bike"@,
                Sport::Run => "run"@,
                Sport::Strength => "strength"@,
            }),
    {
        match self {
            Sport::Swim => "swim",
            Sport::Bike => "bike",
            Sport::Run => "run",
            Sport::Strength => "strength",
        }
    }
}

/// Workout specification: duration in milli-minutes, load rate in
/// milli-TSS per hour, intensity factor in milli-units.
#[derive(Debug, Clone, PartialEq, Eq)]
pub struct WorkoutSpec {
    /// Discipline.
    pub sport: Sport,
    /// Duration, milli-minutes.
    pub duration_minutes: u64,
    /// Implied load per hour, milli-TSS/h.
    pub tss_per_hour: u64,
    /// Intensity factor, milli-units.
    pub intensity_factor: u64,
}

/// One planned calendar day. Immutable once generated.
#[derive(Debug, Clone, PartialEq, Eq)]
pub struct TrainingDay {
    /// Zero-based day-of-year ordinal.
    pub ordinal: u16,
    /// Month (1-12).
    pub month: u8,
    /// Day of month (1-31).
    pub day: u8,
    /// Day of week, 0 = Monday.
    pub day_of_week: u8,
    /// ISO week number.
    pub week_number: u8,
    /// Assigned training phase.
    pub phase: TrainingPhase,
    /// Aggregate target load, milli-TSS.
    pub total_tss: u64,
    /// Swim target load, milli-TSS.
    pub swim_tss: u64,
    /// Bike target load, milli-TSS.
    pub bike_tss: u64,
    /// Run target load, milli-TSS.
    pub run_tss: u64,
    /// Strength target load, milli-TSS.
    pub strength_tss: u64,
    /// Swim workout, when swim load is nonzero.
    pub swim_workout: Option<WorkoutSpec>,
    /// Bike workout, when bike load is nonzero.
    pub bike_workout: Option<WorkoutSpec>,
    /// Run workout, when run load is nonzero.
    pub run_workout: Option<WorkoutSpec>,
    /// Strength workout, when strength load is nonzero.
    pub strength_workout: Option<WorkoutSpec>,
    /// Whether the day is a rest day (zero load).
    pub is_rest_day: bool,
    /// Whether the day is a race day.
    pub is_race_day: bool,
}

/// A full-year plan: one entry per calendar day, in calendar order,
/// plus the year's race dates (as day-of-year ordinals).
#[derive(Debug, Clone, PartialEq, Eq)]
pub struct AnnualPlan {
    /// The simulated year.
    pub year: i32,
    /// One `TrainingDay` per calendar day, in order.
    pub days: Vec<TrainingDay>,
    /// Race dates, as zero-based ordinals.
    pub race_dates: Vec<u16>,
}

impl AnnualPlan {
    /// The planned day with the given ordinal, if any.
    pub fn get_day(&self, ordinal: u16) -> (r: Option<&TrainingDay>)
        ensures
            (match r {
                Some(td) => self.days@.contains(*td) && td.ordinal == ordinal,
                None => forall|j: int|
                    0 <= j < self.days@.len() ==> self.days@[j].ordinal != ordinal,
            }),
    {
        let mut i: usize = 0;
        while i < self.days.len()
            invariant
                i <= self.days@.len(),
                forall|j: int| 0 <= j < i ==> self.days@[j].ordinal != ordinal,
            decreases self.days@.len() - i,
        {
            if self.days[i].ordinal == ordinal {
                return Some(&self.days[i]);
            }
            i = i + 1;
        }
        None
    }
}

/// Draws consumed by the race calendar before the per-day draws start.
pub const RACE_HEADER_DRAWS: u64 = 9;

/// Draws consumed per planned day.
pub const PLAN_DAY_DRAWS: u64 = 11;

/// Stream position of draw `k` of day `i` of the plan stream.
pub open spec fn plan_day_pos(i: int, k: int) -> u64 {
    (RACE_HEADER_DRAWS + PLAN_DAY_DRAWS * i + k) as u64
}

/// Number of races drawn for the year: uniform in 2..=4.
pub open spec fn spec_race_count(seed: u64) -> int {
    2 + sw_below(seed, 0, 3)
}

/// Candidate race ordinal `k` (0-3): a month drawn from the race season
/// May-September and a day of month drawn from 1..=28.
pub open spec fn spec_race_candidate(year: i32, seed: u64, k: int) -> int {
    let month = 5 + sw_below(seed, (1 + 2 * k) as u64, 5);
    let day = 1 + sw_below(seed, (2 + 2 * k) as u64, 28);
    spec_month_start(year, month) + day - 1
}

/// The first `k` race candidates with duplicate dates dropped (fewer
/// races than drawn is an accepted outcome).
pub open spec fn spec_race_list(year: i32, seed: u64, k: int) -> Seq<u16>
    decreases k,
{
    if k <= 0 {
        Seq::empty()
    } else {
        let prev = spec_race_list(year, seed, k - 1);
        let c = spec_race_candidate(year, seed, k - 1) as u16;
        if prev.contains(c) {
            prev
        } else {
            prev.push(c)
        }
    }
}

/// The year's race dates.
pub open spec fn spec_race_dates(year: i32, seed: u64) -> Seq<u16> {
    spec_race_list(year, seed, spec_race_count(seed))
}

/// Days from ordinal `d` to the next race at or after `d`, if any.
pub open spec fn spec_days_to_next_race(d: int, races: Seq<u16>) -> Option<int>
    decreases races.len(),
{
    if races.len() == 0 {
        None
    } else {
        let rest = spec_days_to_next_race(d, races.drop_last());
        let x = races.last() as int;
        if x >= d {
            match rest {
                None => Some(x - d),
                Some(m) => if x - d < m {
                    Some(x - d)
                } else {
                    Some(m)
                },
            }
        } else {
            rest
        }
    }
}

/// Month-based fallback classification for days with no race within the
/// banded horizon: December/January off-season, February/March base,
/// October/November recovery, and every other month the Build default.
pub open spec fn spec_month_fallback(month: int) -> TrainingPhase {
    if month == 12 || month == 1 {
        TrainingPhase::OffSeason
    } else if month == 2 || month == 3 {
        TrainingPhase::Base
    } else if month == 10 || month == 11 {
        TrainingPhase::Recovery
    } else {
        TrainingPhase::Build
    }
}

/// Phase from days-to-next-race, in contiguous non-overlapping bands:
/// 0 race day, 1-3 race preparation, 4-14 taper, 15-42 peak, 43-84
/// build; beyond 84 days, or with no future race, the month fallback.
pub open spec fn spec_phase_for(days_to: Option<int>, month: int) -> TrainingPhase {
    match days_to {
        Some(d) => if d == 0 {
            TrainingPhase::Race
        } else if d <= 3 {
            TrainingPhase::RacePrep
        } else if d <= 14 {
            TrainingPhase::Taper
        } else if d <= 42 {
            TrainingPhase::Peak
        } else if d <= 84 {
            TrainingPhase::Build
        } else {
            spec_month_fallback(month)
        },
        None => spec_month_fallback(month),
    }
}

/// The phase of ordinal `d` given the race calendar.
pub open spec fn spec_determine_phase(year: i32, d: int, races: Seq<u16>) -> TrainingPhase {
    spec_phase_for(spec_days_to_next_race(d, races), spec_month_of_ordinal(year, d))
}

/// Load multiplier of a phase (milli). Race days train at zero.
pub open spec fn spec_phase_mult(phase: TrainingPhase) -> int {
    match phase {
        TrainingPhase::Base => 850,
        TrainingPhase::Build => 1000,
        TrainingPhase::Peak => 1100,
        TrainingPhase::Taper => 500,
        TrainingPhase::RacePrep => 300,
        TrainingPhase::Race => 0,
        TrainingPhase::Recovery => 400,
        TrainingPhase::OffSeason => 300,
        TrainingPhase::Transition => 600,
    }
}

/// Share of the weekly load placed on each weekday (milli), higher on
/// the weekend, with Monday the designated recovery day.
pub open spec fn spec_day_mult(dow: int) -> int {
    if dow == 0 {
        150
    } else if dow == 1 {
        140
    } else if dow == 2 {
        160
    } else if dow == 3 {
        120
    } else if dow == 4 {
        130
    } else if dow == 5 {
        160
    } else {
        140
    }
}

/// Whether the day is a rest day: the designated rest weekday (Monday),
/// or independently with probability 0.1.
pub open spec fn spec_is_rest(dow: int, rest_roll: int) -> bool {
    dow == 0 || rest_roll < 100_000
}

/// Aggregate target load of a non-rest day (milli-TSS):
/// `weekly_hours x 60 TSS/h x day share x phase multiplier x jitter`.
pub open spec fn spec_total_tss(
    weekly_hours: u64,
    phase: TrainingPhase,
    dow: int,
    variation: int,
) -> int {
    let weekly = weekly_hours * 60;
    weekly * spec_day_mult(dow) / 1000 * spec_phase_mult(phase) / 1000 * variation / 1000
}

/// The four discipline shares (milli) after the specialization shift
/// and the peak/taper/race-preparation strength reduction:
/// (swim, bike, run, strength).
pub open spec fn spec_shares(spec: Specialization, phase: TrainingPhase) -> (int, int, int, int) {
    let swim0: int = if spec is SwimStrong {
        300
    } else if spec is BikeStrong || spec is RunStrong {
        225
    } else {
        250
    };
    let bike0: int = if spec is BikeStrong {
        400
    } else if spec is SwimStrong || spec is RunStrong {
        325
    } else {
        350
    };
    let run0: int = if spec is RunStrong {
        350
    } else if spec is SwimStrong || spec is BikeStrong {
        275
    } else {
        300
    };
    if phase is Peak || phase is Taper || phase is RacePrep {
        let strength = 100int / 2;
        let extra = strength / 2;
        (swim0, bike0 + extra / 2, run0 + extra / 2, strength)
    } else {
        (swim0, bike0, run0, 100)
    }
}

/// Per-discipline target loads (milli-TSS): zero on rest days and for
/// aggregate loads under 10 TSS; swim and strength are subject to
/// independent inclusion rolls; swim, bike and run get independent
/// jitter. Returns (swim, bike, run, strength).
pub open spec fn spec_distribute(
    spec: Specialization,
    total: int,
    phase: TrainingPhase,
    is_rest: bool,
    swim_var: int,
    bike_var: int,
    run_var: int,
    swim_roll: int,
    strength_roll: int,
) -> (int, int, int, int) {
    if is_rest || total < 10_000 {
        (0, 0, 0, 0)
    } else {
        let shares = spec_shares(spec, phase);
        let swim = if swim_roll < 600_000 {
            total * shares.0 / 1000 * swim_var / 1000
        } else {
            0
        };
        let bike = total * shares.1 / 1000 * bike_var / 1000;
        let run = total * shares.2 / 1000 * run_var / 1000;
        let strength = if strength_roll < 300_000 {
            total * shares.3 / 1000
        } else {
            0
        };
        (swim, bike, run, strength)
    }
}

/// Base intensity factor of a phase (milli).
pub open spec fn spec_base_if(phase: TrainingPhase) -> int {
    match phase {
        TrainingPhase::Base => 650,
        TrainingPhase::Build => 750,
        TrainingPhase::Peak => 850,
        TrainingPhase::Taper => 700,
        _ => 700,
    }
}

/// Intensity factor of a workout: phase base plus jitter (milli).
pub open spec fn spec_intensity(phase: TrainingPhase, if_noise: int) -> int {
    spec_base_if(phase) + if_noise
}

/// Duration implied by inverting `load = intensity^2 x hours x 100`,
/// in milli-hours.
pub open spec fn spec_hours_milli(tss: int, intensity: int) -> int {
    tss * 10_000 / (intensity * intensity)
}

/// Workout duration (milli-minutes), clamped to a sane range.
pub open spec fn spec_duration_minutes(tss: int, intensity: int) -> int {
    clamp(spec_hours_milli(tss, intensity) * 60, 20_000, 300_000)
}

/// Load rate (milli-TSS per hour), with a 50 TSS/h fallback for
/// degenerate durations.
pub open spec fn spec_tss_per_hour(tss: int, intensity: int) -> int {
    let hours = spec_hours_milli(tss, intensity);
    if hours > 0 {
        tss * 1000 / hours
    } else {
        50_000
    }
}

/// The discipline/phase label table.
pub open spec fn spec_workout_name(sport: Sport, phase: TrainingPhase) -> Seq<char> {
    match sport {
        Sport::Swim => if phase is Base {
            "Endurance Swim"@
        } else if phase is Build {
            "Threshold Swim"@
        } else {
            "Swim Session"@
        },
        Sport::Bike => if phase is Base {
            "Endurance Ride"@
        } else if phase is Build {
            "Tempo Ride"@
        } else if phase is Peak {
            "Interval Ride"@
        } else {
            "Bike Session"@
        },
        Sport::Run => if phase is Base {
            "Easy Run"@
        } else if phase is Build {
            "Tempo Run"@
        } else if phase is Peak {
            "Interval Run"@
        } else {
            "Run Session"@
        },
        Sport::Strength => "Strength Training"@,
    }
}

/// The workout specification the model assigns for these inputs.
pub open spec fn spec_workout(
    sport: Sport,
    tss: int,
    phase: TrainingPhase,
    if_noise: int,
) -> WorkoutSpec {
    let ifm = spec_intensity(phase, if_noise);
    WorkoutSpec {
        sport,
        duration_minutes: spec_duration_minutes(tss, ifm) as u64,
        tss_per_hour: spec_tss_per_hour(tss, ifm) as u64,
        intensity_factor: ifm as u64,
    }
}

/// The training day the model assigns to day `i` of the plan stream.
pub open spec fn spec_plan_day(
    a: Athlete,
    year: i32,
    seed: u64,
    races: Seq<u16>,
    i: int,
) -> TrainingDay {
    let rest_roll = sw_below(seed, plan_day_pos(i, 0), 1_000_000);
    let variation = sw_range(seed, plan_day_pos(i, 1), 800, 1200);
    let swim_var = sw_range(seed, plan_day_pos(i, 2), 800, 1200);
    let bike_var = sw_range(seed, plan_day_pos(i, 3), 800, 1200);
    let run_var = sw_range(seed, plan_day_pos(i, 4), 800, 1200);
    let swim_roll = sw_below(seed, plan_day_pos(i, 5), 1_000_000);
    let strength_roll = sw_below(seed, plan_day_pos(i, 6), 1_000_000);
    let swim_ifn = sw_noise(seed, plan_day_pos(i, 7), 50);
    let bike_ifn = sw_noise(seed, plan_day_pos(i, 8), 50);
    let run_ifn = sw_noise(seed, plan_day_pos(i, 9), 50);
    let strength_ifn = sw_noise(seed, plan_day_pos(i, 10), 50);
    let dow = spec_weekday_of(year, i);
    let phase = spec_determine_phase(year, i, races);
    let rest = spec_is_rest(dow, rest_roll);
    let total = if rest {
        0int
    } else {
        spec_total_tss(a.weekly_training_hours, phase, dow, variation)
    };
    let split = spec_distribute(
        a.specialization, total, phase, rest, swim_var, bike_var, run_var,
        swim_roll, strength_roll);
    let month = spec_month_of_ordinal(year, i);
    TrainingDay {
        ordinal: i as u16,
        month: month as u8,
        day: (i - spec_month_start(year, month) + 1) as u8,
        day_of_week: dow as u8,
        week_number: spec_iso_week_of(year, i) as u8,
        phase,
        total_tss: total as u64,
        swim_tss: split.0 as u64,
        bike_tss: split.1 as u64,
        run_tss: split.2 as u64,
        strength_tss: split.3 as u64,
        swim_workout: if split.0 > 0 {
            Some(spec_workout(Sport::Swim, split.0, phase, swim_ifn))
        } else {
            None
        },
        bike_workout: if split.1 > 0 {
            Some(spec_workout(Sport::Bike, split.1, phase, bike_ifn))
        } else {
            None
        },
        run_workout: if split.2 > 0 {
            Some(spec_workout(Sport::Run, split.2, phase, run_ifn))
        } else {
            None
        },
        strength_workout: if split.3 > 0 {
            Some(spec_workout(Sport::Strength, split.3, phase, strength_ifn))
        } else {
            None
        },
        is_rest_day: rest,
        is_race_day: races.contains(i as u16),
    }
}

/// Structural facts every generated day satisfies: bounded loads, a
/// workout exactly for each discipline with nonzero load, zero load in
/// every discipline on rest days, and phase `Race` on race days.
pub open spec fn day_props(td: TrainingDay) -> bool {
    &&& td.total_tss <= 3_000_000
    &&& td.swim_tss <= 3_000_000
    &&& td.bike_tss <= 3_000_000
    &&& td.run_tss <= 3_000_000
    &&& td.strength_tss <= 3_000_000
    &&& (td.swim_workout is Some <==> td.swim_tss > 0)
    &&& (td.bike_workout is Some <==> td.bike_tss > 0)
    &&& (td.run_workout is Some <==> td.run_tss > 0)
    &&& (td.strength_workout is Some <==> td.strength_tss > 0)
    &&& (match td.swim_workout {
        Some(w) => 600 <= w.intensity_factor <= 900
            && 20_000 <= w.duration_minutes <= 300_000,
        None => true,
    })
    &&& (match td.bike_workout {
        Some(w) => 600 <= w.intensity_factor <= 900
            && 20_000 <= w.duration_minutes <= 300_000,
        None => true,
    })
    &&& (match td.run_workout {
        Some(w) => 600 <= w.intensity_factor <= 900
            && 20_000 <= w.duration_minutes <= 300_000,
        None => true,
    })
    &&& (match td.strength_workout {
        Some(w) => 600 <= w.intensity_factor <= 900
            && 20_000 <= w.duration_minutes <= 300_000,
        None => true,
    })
    &&& (td.is_rest_day ==> td.total_tss == 0 && td.swim_tss == 0 && td.bike_tss == 0
        && td.run_tss == 0 && td.strength_tss == 0)
    &&& (td.is_race_day ==> td.phase is Race)
}

/// A whole plan matching the model.
pub open spec fn plan_ok(p: AnnualPlan, a: Athlete, year: i32, seed: u64) -> bool {
    &&& p.year == year
    &&& p.race_dates@ == spec_race_dates(year, seed)
    &&& p.days@.len() == spec_days_in_year(year)
    &&& forall|i: int| 0 <= i < p.days@.len()
        ==> #[trigger] p.days@[i] == spec_plan_day(a, year, seed, p.race_dates@, i)
    &&& forall|i: int| 0 <= i < p.days@.len() ==> day_props(#[trigger] p.days@[i])
}

/// Whether `v` contains `x`.
fn contains_u16(v: &Vec<u16>, x: u16) -> (r: bool)
    ensures
        r == v@.contains(x),
{
    let mut i: usize = 0;
    while i < v.len()
        invariant
            i <= v@.len(),
            forall|j: int| 0 <= j < i ==> v@[j] != x,
        decreases v@.len() - i,
    {
        if v[i] == x {
            return true;
        }
        i = i + 1;
    }
    false
}

/// Draw the race calendar: 2-4 candidate dates in the May-September
/// race season, duplicates dropped. Always consumes the full race
/// header of the stream.
fn generate_race_dates(src: &mut RandomSource, year: i32) -> (r: Vec<u16>)
    requires
        2 <= year <= 9999,
        old(src).pos == 0,
    ensures
        r@ == spec_race_dates(year, old(src).seed),
        final(src).seed == old(src).seed,
        final(src).pos == RACE_HEADER_DRAWS,
        forall|j: int| 0 <= j < r@.len() ==> #[trigger] r@[j] < spec_days_in_year(year),
    decreases
{
    let seed = src.seed;
    let n_races = 2 + src.next_below(3);
    let mut dates: Vec<u16> = Vec::new();
    let mut k: u64 = 0;
    while k < 4
        invariant
            k <= 4,
            2 <= year <= 9999,
            src.seed == seed,
            src.pos == 1 + 2 * k,
            n_races == spec_race_count(seed),
            2 <= n_races <= 4,
            dates@ == spec_race_list(year, seed, (if k < n_races { k } else { n_races }) as int),
            forall|j: int| 0 <= j < dates@.len()
                ==> #[trigger] dates@[j] < spec_days_in_year(year),
        decreases 4 - k,
    {
        let mi = src.next_below(5);
        let day = src.next_range(1, 28);
        let month = 5 + mi as u8;
        let start = month_start(year, month);
        proof {
            lemma_month_start_monotonic(year, month as int + 1, 13);
            lemma_month_start_full_year(year);
            assert(spec_month_start(year, month as int) + 28
                <= spec_month_start(year, month as int + 1));
        }
        let ordinal = start + day as u16 - 1;
        proof {
            assert(ordinal == spec_race_candidate(year, seed, k as int));
        }
        if k < n_races {
            if !contains_u16(&dates, ordinal) {
                dates.push(ordinal);
            }
        }
        k = k + 1;
    }
    dates
}

/// Days until the next race at or after `ordinal`, if any.
pub fn days_to_next_race(ordinal: u16, races: &Vec<u16>) -> (r: Option<u16>)
    ensures
        (match r {
            Some(d) => Some(d as int) == spec_days_to_next_race(ordinal as int, races@),
            None => spec_days_to_next_race(ordinal as int, races@) is None,
        }),
{
    let mut best: Option<u16> = None;
    let mut i: usize = 0;
    while i < races.len()
        invariant
            i <= races@.len(),
            (match best {
                Some(d) => Some(d as int)
                    == spec_days_to_next_race(ordinal as int, races@.subrange(0, i as int)),
                None => spec_days_to_next_race(ordinal as int, races@.subrange(0, i as int))
                    is None,
            }),
        decreases races@.len() - i,
    {
        proof {
            assert(races@.subrange(0, i + 1).drop_last() =~= races@.subrange(0, i as int));
        }
        let x = races[i];
        if x >= ordinal {
            let d = x - ordinal;
            best = match best {
                None => Some(d),
                Some(m) => if d < m {
                    Some(d)
                } else {
                    Some(m)
                },
            };
        }
        i = i + 1;
    }
    proof {
        assert(races@.subrange(0, races@.len() as int) =~= races@);
    }
    best
}

/// Training phase of ordinal `ordinal` given the race calendar:
/// banded by days to the next race, with the month fallback beyond the
/// 84-day horizon.
pub fn determine_phase(year: i32, ordinal: u16, races: &Vec<u16>) -> (r: TrainingPhase)
    requires
        1 <= year <= 9999,
        ordinal < spec_days_in_year(year),
    ensures
        r == spec_determine_phase(year, ordinal as int, races@),
{
    let days_to = days_to_next_race(ordinal, races);
    let (month, _day) = month_day_of_ordinal(year, ordinal);
    match days_to {
        Some(d) => {
            if d == 0 {
                TrainingPhase::Race
            } else if d <= 3 {
                TrainingPhase::RacePrep
            } else if d <= 14 {
                TrainingPhase::Taper
            } else if d <= 42 {
                TrainingPhase::Peak
            } else if d <= 84 {
                TrainingPhase::Build
            } else {
                month_fallback(month)
            }
        },
        None => month_fallback(month),
    }
}

/// The month-based fallback classification.
fn month_fallback(month: u8) -> (r: TrainingPhase)
    ensures
        r == spec_month_fallback(month as int),
{
    if month == 12 || month == 1 {
        TrainingPhase::OffSeason
    } else if month == 2 || month == 3 {
        TrainingPhase::Base
    } else if month == 10 || month == 11 {
        TrainingPhase::Recovery
    } else {
        TrainingPhase::Build
    }
}

/// Aggregate target load of the day and its rest flag, from the two
/// day-level draws.
pub fn calculate_daily_tss(
    athlete: &Athlete,
    phase: TrainingPhase,
    day_of_week: u8,
    rest_roll: u64,
    variation: u64,
) -> (r: (u64, bool))
    requires
        athlete_wf(*athlete),
        day_of_week <= 6,
        800 <= variation <= 1200,
    ensures
        r.1 == spec_is_rest(day_of_week as int, rest_roll as int),
        r.0 == (if r.1 {
            0int
        } else {
            spec_total_tss(athlete.weekly_training_hours, phase, day_of_week as int,
                variation as int)
        }),
        r.0 <= 3_000_000,
{
    let is_rest = day_of_week == 0 || rest_roll < 100_000;
    if is_rest {
        return (0, true);
    }
    let weekly = athlete.weekly_training_hours * 60;
    let dm = day_mult(day_of_week);
    let pm = phase_mult(phase);
    proof {
        lemma_mul_bounds(weekly as int, dm as int, 12_000_000, 160);
    }
    let a = weekly * dm / 1000;
    proof {
        lemma_mul_bounds(a as int, pm as int, 1_920_000, 1100);
    }
    let b = a * pm / 1000;
    proof {
        lemma_mul_bounds(b as int, variation as int, 2_112_000, 1200);
    }
    let total = b * variation / 1000;
    (total, false)
}

/// Load multiplier of a phase (milli).
fn phase_mult(phase: TrainingPhase) -> (r: u64)
    ensures
        r == spec_phase_mult(phase),
        r <= 1100,
{
    match phase {
        TrainingPhase::Base => 850,
        TrainingPhase::Build => 1000,
        TrainingPhase::Peak => 1100,
        TrainingPhase::Taper => 500,
        TrainingPhase::RacePrep => 300,
        TrainingPhase::Race => 0,
        TrainingPhase::Recovery => 400,
        TrainingPhase::OffSeason => 300,
        TrainingPhase::Transition => 600,
    }
}

/// Weekday share of the weekly load (milli).
fn day_mult(dow: u8) -> (r: u64)
    ensures
        r == spec_day_mult(dow as int),
        r <= 160,
{
    if dow == 0 {
        150
    } else if dow == 1 {
        140
    } else if dow == 2 {
        160
    } else if dow == 3 {
        120
    } else if dow == 4 {
        130
    } else if dow == 5 {
        160
    } else {
        140
    }
}

/// Split the day's aggregate load across the four disciplines.
pub fn distribute_tss(
    athlete: &Athlete,
    total_tss: u64,
    phase: TrainingPhase,
    is_rest_day: bool,
    swim_var: u64,
    bike_var: u64,
    run_var: u64,
    swim_roll: u64,
    strength_roll: u64,
) -> (r: (u64, u64, u64, u64))
    requires
        athlete_wf(*athlete),
        total_tss <= 3_000_000,
        800 <= swim_var <= 1200,
        800 <= bike_var <= 1200,
        800 <= run_var <= 1200,
    ensures
        (r.0 as int, r.1 as int, r.2 as int, r.3 as int) == spec_distribute(
            athlete.specialization, total_tss as int, phase, is_rest_day,
            swim_var as int, bike_var as int, run_var as int,
            swim_roll as int, strength_roll as int),
        r.0 <= 3_000_000 && r.1 <= 3_000_000 && r.2 <= 3_000_000 && r.3 <= 3_000_000,
{
    if is_rest_day || total_tss < 10_000 {
        return (0, 0, 0, 0);
    }
    let mut swim_pct: u64 = 250;
    let mut bike_pct: u64 = 350;
    let mut run_pct: u64 = 300;
    let mut strength_pct: u64 = 100;
    match athlete.specialization {
        Specialization::SwimStrong => {
            swim_pct = 300;
            bike_pct = 325;
            run_pct = 275;
        },
        Specialization::BikeStrong => {
            bike_pct = 400;
            swim_pct = 225;
            run_pct = 275;
        },
        Specialization::RunStrong => {
            run_pct = 350;
            swim_pct = 225;
            bike_pct = 325;
        },
        Specialization::Balanced => {},
    }
    if matches!(phase, TrainingPhase::Peak | TrainingPhase::Taper | TrainingPhase::RacePrep) {
        strength_pct = strength_pct / 2;
        let extra = strength_pct / 2;
        bike_pct = bike_pct + extra / 2;
        run_pct = run_pct + extra / 2;
    }
    proof {
        lemma_mul_bounds(total_tss as int, swim_pct as int, 3_000_000, 450);
        lemma_mul_bounds(total_tss as int, bike_pct as int, 3_000_000, 450);
        lemma_mul_bounds(total_tss as int, run_pct as int, 3_000_000, 450);
        lemma_mul_bounds((total_tss * swim_pct / 1000) as int, swim_var as int, 1_350_000, 1200);
        lemma_mul_bounds((total_tss * bike_pct / 1000) as int, bike_var as int, 1_350_000, 1200);
        lemma_mul_bounds((total_tss * run_pct / 1000) as int, run_var as int, 1_350_000, 1200);
    }
    let swim_tss = if swim_roll < 600_000 {
        total_tss * swim_pct / 1000 * swim_var / 1000
    } else {
        0
    };
    let bike_tss = total_tss * bike_pct / 1000 * bike_var / 1000;
    let run_tss = total_tss * run_pct / 1000 * run_var / 1000;
    let strength_tss = if strength_roll < 300_000 {
        total_tss * strength_pct / 1000
    } else {
        0
    };
    (swim_tss, bike_tss, run_tss, strength_tss)
}

/// Build the workout specification of one discipline from its target
/// load, the phase and the intensity jitter drawn for it.
pub fn generate_workout_spec(
    sport: Sport,
    tss: u64,
    phase: TrainingPhase,
    if_noise: i64,
) -> (r: WorkoutSpec)
    requires
        tss <= 3_000_000,
        -50 <= if_noise <= 50,
    ensures
        r == spec_workout(sport, tss as int, phase, if_noise as int),
        600 <= r.intensity_factor <= 900,
        20_000 <= r.duration_minutes <= 300_000,
{
    let base_if = base_intensity(phase);
    let intensity = (base_if as i64 + if_noise) as u64;
    proof {
        lemma_mul_bounds(intensity as int, intensity as int, 900, 900);
        lemma_mul_bounds(tss as int, 10_000, 3_000_000, 10_000);
        assert(intensity * intensity >= 360_000) by (nonlinear_arith)
            requires intensity >= 600,
        {}
    }
    let denom = intensity * intensity;
    let hours_milli = tss * 10_000 / denom;
    proof {
        vstd::arithmetic::div_mod::lemma_div_is_ordered(
            (tss * 10_000) as int, 30_000_000_000, denom as int);
        assert(30_000_000_000int / (denom as int) <= 30_000_000_000int / 360_000) by {
            vstd::arithmetic::div_mod::lemma_div_is_ordered_by_denominator(
                30_000_000_000, 360_000, denom as int);
        }
    }
    let duration_minutes = clamp_u64(hours_milli * 60, 20_000, 300_000);
    let tss_per_hour = if hours_milli > 0 {
        tss * 1000 / hours_milli
    } else {
        50_000
    };
    WorkoutSpec {
        sport,
        duration_minutes,
        tss_per_hour,
        intensity_factor: intensity,
    }
}

/// Base intensity factor of a phase (milli).
fn base_intensity(phase: TrainingPhase) -> (r: u64)
    ensures
        r == spec_base_if(phase),
        650 <= r <= 850,
{
    match phase {
        TrainingPhase::Base => 650,
        TrainingPhase::Build => 750,
        TrainingPhase::Peak => 850,
        TrainingPhase::Taper => 700,
        _ => 700,
    }
}

/// The human label of a workout, from the discipline/phase table.
pub fn workout_name(sport: Sport, phase: TrainingPhase) -> (r: &'static str)
    ensures
        r@ == spec_workout_name(sport, phase),
{
    match sport {
        Sport::Swim => {
            match phase {
                TrainingPhase::Base => "Endurance Swim",
                TrainingPhase::Build => "Threshold Swim",
                _ => "Swim Session",
            }
        },
        Sport::Bike => {
            match phase {
                TrainingPhase::Base => "Endurance Ride",
                TrainingPhase::Build => "Tempo Ride",
                TrainingPhase::Peak => "Interval Ride",
                _ => "Bike Session",
            }
        },
        Sport::Run => {
            match phase {
                TrainingPhase::Base => "Easy Run",
                TrainingPhase::Build => "Tempo Run",
                TrainingPhase::Peak => "Interval Run",
                _ => "Run Session",
            }
        },
        Sport::Strength => "Strength Training",
    }
}

/// Generate the athlete's full-year periodized plan: a race calendar
/// and one `TrainingDay` per calendar date, all pinned to the plan
/// stream for `seed`. Deterministic given (athlete, year, seed).
///
/// Rest days carry zero target load in every discipline, and race days
/// always have phase `Race` (whose load multiplier is zero).
pub fn generate_annual_plan(athlete: &Athlete, year: i32, seed: u64) -> (r: AnnualPlan)
    requires
        athlete_wf(*athlete),
        2 <= year <= 9999,
    ensures
        plan_ok(r, *athlete, year, seed),
{
    let mut src = RandomSource::new(seed);
    let race_dates = generate_race_dates(&mut src, year);
    let n_days = days_in_year(year);
    let mut days: Vec<TrainingDay> = Vec::new();
    let mut i: u16 = 0;
    while i < n_days
        invariant
            athlete_wf(*athlete),
            2 <= year <= 9999,
            i <= n_days,
            n_days == spec_days_in_year(year),
            src.seed == seed,
            src.pos == RACE_HEADER_DRAWS + PLAN_DAY_DRAWS * i,
            race_dates@ == spec_race_dates(year, seed),
            forall|j: int| 0 <= j < race_dates@.len()
                ==> #[trigger] race_dates@[j] < spec_days_in_year(year),
            days@.len() == i,
            forall|j: int| 0 <= j < i
                ==> #[trigger] days@[j] == spec_plan_day(*athlete, year, seed, race_dates@, j),
            forall|j: int| 0 <= j < i ==> day_props(#[trigger] days@[j]),
        decreases n_days - i,
    {
        let rest_roll = src.next_roll_ppm();
        let variation = src.next_jitter_milli(200);
        let swim_var = src.next_jitter_milli(200);
        let bike_var = src.next_jitter_milli(200);
        let run_var = src.next_jitter_milli(200);
        let swim_roll = src.next_roll_ppm();
        let strength_roll = src.next_roll_ppm();
        let swim_ifn = src.next_noise(50);
        let bike_ifn = src.next_noise(50);
        let run_ifn = src.next_noise(50);
        let strength_ifn = src.next_noise(50);

        let dow = weekday_of(year, i);
        let week = iso_week_of(year, i);
        let (month, day) = month_day_of_ordinal(year, i);
        let phase = determine_phase(year, i, &race_dates);
        let (total_tss, is_rest) = calculate_daily_tss(athlete, phase, dow, rest_roll, variation);
        let is_race = contains_u16(&race_dates, i);
        let split = distribute_tss(
            athlete, total_tss, phase, is_rest, swim_var, bike_var, run_var,
            swim_roll, strength_roll);

        let swim_workout = if split.0 > 0 {
            Some(generate_workout_spec(Sport::Swim, split.0, phase, swim_ifn))
        } else {
            None
        };
        let bike_workout = if split.1 > 0 {
            Some(generate_workout_spec(Sport::Bike, split.1, phase, bike_ifn))
        } else {
            None
        };
        let run_workout = if split.2 > 0 {
            Some(generate_workout_spec(Sport::Run, split.2, phase, run_ifn))
        } else {
            None
        };
        let strength_workout = if split.3 > 0 {
            Some(generate_workout_spec(Sport::Strength, split.3, phase, strength_ifn))
        } else {
            None
        };

        proof {
            if is_race {
                let d = spec_days_to_next_race(i as int, race_dates@);
                lemma_race_day_distance_zero(i as u16, race_dates@);
            }
        }

        let td = TrainingDay {
            ordinal: i,
            month,
            day,
            day_of_week: dow,
            week_number: week,
            phase,
            total_tss,
            swim_tss: split.0,
            bike_tss: split.1,
            run_tss: split.2,
            strength_tss: split.3,
            swim_workout,
            bike_workout,
            run_workout,
            strength_workout,
            is_rest_day: is_rest,
            is_race_day: is_race,
        };
        proof {
            assert(td == spec_plan_day(*athlete, year, seed, race_dates@, i as int));
        }
        days.push(td);
        i = i + 1;
    }
    AnnualPlan { year, days, race_dates }
}

/// A date on the race calendar has zero days to its next race, so its
/// phase is always `Race`.
pub proof fn lemma_race_day_distance_zero(d: u16, races: Seq<u16>)
    requires
        races.contains(d),
    ensures
        spec_days_to_next_race(d as int, races) == Some(0int),
    decreases races.len(),
{
    let last = races.last();
    if last == d {
        if races.len() > 1 {
            lemma_days_to_next_race_nonneg(d as int, races.drop_last());
        }
    } else {
        assert(races.drop_last().contains(d)) by {
            let j = choose|j: int| 0 <= j < races.len() && races[j] == d;
            assert(races.drop_last()[j] == d);
        }
        lemma_race_day_distance_zero(d, races.drop_last());
    }
}

/// The days-to-next-race distance is never negative.
pub proof fn lemma_days_to_next_race_nonneg(d: int, races: Seq<u16>)
    ensures
        (match spec_days_to_next_race(d, races) {
            Some(m) => m >= 0,
            None => true,
        }),
    decreases races.len(),
{
    if races.len() > 0 {
        lemma_days_to_next_race_nonneg(d, races.drop_last());
    }
}

} // verus!
