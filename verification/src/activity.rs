//! Realized activities: which planned workouts actually happen on a
//! day, and the load they deliver. Realization is driven by the day's
//! completion rate; a rest day never produces an activity.

use vstd::prelude::*;
use crate::athlete::Athlete;
use crate::plan::{Sport, TrainingDay, WorkoutSpec, day_props};
use crate::rng::{RandomSource, sw_below};
use crate::util::lemma_mul_bounds;

verus! {

/// Draws consumed by activity realization per day: one inclusion roll
/// per discipline, consumed whether or not a workout is planned.
pub const ACTIVITY_DRAWS: u64 = 4;

/// A completed activity record: one realized workout.
#[derive(Debug, Clone, Copy, PartialEq, Eq, Structural)]
pub struct Activity {
    /// The athlete's identity.
    pub athlete_id: u64,
    /// Zero-based day-of-year ordinal.
    pub ordinal: u16,
    /// Discipline.
    pub sport: Sport,
    /// Duration, milli-minutes.
    pub duration_minutes: u64,
    /// Realized load, milli-TSS.
    pub tss: u64,
    /// Intensity factor, milli-units.
    pub intensity_factor: u64,
}

impl Activity {
    /// A new activity record from its fields.
    pub fn new(
        athlete_id: u64,
        ordinal: u16,
        sport: Sport,
        duration_minutes: u64,
        tss: u64,
        intensity_factor: u64,
    ) -> (r: Activity)
        ensures
            r == (Activity {
                athlete_id, ordinal, sport, duration_minutes, tss, intensity_factor,
            }),
    {
        Activity { athlete_id, ordinal, sport, duration_minutes, tss, intensity_factor }
    }
}

/// Realized load of a workout: `intensity^2 x hours x 100` for swim,
/// bike and run, half that rate for strength work (milli-TSS).
pub open spec fn spec_activity_tss(sport: Sport, duration_minutes: int, intensity: int) -> int {
    if sport is Strength {
        intensity * intensity * duration_minutes / 1_200_000
    } else {
        intensity * intensity * duration_minutes / 600_000
    }
}

/// The activity realized from a planned workout.
pub open spec fn spec_activity(aid: u64, ordinal: u16, w: WorkoutSpec) -> Activity {
    Activity {
        athlete_id: aid,
        ordinal,
        sport: w.sport,
        duration_minutes: w.duration_minutes,
        tss: spec_activity_tss(
            w.sport, w.duration_minutes as int, w.intensity_factor as int) as u64,
        intensity_factor: w.intensity_factor,
    }
}

/// Whether a planned workout is realized: a workout exists and its
/// inclusion roll lands under the completion rate.
pub open spec fn spec_included(w: Option<WorkoutSpec>, roll: int, completion_milli: int) -> bool {
    w is Some && roll < completion_milli * 1000
}

/// The realized activities of a day and their aggregate load, from the
/// four inclusion rolls at `base`: nothing on a rest day or when the
/// completion rate is under 0.1.
pub open spec fn spec_realized(
    aid: u64,
    td: TrainingDay,
    completion_milli: int,
    seed: u64,
    base: u64,
) -> (Seq<Activity>, int) {
    if td.is_rest_day || completion_milli < 100 {
        (Seq::empty(), 0)
    } else {
        let r0 = sw_below(seed, base, 1_000_000);
        let r1 = sw_below(seed, (base + 1) as u64, 1_000_000);
        let r2 = sw_below(seed, (base + 2) as u64, 1_000_000);
        let r3 = sw_below(seed, (base + 3) as u64, 1_000_000);
        let s0 = Seq::<Activity>::empty();
        let t0 = 0int;
        let s1 = if spec_included(td.swim_workout, r0, completion_milli) {
            s0.push(spec_activity(aid, td.ordinal, td.swim_workout->Some_0))
        } else {
            s0
        };
        let t1 = if spec_included(td.swim_workout, r0, completion_milli) {
            t0 + spec_activity(aid, td.ordinal, td.swim_workout->Some_0).tss
        } else {
            t0
        };
        let s2 = if spec_included(td.bike_workout, r1, completion_milli) {
            s1.push(spec_activity(aid, td.ordinal, td.bike_workout->Some_0))
        } else {
            s1
        };
        let t2 = if spec_included(td.bike_workout, r1, completion_milli) {
            t1 + spec_activity(aid, td.ordinal, td.bike_workout->Some_0).tss
        } else {
            t1
        };
        let s3 = if spec_included(td.run_workout, r2, completion_milli) {
            s2.push(spec_activity(aid, td.ordinal, td.run_workout->Some_0))
        } else {
            s2
        };
        let t3 = if spec_included(td.run_workout, r2, completion_milli) {
            t2 + spec_activity(aid, td.ordinal, td.run_workout->Some_0).tss
        } else {
            t2
        };
        let s4 = if spec_included(td.strength_workout, r3, completion_milli) {
            s3.push(spec_activity(aid, td.ordinal, td.strength_workout->Some_0))
        } else {
            s3
        };
        let t4 = if spec_included(td.strength_workout, r3, completion_milli) {
            t3 + spec_activity(aid, td.ordinal, td.strength_workout->Some_0).tss
        } else {
            t3
        };
        (s4, t4)
    }
}

/// Realize a planned workout as an activity record.
fn realize_workout(aid: u64, ordinal: u16, w: &WorkoutSpec) -> (r: Activity)
    requires
        w.intensity_factor <= 900,
        w.duration_minutes <= 300_000,
    ensures
        r == spec_activity(aid, ordinal, *w),
        r.tss <= 500_000,
{
    proof {
        lemma_mul_bounds(w.intensity_factor as int, w.intensity_factor as int, 900, 900);
        lemma_mul_bounds(
            (w.intensity_factor * w.intensity_factor) as int,
            w.duration_minutes as int, 810_000, 300_000);
        vstd::arithmetic::div_mod::lemma_div_is_ordered(
            (w.intensity_factor * w.intensity_factor * w.duration_minutes) as int,
            243_000_000_000, 600_000);
        vstd::arithmetic::div_mod::lemma_div_is_ordered(
            (w.intensity_factor * w.intensity_factor * w.duration_minutes) as int,
            243_000_000_000, 1_200_000);
    }
    let sq = w.intensity_factor * w.intensity_factor;
    let num = sq * w.duration_minutes;
    let tss = match w.sport {
        Sport::Strength => num / 1_200_000,
        _ => num / 600_000,
    };
    Activity::new(aid, ordinal, w.sport, w.duration_minutes, tss, w.intensity_factor)
}

/// Realize the day's planned workouts at the given completion rate
/// (milli). Each discipline's inclusion is an independent Bernoulli
/// draw against the completion rate; the realized aggregate load is
/// the sum of the realized activities' loads.
///
/// A rest day realizes nothing and delivers zero load, whatever the
/// plan held before the rest flag was applied.
pub fn generate_activities(
    src: &mut RandomSource,
    athlete: &Athlete,
    training_day: &TrainingDay,
    completion_milli: u64,
) -> (r: (Vec<Activity>, u64))
    requires
        day_props(*training_day),
        completion_milli <= 1000,
        old(src).pos + ACTIVITY_DRAWS < u64::MAX,
    ensures
        final(src).seed == old(src).seed,
        final(src).pos == old(src).pos + ACTIVITY_DRAWS,
        (r.0@, r.1 as int) == spec_realized(
            athlete.id, *training_day, completion_milli as int,
            old(src).seed, old(src).pos),
        r.1 <= 2_000_000,
        training_day.is_rest_day ==> r.0@.len() == 0 && r.1 == 0,
{
    let r0 = src.next_roll_ppm();
    let r1 = src.next_roll_ppm();
    let r2 = src.next_roll_ppm();
    let r3 = src.next_roll_ppm();

    let mut activities: Vec<Activity> = Vec::new();
    let mut total: u64 = 0;

    if training_day.is_rest_day || completion_milli < 100 {
        proof {
            assert(activities@ =~= spec_realized(
                athlete.id, *training_day, completion_milli as int,
                old(src).seed, old(src).pos).0);
        }
        return (activities, 0);
    }

    let threshold = completion_milli * 1000;

    if r0 < threshold {
        if let Some(w) = &training_day.swim_workout {
            let a = realize_workout(athlete.id, training_day.ordinal, w);
            total = total + a.tss;
            activities.push(a);
        }
    }
    if r1 < threshold {
        if let Some(w) = &training_day.bike_workout {
            let a = realize_workout(athlete.id, training_day.ordinal, w);
            total = total + a.tss;
            activities.push(a);
        }
    }
    if r2 < threshold {
        if let Some(w) = &training_day.run_workout {
            let a = realize_workout(athlete.id, training_day.ordinal, w);
            total = total + a.tss;
            activities.push(a);
        }
    }
    if r3 < threshold {
        if let Some(w) = &training_day.strength_workout {
            let a = realize_workout(athlete.id, training_day.ordinal, w);
            total = total + a.tss;
            activities.push(a);
        }
    }
    proof {
        assert(activities@ =~= spec_realized(
            athlete.id, *training_day, completion_milli as int,
            old(src).seed, old(src).pos).0);
    }
    (activities, total)
}

} // verus!
