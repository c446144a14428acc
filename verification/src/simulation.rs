//! Simulation records: one athlete-day of telemetry, one athlete's
//! year, and the aggregate over a whole population.

use vstd::prelude::*;
use crate::activity::Activity;
use crate::athlete::Athlete;

verus! {

/// Injury type classification.
#[derive(Debug, Clone, Copy, PartialEq, Eq, Structural)]
pub enum InjuryType {
    Physiological,
    Exposure,
    Baseline,
}

impl InjuryType {
    /// Lower-case label of the variant.
    pub fn as_str(&self) -> (r: &'static str)
        ensures
            r@ == (match *self {
                InjuryType::Physiological => "physiological"@,
                InjuryType::Exposure => "exposure"@,
                InjuryType::Baseline => "baseline"@,
            }),
    {
        match self {
            InjuryType::Physiological => "physiological",
            InjuryType::Exposure => "exposure",
            InjuryType::Baseline => "baseline",
        }
    }
}

/// Daily metrics of one athlete-day. Heart rates in milli-BPM, HRV in
/// milli-ms, sleep in milli-hours, quality and battery fractions in
/// milli-units, load in milli-TSS, probability in ppm.
#[derive(Debug, Clone, Copy, PartialEq, Eq)]
pub struct DailyMetrics {
    /// The athlete's identity.
    pub athlete_id: u64,
    /// Zero-based day-of-year ordinal.
    pub ordinal: u16,
    /// Month (1-12).
    pub month: u8,
    /// Day of month (1-31).
    pub day: u8,
    /// Morning resting heart rate.
    pub resting_hr: u64,
    /// Morning heart-rate variability.
    pub hrv: u64,
    /// Sleep duration.
    pub sleep_hours: u64,
    /// Deep sleep duration.
    pub deep_sleep: u64,
    /// Light sleep duration.
    pub light_sleep: u64,
    /// REM sleep duration.
    pub rem_sleep: u64,
    /// Sleep quality.
    pub sleep_quality: u64,
    /// Morning recovery battery (milli-points, 100_000 = full).
    pub body_battery_morning: u64,
    /// Evening stress level (milli-points).
    pub stress: u64,
    /// Evening recovery battery.
    pub body_battery_evening: u64,
    /// Planned aggregate load for the day.
    pub planned_tss: u64,
    /// Realized aggregate load for the day.
    pub actual_tss: u64,
    /// Chronic load index before today's update.
    pub ctl: u64,
    /// Acute load index before today's update.
    pub atl: u64,
    /// Form before today's update.
    pub tsb: i64,
    /// Acute:chronic ratio before today's update.
    pub acwr: u64,
    /// Whether an injury occurred today.
    pub injury: bool,
    /// Injury type, present exactly when an injury occurred.
    pub injury_type: Option<InjuryType>,
    /// The probability that produced the injury draw (ppm).
    pub injury_probability: u64,
}

/// Number of injury days in a metrics sequence.
pub open spec fn spec_injury_count(s: Seq<DailyMetrics>) -> int
    decreases s.len(),
{
    if s.len() == 0 {
        0
    } else {
        spec_injury_count(s.drop_last()) + (if s.last().injury {
            1int
        } else {
            0int
        })
    }
}

/// An injury count never exceeds the number of days counted.
pub proof fn lemma_injury_count_bound(s: Seq<DailyMetrics>)
    ensures
        0 <= spec_injury_count(s) <= s.len(),
    decreases s.len(),
{
    if s.len() > 0 {
        lemma_injury_count_bound(s.drop_last());
    }
}

/// One athlete's complete simulation: the profile, the ordered daily
/// metrics, and the union of the year's realized activities.
#[derive(Debug, Clone, PartialEq, Eq)]
pub struct AthleteSimulationResult {
    /// The simulated athlete.
    pub athlete: Athlete,
    /// One record per calendar day, in order.
    pub daily_metrics: Vec<DailyMetrics>,
    /// All realized activities of the year.
    pub activities: Vec<Activity>,
}

impl AthleteSimulationResult {
    /// Total number of injury days.
    pub fn injury_count(&self) -> (r: usize)
        ensures
            r == spec_injury_count(self.daily_metrics@),
    {
        proof {
            lemma_injury_count_bound(self.daily_metrics@);
        }
        let mut count: usize = 0;
        let mut i: usize = 0;
        while i < self.daily_metrics.len()
            invariant
                i <= self.daily_metrics@.len(),
                count == spec_injury_count(self.daily_metrics@.subrange(0, i as int)),
                count <= i,
            decreases self.daily_metrics@.len() - i,
        {
            proof {
                assert(self.daily_metrics@.subrange(0, i + 1).drop_last()
                    =~= self.daily_metrics@.subrange(0, i as int));
            }
            if self.daily_metrics[i].injury {
                count = count + 1;
            }
            i = i + 1;
        }
        proof {
            assert(self.daily_metrics@.subrange(0, self.daily_metrics@.len() as int)
                =~= self.daily_metrics@);
        }
        count
    }

    /// Injury rate in milli-injuries per 100 days: zero for an empty
    /// year, else `injuries * 100_000 / days`.
    pub fn injury_rate(&self) -> (r: u64)
        requires
            self.daily_metrics@.len() <= 100_000,
        ensures
            r == (if self.daily_metrics@.len() == 0 {
                0int
            } else {
                spec_injury_count(self.daily_metrics@) * 100_000
                    / (self.daily_metrics@.len() as int)
            }),
    {
        let n = self.daily_metrics.len();
        if n == 0 {
            return 0;
        }
        let count = self.injury_count();
        proof {
            lemma_injury_count_bound(self.daily_metrics@);
        }
        (count as u64) * 100_000 / (n as u64)
    }
}

/// The complete simulation output of a run: every athlete's result.
#[derive(Debug, Clone, PartialEq, Eq)]
pub struct SimulationResult {
    /// One result per athlete.
    pub results: Vec<AthleteSimulationResult>,
}

/// Total number of daily records over all athletes.
pub open spec fn spec_total_records(results: Seq<AthleteSimulationResult>) -> int
    decreases results.len(),
{
    if results.len() == 0 {
        0
    } else {
        spec_total_records(results.drop_last()) + results.last().daily_metrics@.len()
    }
}

/// Total number of activities over all athletes.
pub open spec fn spec_total_activities(results: Seq<AthleteSimulationResult>) -> int
    decreases results.len(),
{
    if results.len() == 0 {
        0
    } else {
        spec_total_activities(results.drop_last()) + results.last().activities@.len()
    }
}

/// Total number of injury days over all athletes.
pub open spec fn spec_total_injuries(results: Seq<AthleteSimulationResult>) -> int
    decreases results.len(),
{
    if results.len() == 0 {
        0
    } else {
        spec_total_injuries(results.drop_last())
            + spec_injury_count(results.last().daily_metrics@)
    }
}

/// Totals are non-negative and injuries never outnumber records.
pub proof fn lemma_totals_bounds(results: Seq<AthleteSimulationResult>)
    ensures
        0 <= spec_total_injuries(results) <= spec_total_records(results),
        0 <= spec_total_activities(results),
    decreases results.len(),
{
    if results.len() > 0 {
        lemma_totals_bounds(results.drop_last());
        lemma_injury_count_bound(results.last().daily_metrics@);
    }
}

impl SimulationResult {
    /// Total number of daily records.
    pub fn total_daily_records(&self) -> (r: usize)
        requires
            spec_total_records(self.results@) <= usize::MAX,
        ensures
            r == spec_total_records(self.results@),
    {
        proof {
            lemma_totals_bounds(self.results@);
        }
        let mut acc: usize = 0;
        let mut i: usize = 0;
        while i < self.results.len()
            invariant
                i <= self.results@.len(),
                acc == spec_total_records(self.results@.subrange(0, i as int)),
                spec_total_records(self.results@) <= usize::MAX,
            decreases self.results@.len() - i,
        {
            proof {
                assert(self.results@.subrange(0, i + 1).drop_last()
                    =~= self.results@.subrange(0, i as int));
                lemma_total_records_prefix(self.results@, i + 1);
                lemma_total_records_prefix_le(self.results@, i + 1);
                lemma_totals_bounds(self.results@.subrange(0, i as int));
            }
            acc = acc + self.results[i].daily_metrics.len();
            i = i + 1;
        }
        proof {
            assert(self.results@.subrange(0, self.results@.len() as int) =~= self.results@);
        }
        acc
    }

    /// Total number of activities.
    pub fn total_activities(&self) -> (r: usize)
        requires
            spec_total_activities(self.results@) <= usize::MAX,
        ensures
            r == spec_total_activities(self.results@),
    {
        let mut acc: usize = 0;
        let mut i: usize = 0;
        while i < self.results.len()
            invariant
                i <= self.results@.len(),
                acc == spec_total_activities(self.results@.subrange(0, i as int)),
                spec_total_activities(self.results@) <= usize::MAX,
            decreases self.results@.len() - i,
        {
            proof {
                assert(self.results@.subrange(0, i + 1).drop_last()
                    =~= self.results@.subrange(0, i as int));
                lemma_total_activities_prefix(self.results@, i + 1);
                lemma_total_activities_prefix_le(self.results@, i + 1);
                lemma_totals_bounds(self.results@.subrange(0, i as int));
            }
            acc = acc + self.results[i].activities.len();
            i = i + 1;
        }
        proof {
            assert(self.results@.subrange(0, self.results@.len() as int) =~= self.results@);
        }
        acc
    }

    /// Overall injury rate in milli-injuries per 100 days: zero when
    /// there are no records, else `injuries * 100_000 / records`.
    pub fn injury_rate(&self) -> (r: u64)
        requires
            spec_total_records(self.results@) <= 100_000_000,
        ensures
            r == (if spec_total_records(self.results@) == 0 {
                0int
            } else {
                spec_total_injuries(self.results@) * 100_000
                    / spec_total_records(self.results@)
            }),
    {
        proof {
            lemma_totals_bounds(self.results@);
        }
        let total_days = self.total_daily_records();
        if total_days == 0 {
            return 0;
        }
        let mut injuries: usize = 0;
        let mut i: usize = 0;
        while i < self.results.len()
            invariant
                i <= self.results@.len(),
                injuries == spec_total_injuries(self.results@.subrange(0, i as int)),
                spec_total_records(self.results@) <= 100_000_000,
            decreases self.results@.len() - i,
        {
            proof {
                assert(self.results@.subrange(0, i + 1).drop_last()
                    =~= self.results@.subrange(0, i as int));
                lemma_total_injuries_prefix(self.results@, i + 1);
                lemma_totals_bounds(self.results@.subrange(0, i + 1));
                lemma_total_records_prefix_le(self.results@, i + 1);
            }
            injuries = injuries + self.results[i].injury_count();
            i = i + 1;
        }
        proof {
            assert(self.results@.subrange(0, self.results@.len() as int) =~= self.results@);
        }
        (injuries as u64) * 100_000 / (total_days as u64)
    }

    /// The athletes, in result order.
    pub fn athletes(&self) -> (r: Vec<Athlete>)
        ensures
            r@.len() == self.results@.len(),
            forall|i: int| 0 <= i < r@.len() ==> r@[i] == self.results@[i].athlete,
    {
        let mut out: Vec<Athlete> = Vec::new();
        let mut i: usize = 0;
        while i < self.results.len()
            invariant
                i <= self.results@.len(),
                out@.len() == i,
                forall|j: int| 0 <= j < i ==> out@[j] == self.results@[j].athlete,
            decreases self.results@.len() - i,
        {
            out.push(self.results[i].athlete);
            i = i + 1;
        }
        out
    }
}

/// All daily records over all athletes, athlete-major, in order.
pub open spec fn spec_all_metrics(results: Seq<AthleteSimulationResult>) -> Seq<DailyMetrics>
    decreases results.len(),
{
    if results.len() == 0 {
        Seq::empty()
    } else {
        spec_all_metrics(results.drop_last()) + results.last().daily_metrics@
    }
}

/// All activities over all athletes, athlete-major, in order.
pub open spec fn spec_all_activities(results: Seq<AthleteSimulationResult>) -> Seq<Activity>
    decreases results.len(),
{
    if results.len() == 0 {
        Seq::empty()
    } else {
        spec_all_activities(results.drop_last()) + results.last().activities@
    }
}

impl SimulationResult {
    /// All daily metrics, flattened athlete-major.
    pub fn all_daily_metrics(&self) -> (r: Vec<DailyMetrics>)
        ensures
            r@ == spec_all_metrics(self.results@),
    {
        let mut out: Vec<DailyMetrics> = Vec::new();
        let mut i: usize = 0;
        while i < self.results.len()
            invariant
                i <= self.results@.len(),
                out@ == spec_all_metrics(self.results@.subrange(0, i as int)),
            decreases self.results@.len() - i,
        {
            let inner = &self.results[i].daily_metrics;
            let mut j: usize = 0;
            while j < inner.len()
                invariant
                    i < self.results@.len(),
                    j <= inner@.len(),
                    inner == &self.results@[i as int].daily_metrics,
                    out@ == spec_all_metrics(self.results@.subrange(0, i as int))
                        + inner@.subrange(0, j as int),
                decreases inner@.len() - j,
            {
                out.push(inner[j]);
                proof {
                    assert(out@ =~= spec_all_metrics(self.results@.subrange(0, i as int))
                        + inner@.subrange(0, j + 1));
                }
                j = j + 1;
            }
            proof {
                assert(self.results@.subrange(0, i + 1).drop_last()
                    =~= self.results@.subrange(0, i as int));
                assert(inner@.subrange(0, inner@.len() as int) =~= inner@);
                assert(out@ =~= spec_all_metrics(self.results@.subrange(0, i + 1)));
            }
            i = i + 1;
        }
        proof {
            assert(self.results@.subrange(0, self.results@.len() as int) =~= self.results@);
        }
        out
    }

    /// All activities, flattened athlete-major.
    pub fn all_activities(&self) -> (r: Vec<Activity>)
        ensures
            r@ == spec_all_activities(self.results@),
    {
        let mut out: Vec<Activity> = Vec::new();
        let mut i: usize = 0;
        while i < self.results.len()
            invariant
                i <= self.results@.len(),
                out@ == spec_all_activities(self.results@.subrange(0, i as int)),
            decreases self.results@.len() - i,
        {
            let inner = &self.results[i].activities;
            let mut j: usize = 0;
            while j < inner.len()
                invariant
                    i < self.results@.len(),
                    j <= inner@.len(),
                    inner == &self.results@[i as int].activities,
                    out@ == spec_all_activities(self.results@.subrange(0, i as int))
                        + inner@.subrange(0, j as int),
                decreases inner@.len() - j,
            {
                out.push(inner[j]);
                proof {
                    assert(out@ =~= spec_all_activities(self.results@.subrange(0, i as int))
                        + inner@.subrange(0, j + 1));
                }
                j = j + 1;
            }
            proof {
                assert(self.results@.subrange(0, i + 1).drop_last()
                    =~= self.results@.subrange(0, i as int));
                assert(inner@.subrange(0, inner@.len() as int) =~= inner@);
                assert(out@ =~= spec_all_activities(self.results@.subrange(0, i + 1)));
            }
            i = i + 1;
        }
        proof {
            assert(self.results@.subrange(0, self.results@.len() as int) =~= self.results@);
        }
        out
    }
}

/// A prefix's record total never exceeds the whole total.
pub proof fn lemma_total_records_prefix_le(results: Seq<AthleteSimulationResult>, k: int)
    requires
        0 <= k <= results.len(),
    ensures
        spec_total_records(results.subrange(0, k)) <= spec_total_records(results),
    decreases results.len(),
{
    if k == results.len() {
        assert(results.subrange(0, k) =~= results);
    } else {
        lemma_total_records_prefix_le(results.drop_last(), k);
        assert(results.drop_last().subrange(0, k) =~= results.subrange(0, k));
    }
}

/// A prefix's activity total never exceeds the whole total.
pub proof fn lemma_total_activities_prefix_le(results: Seq<AthleteSimulationResult>, k: int)
    requires
        0 <= k <= results.len(),
    ensures
        spec_total_activities(results.subrange(0, k)) <= spec_total_activities(results),
    decreases results.len(),
{
    if k == results.len() {
        assert(results.subrange(0, k) =~= results);
    } else {
        lemma_total_activities_prefix_le(results.drop_last(), k);
        assert(results.drop_last().subrange(0, k) =~= results.subrange(0, k));
    }
}

/// Record totals of a prefix grow by the last element's records.
pub proof fn lemma_total_records_prefix(results: Seq<AthleteSimulationResult>, k: int)
    requires
        0 < k <= results.len(),
    ensures
        spec_total_records(results.subrange(0, k))
            == spec_total_records(results.subrange(0, k - 1))
                + results[k - 1].daily_metrics@.len(),
{
    assert(results.subrange(0, k).drop_last() =~= results.subrange(0, k - 1));
}

/// Activity totals of a prefix grow by the last element's activities.
pub proof fn lemma_total_activities_prefix(results: Seq<AthleteSimulationResult>, k: int)
    requires
        0 < k <= results.len(),
    ensures
        spec_total_activities(results.subrange(0, k))
            == spec_total_activities(results.subrange(0, k - 1))
                + results[k - 1].activities@.len(),
{
    assert(results.subrange(0, k).drop_last() =~= results.subrange(0, k - 1));
}

/// Injury totals of a prefix grow by the last element's injuries.
pub proof fn lemma_total_injuries_prefix(results: Seq<AthleteSimulationResult>, k: int)
    requires
        0 < k <= results.len(),
    ensures
        spec_total_injuries(results.subrange(0, k))
            == spec_total_injuries(results.subrange(0, k - 1))
                + spec_injury_count(results[k - 1].daily_metrics@),
{
    assert(results.subrange(0, k).drop_last() =~= results.subrange(0, k - 1));
}

} // verus!
