//! Fitness-fatigue state: sliding load/recovery windows and the derived
//! chronic (CTL), acute (ATL), form (TSB) and acute:chronic ratio (ACWR)
//! indices, all in fixed-point milli-units.

use vstd::prelude::*;
use crate::config::{TrainingModelConfig, training_config_wf};

verus! {

/// Upper bound on a single day's training load, in milli-TSS.
/// 1_000_000_000 milli-TSS is a million TSS, far beyond any physical day.
pub const MAX_LOAD_MILLI: u64 = 1_000_000_000;

/// Upper bound on a daily recovery signal (HRV), in milli-ms.
pub const MAX_HRV_MILLI: u64 = 1_000_000_000;

/// Sum of a sequence of daily values, as a mathematical integer.
pub open spec fn sum_seq(s: Seq<u64>) -> int
    decreases s.len(),
{
    if s.len() == 0 {
        0
    } else {
        sum_seq(s.drop_last()) + s.last()
    }
}

/// A sum splits at any cut point into the sums of the two parts.
pub proof fn lemma_sum_split(s: Seq<u64>, k: int)
    requires
        0 <= k <= s.len(),
    ensures
        sum_seq(s) == sum_seq(s.subrange(0, k)) + sum_seq(s.subrange(k, s.len() as int)),
    decreases s.len(),
{
    if k == s.len() {
        assert(s.subrange(0, k) =~= s);
    } else {
        lemma_sum_split(s.drop_last(), k);
        assert(s.drop_last().subrange(0, k) =~= s.subrange(0, k));
        assert(s.subrange(k, s.len() as int).drop_last()
            =~= s.drop_last().subrange(k, s.len() - 1));
        assert(s.subrange(k, s.len() as int).last() == s.last());
    }
}

/// A sum of values each at most `b` is at most `b` times the length.
pub proof fn lemma_sum_bound(s: Seq<u64>, b: u64)
    requires
        forall|i: int| 0 <= i < s.len() ==> s[i] <= b,
    ensures
        0 <= sum_seq(s) <= s.len() * b,
    decreases s.len(),
{
    if s.len() > 0 {
        lemma_sum_bound(s.drop_last(), b);
        assert((s.len() - 1) * b + b == s.len() * b) by (nonlinear_arith);
    }
}

/// Sum the entries of `v` with indices in `[from, to)`.
pub fn sum_range(v: &Vec<u64>, from: usize, to: usize) -> (s: u64)
    requires
        from <= to <= v.len(),
        to - from <= 400,
        forall|i: int| from <= i < to ==> v@[i] <= MAX_LOAD_MILLI,
    ensures
        s == sum_seq(v@.subrange(from as int, to as int)),
        s <= (to - from) * MAX_LOAD_MILLI,
{
    let mut acc: u64 = 0;
    let mut i: usize = from;
    while i < to
        invariant
            from <= i <= to <= v.len(),
            to - from <= 400,
            forall|j: int| from <= j < to ==> v@[j] <= MAX_LOAD_MILLI,
            acc == sum_seq(v@.subrange(from as int, i as int)),
            acc <= (i - from) * MAX_LOAD_MILLI,
        decreases to - i,
    {
        proof {
            assert(v@.subrange(from as int, i + 1).drop_last()
                =~= v@.subrange(from as int, i as int));
            assert((i - from) * MAX_LOAD_MILLI + MAX_LOAD_MILLI
                == (i + 1 - from) * MAX_LOAD_MILLI) by (nonlinear_arith);
            assert((i + 1 - from) * MAX_LOAD_MILLI <= 400 * MAX_LOAD_MILLI)
                by (nonlinear_arith)
                requires i + 1 - from <= 400,
            {}
        }
        acc = acc + v[i];
        i = i + 1;
    }
    acc
}

/// One step of the first-order exponential moving average recurrence
/// `index <- index + (value - index) / time_constant`, in integers.
/// Written with a sign split so that both divisions act on non-negative
/// numerators (integer division then agrees between spec and exec code).
pub open spec fn ema_step(prev: int, value: int, tc: int) -> int {
    if value >= prev {
        prev + (value - prev) / tc
    } else {
        prev - (prev - value) / tc
    }
}

/// Advance an EMA index by one day's value.
///
/// The result never leaves the closed interval spanned by `prev` and
/// `value`, so an index fed values below a bound stays below that bound.
pub fn ema_update(prev: u64, value: u64, tc: u64) -> (r: u64)
    requires
        tc >= 1,
    ensures
        r == ema_step(prev as int, value as int, tc as int),
        prev <= value ==> prev <= r <= value,
        value <= prev ==> value <= r <= prev,
{
    if value >= prev {
        let diff = value - prev;
        let d = diff / tc;
        proof {
            vstd::arithmetic::div_mod::lemma_div_nonincreasing(diff as int, tc as int);
        }
        prev + d
    } else {
        let diff = prev - value;
        let d = diff / tc;
        proof {
            vstd::arithmetic::div_mod::lemma_div_nonincreasing(diff as int, tc as int);
        }
        prev - d
    }
}

/// Convergence of the EMA toward a constant input: one step never moves
/// the index past the input value or away from it; while the distance is
/// at least the time constant the step strictly shrinks it; and once the
/// distance is below the time constant the index is a fixed point, so an
/// index fed a constant value settles within `tc` milli-units of it and
/// stays there.
pub proof fn lemma_ema_step_toward_constant(prev: int, value: int, tc: int)
    requires
        0 <= prev,
        0 <= value,
        1 <= tc,
    ensures
        value >= prev ==> prev <= ema_step(prev, value, tc) <= value,
        value <= prev ==> value <= ema_step(prev, value, tc) <= prev,
        value >= prev + tc ==> value - ema_step(prev, value, tc) < value - prev,
        prev >= value + tc ==> ema_step(prev, value, tc) - value < prev - value,
        value - tc < prev < value + tc ==> ema_step(prev, value, tc) == prev,
{
    if value >= prev {
        let d = (value - prev) as int;
        vstd::arithmetic::div_mod::lemma_div_nonincreasing(d, tc as int);
        vstd::arithmetic::div_mod::lemma_div_pos_is_pos(d, tc as int);
        if d >= tc {
            vstd::arithmetic::div_mod::lemma_div_is_ordered(tc as int, d, tc as int);
            vstd::arithmetic::div_mod::lemma_div_by_self(tc as int);
        } else {
            vstd::arithmetic::div_mod::lemma_basic_div(d, tc as int);
        }
    } else {
        let d = (prev - value) as int;
        vstd::arithmetic::div_mod::lemma_div_nonincreasing(d, tc as int);
        vstd::arithmetic::div_mod::lemma_div_pos_is_pos(d, tc as int);
        if d >= tc {
            vstd::arithmetic::div_mod::lemma_div_is_ordered(tc as int, d, tc as int);
            vstd::arithmetic::div_mod::lemma_div_by_self(tc as int);
        } else {
            vstd::arithmetic::div_mod::lemma_basic_div(d, tc as int);
        }
    }
}

/// The acute:chronic workload ratio in milli-units, from the window sums:
/// `(acute_sum / aw) / (chronic_sum / cw)`, or 1000 (exactly 1.0) by
/// convention when the chronic-window mean is zero.
pub open spec fn acwr_milli(acute_sum: int, chronic_sum: int, aw: int, cw: int) -> int {
    if chronic_sum > 0 {
        (acute_sum * cw * 1000) / (chronic_sum * aw)
    } else {
        1000
    }
}

/// Ghost model of a workload state: the window contents and the derived
/// indices as mathematical values.
#[verifier::ext_equal]
pub struct StateModel {
    /// Realized daily load window, oldest first.
    pub tss: Seq<u64>,
    /// Recovery signal window, oldest first.
    pub hrv: Seq<u64>,
    /// Chronic load index.
    pub ctl: int,
    /// Acute load index.
    pub atl: int,
    /// Form.
    pub tsb: int,
    /// Acute:chronic ratio (milli).
    pub acwr: int,
}

/// Sum of the most recent `aw` entries of the model's load window.
pub open spec fn model_acute_sum(m: StateModel, aw: int) -> int {
    sum_seq(m.tss.subrange(m.tss.len() - aw, m.tss.len() as int))
}

/// The model transition of one update: shift both windows, step both
/// EMA indices, and recompute form and the acute:chronic ratio.
pub open spec fn spec_state_update(
    m: StateModel,
    daily_tss: u64,
    daily_hrv: u64,
    c: TrainingModelConfig,
) -> StateModel {
    let tssw = m.tss.subrange(1, m.tss.len() as int).push(daily_tss);
    let hrvw = m.hrv.subrange(1, m.hrv.len() as int).push(daily_hrv);
    let ctl = ema_step(m.ctl, daily_tss as int, c.ctl_time_constant as int);
    let atl = ema_step(m.atl, daily_tss as int, c.atl_time_constant as int);
    StateModel {
        tss: tssw,
        hrv: hrvw,
        ctl,
        atl,
        tsb: ctl - atl,
        acwr: acwr_milli(
            sum_seq(tssw.subrange(tssw.len() - c.acwr_acute_window, tssw.len() as int)),
            sum_seq(tssw),
            c.acwr_acute_window as int,
            c.acwr_chronic_window as int,
        ),
    }
}

/// Workload state of one athlete: the two sliding windows and the derived
/// indices, updated once per simulated day. Owned by a single simulation;
/// never shared.
#[derive(Debug, Clone)]
pub struct TrainingState {
    /// Realized daily load over the chronic window, oldest first (milli-TSS).
    pub tss_history: Vec<u64>,
    /// Daily recovery signal (HRV) over the chronic window, oldest first.
    pub hrv_history: Vec<u64>,
    /// Chronic training load: long-horizon EMA of daily load (milli-TSS).
    pub ctl: u64,
    /// Acute training load: short-horizon EMA of daily load (milli-TSS).
    pub atl: u64,
    /// Training stress balance (form): `ctl - atl` (milli-TSS).
    pub tsb: i64,
    /// Acute:chronic workload ratio (milli; 1000 = 1.0).
    pub acwr: u64,
    /// Time constants and window sizes.
    pub config: TrainingModelConfig,
}

impl TrainingState {
    /// Internal invariant: windows have exactly the configured chronic
    /// length, every entry and both EMA indices are bounded, and the
    /// stored form equals chronic minus acute.
    pub open spec fn wf(self) -> bool {
        &&& training_config_wf(self.config)
        &&& self.tss_history@.len() == self.config.acwr_chronic_window
        &&& self.hrv_history@.len() == self.config.acwr_chronic_window
        &&& forall|i: int| 0 <= i < self.tss_history@.len()
            ==> self.tss_history@[i] <= MAX_LOAD_MILLI
        &&& forall|i: int| 0 <= i < self.hrv_history@.len()
            ==> self.hrv_history@[i] <= MAX_HRV_MILLI
        &&& self.ctl <= MAX_LOAD_MILLI
        &&& self.atl <= MAX_LOAD_MILLI
        &&& self.tsb == self.ctl - self.atl
        &&& self.acwr <= 1000 * self.config.acwr_chronic_window
    }

    /// The mathematical model of this state.
    pub open spec fn model(self) -> StateModel {
        StateModel {
            tss: self.tss_history@,
            hrv: self.hrv_history@,
            ctl: self.ctl as int,
            atl: self.atl as int,
            tsb: self.tsb as int,
            acwr: self.acwr as int,
        }
    }

    /// Sum of the full chronic window of realized load.
    pub open spec fn chronic_sum(self) -> int {
        sum_seq(self.tss_history@)
    }

    /// Sum of the most recent acute-window days of realized load.
    pub open spec fn acute_sum(self) -> int {
        sum_seq(self.tss_history@.subrange(
            self.tss_history@.len() - self.config.acwr_acute_window,
            self.tss_history@.len() as int,
        ))
    }

    /// A state with empty pre-history: zero load, a flat 60 ms recovery
    /// signal, zero indices and a neutral ratio.
    pub fn with_config(config: TrainingModelConfig) -> (r: TrainingState)
        requires
            training_config_wf(config),
        ensures
            r.wf(),
            r.config == config,
            r.tss_history@ == Seq::new(config.acwr_chronic_window as nat, |i: int| 0u64),
            r.hrv_history@ == Seq::new(config.acwr_chronic_window as nat, |i: int| 60_000u64),
            r.ctl == 0 && r.atl == 0 && r.tsb == 0 && r.acwr == 1000,
    {
        let n = config.acwr_chronic_window;
        let mut tss: Vec<u64> = Vec::new();
        let mut hrv: Vec<u64> = Vec::new();
        let mut i: usize = 0;
        while i < n
            invariant
                i <= n,
                tss@ =~= Seq::new(i as nat, |j: int| 0u64),
                hrv@ =~= Seq::new(i as nat, |j: int| 60_000u64),
            decreases n - i,
        {
            tss.push(0);
            hrv.push(60_000);
            i = i + 1;
        }
        proof {
            assert(tss@ =~= Seq::new(n as nat, |j: int| 0u64));
            assert(hrv@ =~= Seq::new(n as nat, |j: int| 60_000u64));
        }
        TrainingState {
            tss_history: tss,
            hrv_history: hrv,
            ctl: 0,
            atl: 0,
            tsb: 0,
            acwr: 1000,
            config,
        }
    }

    /// A state seeded from a baseline: windows pre-filled with 80% of the
    /// initial chronic index and the initial recovery signal, acute index
    /// at 90% of chronic, neutral ratio. Uses the default configuration.
    pub fn new(initial_ctl: u64, initial_hrv: u64) -> (r: TrainingState)
        requires
            initial_ctl <= MAX_LOAD_MILLI,
            initial_hrv <= MAX_HRV_MILLI,
        ensures
            r.wf(),
            r.config == crate::config::spec_default_training_config(),
            r.ctl == initial_ctl,
            r.atl == initial_ctl / 10 * 9,
    {
        Self::new_with_config(initial_ctl, initial_hrv, TrainingModelConfig::default())
    }

    /// As [`TrainingState::new`], with an explicit configuration.
    pub fn new_with_config(
        initial_ctl: u64,
        initial_hrv: u64,
        config: TrainingModelConfig,
    ) -> (r: TrainingState)
        requires
            training_config_wf(config),
            initial_ctl <= MAX_LOAD_MILLI,
            initial_hrv <= MAX_HRV_MILLI,
        ensures
            r.wf(),
            r.config == config,
            r.tss_history@ == Seq::new(
                config.acwr_chronic_window as nat,
                |i: int| (initial_ctl / 10 * 8) as u64,
            ),
            r.hrv_history@ == Seq::new(config.acwr_chronic_window as nat, |i: int| initial_hrv),
            r.ctl == initial_ctl,
            r.atl == initial_ctl / 10 * 9,
            r.tsb == initial_ctl - initial_ctl / 10 * 9,
            r.acwr == 1000,
    {
        let n = config.acwr_chronic_window;
        let fill = initial_ctl / 10 * 8;
        let atl = initial_ctl / 10 * 9;
        let mut tss: Vec<u64> = Vec::new();
        let mut hrv: Vec<u64> = Vec::new();
        let mut i: usize = 0;
        while i < n
            invariant
                i <= n,
                fill == initial_ctl / 10 * 8,
                tss@ =~= Seq::new(i as nat, |j: int| fill),
                hrv@ =~= Seq::new(i as nat, |j: int| initial_hrv),
            decreases n - i,
        {
            tss.push(fill);
            hrv.push(initial_hrv);
            i = i + 1;
        }
        proof {
            assert(tss@ =~= Seq::new(n as nat, |j: int| fill));
            assert(hrv@ =~= Seq::new(n as nat, |j: int| initial_hrv));
        }
        let tsb = (initial_ctl as i64) - (atl as i64);
        TrainingState {
            tss_history: tss,
            hrv_history: hrv,
            ctl: initial_ctl,
            atl,
            tsb,
            acwr: 1000,
            config,
        }
    }

    /// Advance the state by one simulated day: evict the oldest window
    /// entries, append today's values, step both EMA indices, and
    /// recompute form and the acute:chronic ratio.
    ///
    /// Both windows keep exactly their configured length, whatever the
    /// number of updates.
    pub fn update(&mut self, daily_tss: u64, daily_hrv: u64)
        requires
            old(self).wf(),
            daily_tss <= MAX_LOAD_MILLI,
            daily_hrv <= MAX_HRV_MILLI,
        ensures
            final(self).wf(),
            final(self).config == old(self).config,
            final(self).tss_history@ == old(self).tss_history@
                .subrange(1, old(self).tss_history@.len() as int)
                .push(daily_tss),
            final(self).hrv_history@ == old(self).hrv_history@
                .subrange(1, old(self).hrv_history@.len() as int)
                .push(daily_hrv),
            final(self).tss_history@.len() == old(self).config.acwr_chronic_window,
            final(self).hrv_history@.len() == old(self).config.acwr_chronic_window,
            final(self).ctl == ema_step(
                old(self).ctl as int, daily_tss as int,
                old(self).config.ctl_time_constant as int),
            final(self).atl == ema_step(
                old(self).atl as int, daily_tss as int,
                old(self).config.atl_time_constant as int),
            final(self).tsb == final(self).ctl - final(self).atl,
            final(self).acwr == acwr_milli(
                final(self).acute_sum(),
                final(self).chronic_sum(),
                old(self).config.acwr_acute_window as int,
                old(self).config.acwr_chronic_window as int,
            ),
            final(self).model() == spec_state_update(
                old(self).model(), daily_tss, daily_hrv, old(self).config),
    {
        self.tss_history.remove(0);
        self.tss_history.push(daily_tss);
        self.hrv_history.remove(0);
        self.hrv_history.push(daily_hrv);

        self.ctl = ema_update(self.ctl, daily_tss, self.config.ctl_time_constant);
        self.atl = ema_update(self.atl, daily_tss, self.config.atl_time_constant);
        self.tsb = (self.ctl as i64) - (self.atl as i64);

        let cw = self.config.acwr_chronic_window;
        let aw = self.config.acwr_acute_window;
        let chronic_sum = sum_range(&self.tss_history, 0, cw);
        let acute_sum = sum_range(&self.tss_history, cw - aw, cw);
        proof {
            assert(self.tss_history@.subrange(0, cw as int) =~= self.tss_history@);
        }
        proof {
            // acute_sum <= 400 * MAX_LOAD_MILLI and cw <= 400, so the
            // numerator is at most 400e9 * 400 * 1000 = 1.6e17 < u64::MAX.
            assert(acute_sum * (cw as int) <= 400 * (MAX_LOAD_MILLI as int) * 400)
                by (nonlinear_arith)
                requires
                    0 <= acute_sum,
                    acute_sum <= (aw as int) * (MAX_LOAD_MILLI as int),
                    aw <= 400,
                    0 <= cw <= 400,
            {}
            assert(chronic_sum * (aw as int) <= 400 * (MAX_LOAD_MILLI as int) * 400)
                by (nonlinear_arith)
                requires
                    0 <= chronic_sum,
                    chronic_sum <= (cw as int) * (MAX_LOAD_MILLI as int),
                    cw <= 400,
                    0 <= aw <= 400,
            {}
            assert(chronic_sum > 0 && aw >= 1 ==> chronic_sum * (aw as int) >= 1)
                by (nonlinear_arith);
        }
        self.acwr = if chronic_sum > 0 {
            let num = acute_sum * (cw as u64) * 1000;
            let den = chronic_sum * (aw as u64);
            proof {
                // The acute window is a suffix of the chronic window, so
                // its sum is no larger, which caps the ratio at the window
                // quotient: acwr <= 1000 * cw.
                lemma_sum_split(self.tss_history@, cw - aw);
                lemma_sum_bound(self.tss_history@.subrange(0, cw - aw), MAX_LOAD_MILLI);
                assert(acute_sum <= chronic_sum);
                let a = acute_sum as int;
                let c = chronic_sum as int;
                let awi = aw as int;
                let cwi = cw as int;
                assert(a * cwi * 1000 == a * (cwi * 1000)) by (nonlinear_arith);
                assert(c * cwi * 1000 == c * (cwi * 1000)) by (nonlinear_arith);
                assert(a * (cwi * 1000) <= c * (cwi * 1000)) by (nonlinear_arith)
                    requires 0 <= a <= c, 0 <= cwi,
                {}
                vstd::arithmetic::div_mod::lemma_div_is_ordered(
                    a * cwi * 1000, c * cwi * 1000, c * awi);
                assert(c * 1 <= c * awi) by (nonlinear_arith)
                    requires 1 <= awi, 0 <= c,
                {}
                vstd::arithmetic::div_mod::lemma_div_is_ordered_by_denominator(
                    c * (cwi * 1000), c, c * awi);
                vstd::arithmetic::div_mod::lemma_div_multiples_vanish(cwi * 1000, c);
                assert((a * cwi * 1000) / (c * awi) <= cwi * 1000);
            }
            num / den
        } else {
            1000
        };
    }

    /// Mean realized load over the acute window (milli-TSS); the spike
    /// detector's rolling average.
    pub fn rolling_tss_7day(&self) -> (r: u64)
        requires
            self.wf(),
        ensures
            r == self.acute_sum() / (self.config.acwr_acute_window as int),
    {
        let cw = self.config.acwr_chronic_window;
        let aw = self.config.acwr_acute_window;
        let acute_sum = sum_range(&self.tss_history, cw - aw, cw);
        acute_sum / (aw as u64)
    }

    /// Mean realized load over the full chronic window (milli-TSS).
    pub fn rolling_tss_chronic(&self) -> (r: u64)
        requires
            self.wf(),
        ensures
            r == self.chronic_sum() / (self.config.acwr_chronic_window as int),
    {
        let cw = self.config.acwr_chronic_window;
        let chronic_sum = sum_range(&self.tss_history, 0, cw);
        proof {
            assert(self.tss_history@.subrange(0, cw as int) =~= self.tss_history@);
        }
        chronic_sum / (cw as u64)
    }

    /// Mean recovery signal over the acute window (milli-ms).
    pub fn rolling_hrv_7day(&self) -> (r: u64)
        requires
            self.wf(),
        ensures
            r == sum_seq(self.hrv_history@.subrange(
                self.hrv_history@.len() - self.config.acwr_acute_window,
                self.hrv_history@.len() as int,
            )) / (self.config.acwr_acute_window as int),
    {
        let cw = self.config.acwr_chronic_window;
        let aw = self.config.acwr_acute_window;
        let acute_sum = sum_range(&self.hrv_history, cw - aw, cw);
        acute_sum / (aw as u64)
    }

    /// Whether the current ratio sits outside the optimal band
    /// (above 1.5 or below 0.8).
    pub fn is_acwr_risky(&self) -> (r: bool)
        ensures
            r == (self.acwr > 1500 || self.acwr < 800),
    {
        self.acwr > 1500 || self.acwr < 800
    }

    /// The five-band risk label of the current ratio.
    pub fn acwr_risk_category(&self) -> (r: &'static str)
        ensures
            r@ == spec_acwr_risk_category(self.acwr),
    {
        if self.acwr < 800 {
            "undertrained"
        } else if self.acwr <= 1000 {
            "optimal_low"
        } else if self.acwr <= 1300 {
            "optimal_high"
        } else if self.acwr <= 1500 {
            "caution"
        } else {
            "danger"
        }
    }

    /// The configuration this state was built with.
    pub fn config(&self) -> (r: &TrainingModelConfig)
        ensures
            r == self.config,
    {
        &self.config
    }
}

/// Day-of-week weighting of the synthetic pre-history (milli): one
/// rest-like day, one long day, ordinary days in between.
pub open spec fn spec_history_day_mult(i: int) -> int {
    let d = i % 7;
    if d == 0 {
        300
    } else if d == 1 {
        1000
    } else if d == 2 {
        1100
    } else if d == 3 {
        900
    } else if d == 4 {
        800
    } else if d == 5 {
        1300
    } else {
        1000
    }
}

/// The pre-history load of day `i`: the athlete's average daily load
/// scaled by recovery rate and the day-of-week weighting (milli-TSS).
pub open spec fn spec_init_tss_value(
    weekly_hours: u64,
    recovery_rate: u64,
    c: TrainingModelConfig,
    i: int,
) -> int {
    let avg = weekly_hours * c.tss_per_hour / 1000 / 7 * recovery_rate / 1000;
    avg * spec_history_day_mult(i) / 1000
}

/// Fill the load window with an athlete-appropriate synthetic
/// pre-history, weighted by a day-of-week pattern, so the derived
/// indices are meaningful from day one.
pub fn initialize_tss_history(
    weekly_training_hours: u64,
    recovery_rate: u64,
    config: &TrainingModelConfig,
) -> (r: Vec<u64>)
    requires
        training_config_wf(*config),
        weekly_training_hours <= 200_000,
        recovery_rate <= 1500,
    ensures
        r@.len() == config.acwr_chronic_window,
        forall|i: int| 0 <= i < r@.len() ==> r@[i] == spec_init_tss_value(
            weekly_training_hours, recovery_rate, *config, i),
        forall|i: int| 0 <= i < r@.len() ==> #[trigger] r@[i] <= MAX_LOAD_MILLI,
{
    proof {
        crate::util::lemma_mul_bounds(
            weekly_training_hours as int, config.tss_per_hour as int, 200_000, 1_000_000);
    }
    let weekly = weekly_training_hours * config.tss_per_hour / 1000;
    let daily = weekly / 7;
    proof {
        crate::util::lemma_mul_bounds(daily as int, recovery_rate as int, 200_000_000, 1500);
    }
    let avg = daily * recovery_rate / 1000;
    let n = config.acwr_chronic_window;
    let mut out: Vec<u64> = Vec::new();
    let mut i: usize = 0;
    while i < n
        invariant
            i <= n,
            avg == weekly_training_hours * config.tss_per_hour / 1000 / 7
                * recovery_rate / 1000,
            avg <= 300_000_000,
            out@.len() == i,
            forall|j: int| 0 <= j < i ==> out@[j] == spec_init_tss_value(
                weekly_training_hours, recovery_rate, *config, j),
            forall|j: int| 0 <= j < i ==> #[trigger] out@[j] <= MAX_LOAD_MILLI,
        decreases n - i,
    {
        let d = i % 7;
        let mult: u64 = if d == 0 {
            300
        } else if d == 1 {
            1000
        } else if d == 2 {
            1100
        } else if d == 3 {
            900
        } else if d == 4 {
            800
        } else if d == 5 {
            1300
        } else {
            1000
        };
        proof {
            crate::util::lemma_mul_bounds(avg as int, mult as int, 300_000_000, 1300);
        }
        out.push(avg * mult / 1000);
        i = i + 1;
    }
    out
}

/// As [`initialize_tss_history`], with the default configuration.
pub fn initialize_tss_history_default(
    weekly_training_hours: u64,
    recovery_rate: u64,
) -> (r: Vec<u64>)
    requires
        weekly_training_hours <= 200_000,
        recovery_rate <= 1500,
    ensures
        r@.len() == crate::config::spec_default_training_config().acwr_chronic_window,
        forall|i: int| 0 <= i < r@.len() ==> r@[i] == spec_init_tss_value(
            weekly_training_hours, recovery_rate,
            crate::config::spec_default_training_config(), i),
{
    initialize_tss_history(weekly_training_hours, recovery_rate, &TrainingModelConfig::default())
}

/// The deterministic oscillation of the recovery-signal pre-history
/// (milli): a small eight-day wave around the baseline.
pub open spec fn spec_history_osc_mult(i: int) -> int {
    let d = i % 8;
    if d == 0 {
        1000
    } else if d == 1 {
        1030
    } else if d == 2 {
        1050
    } else if d == 3 {
        1030
    } else if d == 4 {
        1000
    } else if d == 5 {
        970
    } else if d == 6 {
        950
    } else {
        970
    }
}

/// The pre-history recovery signal of day `i`: the baseline under the
/// oscillation, clamped to the athlete's valid range (milli-ms).
pub open spec fn spec_init_hrv_value(baseline: u64, lo: u64, hi: u64, i: int) -> int {
    crate::util::clamp(baseline * spec_history_osc_mult(i) / 1000, lo as int, hi as int)
}

/// Fill the recovery-signal window with the baseline under a small
/// deterministic oscillation, clamped to the valid range.
pub fn initialize_hrv_history(
    hrv_baseline: u64,
    hrv_lo: u64,
    hrv_hi: u64,
    config: &TrainingModelConfig,
) -> (r: Vec<u64>)
    requires
        training_config_wf(*config),
        hrv_baseline <= 1_000_000,
        hrv_lo <= hrv_hi <= MAX_HRV_MILLI,
    ensures
        r@.len() == config.acwr_chronic_window,
        forall|i: int| 0 <= i < r@.len() ==> r@[i] == spec_init_hrv_value(
            hrv_baseline, hrv_lo, hrv_hi, i),
        forall|i: int| 0 <= i < r@.len() ==> #[trigger] r@[i] <= MAX_HRV_MILLI,
{
    let n = config.acwr_chronic_window;
    let mut out: Vec<u64> = Vec::new();
    let mut i: usize = 0;
    while i < n
        invariant
            i <= n,
            hrv_baseline <= 1_000_000,
            hrv_lo <= hrv_hi <= MAX_HRV_MILLI,
            out@.len() == i,
            forall|j: int| 0 <= j < i ==> out@[j] == spec_init_hrv_value(
                hrv_baseline, hrv_lo, hrv_hi, j),
            forall|j: int| 0 <= j < i ==> #[trigger] out@[j] <= MAX_HRV_MILLI,
        decreases n - i,
    {
        let d = i % 8;
        let mult: u64 = if d == 0 {
            1000
        } else if d == 1 {
            1030
        } else if d == 2 {
            1050
        } else if d == 3 {
            1030
        } else if d == 4 {
            1000
        } else if d == 5 {
            970
        } else if d == 6 {
            950
        } else {
            970
        };
        proof {
            crate::util::lemma_mul_bounds(hrv_baseline as int, mult as int, 1_000_000, 1050);
        }
        let v = crate::util::clamp_u64(hrv_baseline * mult / 1000, hrv_lo, hrv_hi);
        out.push(v);
        i = i + 1;
    }
    out
}

/// As [`initialize_hrv_history`], with the default configuration.
pub fn initialize_hrv_history_default(
    hrv_baseline: u64,
    hrv_lo: u64,
    hrv_hi: u64,
) -> (r: Vec<u64>)
    requires
        hrv_baseline <= 1_000_000,
        hrv_lo <= hrv_hi <= MAX_HRV_MILLI,
    ensures
        r@.len() == crate::config::spec_default_training_config().acwr_chronic_window,
        forall|i: int| 0 <= i < r@.len() ==> r@[i] == spec_init_hrv_value(
            hrv_baseline, hrv_lo, hrv_hi, i),
{
    initialize_hrv_history(hrv_baseline, hrv_lo, hrv_hi, &TrainingModelConfig::default())
}

/// The five non-overlapping ACWR bands, by fixed milli thresholds
/// 800 / 1000 / 1300 / 1500.
pub open spec fn spec_acwr_risk_category(acwr: u64) -> Seq<char> {
    if acwr < 800 {
        "undertrained"@
    } else if acwr <= 1000 {
        "optimal_low"@
    } else if acwr <= 1300 {
        "optimal_high"@
    } else if acwr <= 1500 {
        "caution"@
    } else {
        "danger"@
    }
}

} // verus!
