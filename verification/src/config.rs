//! Runtime configuration for the injury, training and athlete models.
//!
//! Ratio-valued fields are fixed-point milli-units (1000 = 1.0), load
//! thresholds are milli-TSS, and probabilities are parts-per-million
//! (1_000_000 = 1.0).

use vstd::prelude::*;

verus! {

/// Configuration of the injury-probability model.
#[derive(Debug, Clone, Copy, PartialEq, Eq)]
pub struct InjuryModelConfig {
    /// ACWR above which risk grows at the danger slope (milli; 1500 = 1.5).
    pub acwr_danger_threshold: u64,
    /// ACWR above which risk grows at the caution slope (milli; 1300 = 1.3).
    pub acwr_caution_threshold: u64,
    /// ACWR below which under-training itself adds risk (milli; 800 = 0.8).
    pub acwr_undertrained_threshold: u64,
    /// Base injury probability per training day (ppm; 5000 = 0.5%).
    pub base_injury_probability: u64,
    /// Hard cap on the daily injury probability (ppm; 300_000 = 30%).
    pub max_injury_probability: u64,
    /// Risk per unit of ACWR above the danger threshold (milli; 150 = 0.15).
    pub acwr_danger_multiplier: u64,
    /// Risk per unit of ACWR above the caution threshold (milli; 50 = 0.05).
    pub acwr_caution_multiplier: u64,
    /// Risk per unit of ACWR below the undertrained threshold (milli; 30 = 0.03).
    pub acwr_undertrained_multiplier: u64,
    /// ATL above which fatigue risk grows at the steep slope (milli-TSS).
    pub fatigue_high_threshold: u64,
    /// ATL above which fatigue risk starts to grow (milli-TSS).
    pub fatigue_moderate_threshold: u64,
    /// TSB below which form risk grows at the steep slope (milli-TSS).
    pub form_high_risk_threshold: i64,
    /// TSB below which form risk starts to grow (milli-TSS).
    pub form_moderate_risk_threshold: i64,
    /// Spike ratio above which spike risk grows at the steep slope (milli).
    pub spike_high_threshold: u64,
    /// Spike ratio above which spike risk starts to grow (milli).
    pub spike_moderate_threshold: u64,
}

/// Well-formedness of an injury-model configuration: thresholds are
/// ordered as the piecewise risk zones assume, and every field is small
/// enough that the risk arithmetic stays far from overflow.
pub open spec fn injury_config_wf(c: InjuryModelConfig) -> bool {
    &&& c.acwr_undertrained_threshold <= c.acwr_caution_threshold
    &&& c.acwr_caution_threshold <= c.acwr_danger_threshold
    &&& c.acwr_danger_threshold <= 1_000_000
    &&& c.base_injury_probability <= c.max_injury_probability
    &&& c.max_injury_probability <= 1_000_000
    &&& c.acwr_danger_multiplier <= 100_000
    &&& c.acwr_caution_multiplier <= 100_000
    &&& c.acwr_undertrained_multiplier <= 100_000
    &&& c.fatigue_moderate_threshold <= c.fatigue_high_threshold
    &&& c.fatigue_high_threshold <= 1_000_000_000
    &&& c.form_high_risk_threshold <= c.form_moderate_risk_threshold
    &&& c.form_moderate_risk_threshold <= 0
    &&& -1_000_000_000 <= c.form_high_risk_threshold
    &&& c.spike_moderate_threshold <= c.spike_high_threshold
    &&& c.spike_high_threshold <= 1_000_000
}

/// The default injury-model configuration.
pub open spec fn spec_default_injury_config() -> InjuryModelConfig {
    InjuryModelConfig {
        acwr_danger_threshold: 1500,
        acwr_caution_threshold: 1300,
        acwr_undertrained_threshold: 800,
        base_injury_probability: 5000,
        max_injury_probability: 300_000,
        acwr_danger_multiplier: 150,
        acwr_caution_multiplier: 50,
        acwr_undertrained_multiplier: 30,
        fatigue_high_threshold: 120_000,
        fatigue_moderate_threshold: 100_000,
        form_high_risk_threshold: -30_000i64,
        form_moderate_risk_threshold: -20_000i64,
        spike_high_threshold: 2000,
        spike_moderate_threshold: 1500,
    }
}

impl Default for InjuryModelConfig {
    /// Default thresholds of the injury model.
    fn default() -> (r: InjuryModelConfig)
        ensures
            r == spec_default_injury_config(),
            injury_config_wf(r),
    {
        InjuryModelConfig {
            acwr_danger_threshold: 1500,
            acwr_caution_threshold: 1300,
            acwr_undertrained_threshold: 800,
            base_injury_probability: 5000,
            max_injury_probability: 300_000,
            acwr_danger_multiplier: 150,
            acwr_caution_multiplier: 50,
            acwr_undertrained_multiplier: 30,
            fatigue_high_threshold: 120_000,
            fatigue_moderate_threshold: 100_000,
            form_high_risk_threshold: -30_000,
            form_moderate_risk_threshold: -20_000,
            spike_high_threshold: 2000,
            spike_moderate_threshold: 1500,
        }
    }
}

/// Configuration of the fitness-fatigue (training load) model.
#[derive(Debug, Clone, Copy, PartialEq, Eq)]
pub struct TrainingModelConfig {
    /// Time constant of the chronic index EMA, in days.
    pub ctl_time_constant: u64,
    /// Time constant of the acute index EMA, in days.
    pub atl_time_constant: u64,
    /// Window length of the acute load mean in the ACWR, in days.
    pub acwr_acute_window: usize,
    /// Window length of the chronic load mean in the ACWR, in days.
    pub acwr_chronic_window: usize,
    /// Average load per hour of training (milli-TSS; 60_000 = 60 TSS/h).
    pub tss_per_hour: u64,
}

/// Well-formedness of a training-model configuration: both EMA time
/// constants are at least one day, the acute window fits inside the
/// chronic window, and all sizes are small enough for the window sums.
pub open spec fn training_config_wf(c: TrainingModelConfig) -> bool {
    &&& 1 <= c.ctl_time_constant <= 10_000
    &&& 1 <= c.atl_time_constant <= 10_000
    &&& 1 <= c.acwr_acute_window <= c.acwr_chronic_window
    &&& c.acwr_chronic_window <= 400
    &&& c.tss_per_hour <= 1_000_000
}

/// The default training-model configuration.
pub open spec fn spec_default_training_config() -> TrainingModelConfig {
    TrainingModelConfig {
        ctl_time_constant: 42,
        atl_time_constant: 7,
        acwr_acute_window: 7,
        acwr_chronic_window: 28,
        tss_per_hour: 60_000,
    }
}

impl Default for TrainingModelConfig {
    /// Default time constants and window sizes.
    fn default() -> (r: TrainingModelConfig)
        ensures
            r == spec_default_training_config(),
            training_config_wf(r),
    {
        TrainingModelConfig {
            ctl_time_constant: 42,
            atl_time_constant: 7,
            acwr_acute_window: 7,
            acwr_chronic_window: 28,
            tss_per_hour: 60_000,
        }
    }
}

/// Configuration of athlete-profile sampling.
#[derive(Debug, Clone, Copy, PartialEq, Eq)]
pub struct AthleteConfig {
    /// Minimum age of a sampled athlete, in years.
    pub min_age: u32,
    /// Maximum age of a sampled athlete, in years.
    pub max_age: u32,
    /// Minimum weekly training volume (milli-hours; 5000 = 5 h).
    pub min_weekly_hours: u64,
    /// Maximum weekly training volume (milli-hours; 25_000 = 25 h).
    pub max_weekly_hours: u64,
    /// Probability that a sampled athlete is female (ppm).
    pub female_probability: u64,
}

/// Well-formedness of an athlete-sampling configuration.
pub open spec fn athlete_config_wf(c: AthleteConfig) -> bool {
    &&& 10 <= c.min_age <= c.max_age <= 120
    &&& 1000 <= c.min_weekly_hours <= c.max_weekly_hours <= 200_000
    &&& c.female_probability <= 1_000_000
}

/// The default athlete-sampling configuration.
pub open spec fn spec_default_athlete_config() -> AthleteConfig {
    AthleteConfig {
        min_age: 18,
        max_age: 55,
        min_weekly_hours: 5000,
        max_weekly_hours: 25_000,
        female_probability: 350_000,
    }
}

impl Default for AthleteConfig {
    /// Default athlete-sampling ranges.
    fn default() -> (r: AthleteConfig)
        ensures
            r == spec_default_athlete_config(),
            athlete_config_wf(r),
    {
        AthleteConfig {
            min_age: 18,
            max_age: 55,
            min_weekly_hours: 5000,
            max_weekly_hours: 25_000,
            female_probability: 350_000,
        }
    }
}

/// Complete model configuration for a simulation run.
#[derive(Debug, Clone, Copy, PartialEq, Eq)]
pub struct SimulationParams {
    /// Injury-model configuration.
    pub injury: InjuryModelConfig,
    /// Fitness-fatigue model configuration.
    pub training: TrainingModelConfig,
    /// Athlete-sampling configuration.
    pub athlete: AthleteConfig,
}

/// Well-formedness of a complete parameter set.
pub open spec fn params_wf(p: SimulationParams) -> bool {
    &&& injury_config_wf(p.injury)
    &&& training_config_wf(p.training)
    &&& athlete_config_wf(p.athlete)
}

/// The default parameter set.
pub open spec fn spec_default_params() -> SimulationParams {
    SimulationParams {
        injury: spec_default_injury_config(),
        training: spec_default_training_config(),
        athlete: spec_default_athlete_config(),
    }
}

impl Default for SimulationParams {
    /// All three groups at their defaults.
    fn default() -> (r: SimulationParams)
        ensures
            r == spec_default_params(),
            params_wf(r),
    {
        SimulationParams {
            injury: InjuryModelConfig::default(),
            training: TrainingModelConfig::default(),
            athlete: AthleteConfig::default(),
        }
    }
}

} // verus!
