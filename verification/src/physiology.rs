//! Menstrual cycle phases and their performance modifiers
//! (milli-units; 1000 = no effect).

use vstd::prelude::*;
use crate::athlete::MenstrualCycleConfig;

verus! {

/// Menstrual cycle phases.
#[derive(Debug, Clone, Copy, PartialEq, Eq, Structural)]
pub enum CyclePhase {
    /// Days 1-5.
    Menstrual,
    /// Days 6-14.
    Follicular,
    /// Days 14-17.
    Ovulatory,
    /// Days 17-28.
    Luteal,
}

/// Performance modifiers of a cycle phase (milli).
#[derive(Debug, Clone, Copy, PartialEq, Eq, Structural)]
pub struct PhaseModifiers {
    /// Energy availability.
    pub energy: u64,
    /// Recovery capacity.
    pub recovery: u64,
    /// HRV level.
    pub hrv: u64,
    /// Injury risk.
    pub injury_risk: u64,
}

impl Default for PhaseModifiers {
    /// Neutral modifiers: no effect on any channel.
    fn default() -> (r: PhaseModifiers)
        ensures
            r == (PhaseModifiers { energy: 1000u64, recovery: 1000u64, hrv: 1000u64,
                injury_risk: 1000u64 }),
    {
        PhaseModifiers { energy: 1000, recovery: 1000, hrv: 1000, injury_risk: 1000 }
    }
}

/// The phase of the day within the cycle: day-of-year reduced modulo
/// the cycle length, banded at days 5, 14 and 17.
pub open spec fn spec_cycle_phase(day_of_year: int, cycle_length: int) -> CyclePhase {
    let d = day_of_year % cycle_length;
    if d < 5 {
        CyclePhase::Menstrual
    } else if d < 14 {
        CyclePhase::Follicular
    } else if d < 17 {
        CyclePhase::Ovulatory
    } else {
        CyclePhase::Luteal
    }
}

/// Current phase of the menstrual cycle on a given day of the year.
pub fn get_cycle_phase(day_of_year: u32, config: &MenstrualCycleConfig) -> (r: CyclePhase)
    requires
        config.cycle_length >= 1,
    ensures
        r == spec_cycle_phase(day_of_year as int, config.cycle_length as int),
{
    let day_in_cycle = day_of_year % (config.cycle_length as u32);
    if day_in_cycle < 5 {
        CyclePhase::Menstrual
    } else if day_in_cycle < 14 {
        CyclePhase::Follicular
    } else if day_in_cycle < 17 {
        CyclePhase::Ovulatory
    } else {
        CyclePhase::Luteal
    }
}

/// The fixed modifier table of a cycle phase.
pub fn get_phase_modifiers(phase: CyclePhase) -> (r: PhaseModifiers)
    ensures
        r == (match phase {
            CyclePhase::Menstrual => PhaseModifiers {
                energy: 900u64, recovery: 950u64, hrv: 950u64, injury_risk: 1100u64,
            },
            CyclePhase::Follicular => PhaseModifiers {
                energy: 1050u64, recovery: 1050u64, hrv: 1020u64, injury_risk: 950u64,
            },
            CyclePhase::Ovulatory => PhaseModifiers {
                energy: 1100u64, recovery: 1000u64, hrv: 1000u64, injury_risk: 1050u64,
            },
            CyclePhase::Luteal => PhaseModifiers {
                energy: 950u64, recovery: 920u64, hrv: 980u64, injury_risk: 1020u64,
            },
        }),
{
    match phase {
        CyclePhase::Menstrual => PhaseModifiers {
            energy: 900,
            recovery: 950,
            hrv: 950,
            injury_risk: 1100,
        },
        CyclePhase::Follicular => PhaseModifiers {
            energy: 1050,
            recovery: 1050,
            hrv: 1020,
            injury_risk: 950,
        },
        CyclePhase::Ovulatory => PhaseModifiers {
            energy: 1100,
            recovery: 1000,
            hrv: 1000,
            injury_risk: 1050,
        },
        CyclePhase::Luteal => PhaseModifiers {
            energy: 950,
            recovery: 920,
            hrv: 980,
            injury_risk: 1020,
        },
    }
}

} // verus!
