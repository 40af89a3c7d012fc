//! Memory-pressure assessment.
//!
//! Free memory and swap usage are mapped to an ordered pressure level.
//! The critical tier requires *both* low free memory and high swap use
//! (a conjunction), while the high and elevated tiers each fire on
//! either condition alone (a disjunction). The asymmetry is deliberate:
//! low free memory alone, however severe, is High, not Critical.

use crate::config::Thresholds;
use vstd::prelude::*;

verus! {

/// Ordered classification of memory/swap scarcity.
#[derive(Clone, Copy, PartialEq, Eq, Structural, Debug)]
pub enum PressureLevel {
    Normal,
    Elevated,
    High,
    Critical,
}

/// Position of a level in the order Normal < Elevated < High < Critical.
pub open spec fn level_rank(l: PressureLevel) -> int {
    match l {
        PressureLevel::Normal => 0,
        PressureLevel::Elevated => 1,
        PressureLevel::High => 2,
        PressureLevel::Critical => 3,
    }
}

/// The pressure level of a reading, evaluated top to bottom, first
/// match wins. Quantities are mebibytes.
pub open spec fn spec_assess(free_mb: u64, swap_mb: u64, t: Thresholds) -> PressureLevel {
    if free_mb < t.critical_free_mb && swap_mb > t.critical_swap_mb {
        PressureLevel::Critical
    } else if free_mb < t.high_free_mb || swap_mb > t.high_swap_mb {
        PressureLevel::High
    } else if free_mb < t.elevated_free_mb || swap_mb > t.elevated_swap_mb {
        PressureLevel::Elevated
    } else {
        PressureLevel::Normal
    }
}

/// Map a free-memory and swap-usage reading to a pressure level.
pub fn assess(free_mb: u64, swap_mb: u64, t: &Thresholds) -> (r: PressureLevel)
    ensures
        r == spec_assess(free_mb, swap_mb, *t),
{
    if free_mb < t.critical_free_mb && swap_mb > t.critical_swap_mb {
        PressureLevel::Critical
    } else if free_mb < t.high_free_mb || swap_mb > t.high_swap_mb {
        PressureLevel::High
    } else if free_mb < t.elevated_free_mb || swap_mb > t.elevated_swap_mb {
        PressureLevel::Elevated
    } else {
        PressureLevel::Normal
    }
}

/// Assessment is monotonic: taking away free memory or adding swap use
/// never lowers the pressure level, whatever the thresholds.
pub proof fn lemma_assess_monotonic(
    free1: u64,
    swap1: u64,
    free2: u64,
    swap2: u64,
    t: Thresholds,
)
    requires
        free2 <= free1,
        swap2 >= swap1,
    ensures
        level_rank(spec_assess(free1, swap1, t)) <= level_rank(spec_assess(free2, swap2, t)),
{
}

impl PressureLevel {
    /// The level's display name.
    pub fn label(&self) -> (r: String)
        ensures
            *self == PressureLevel::Normal ==> r@ == "Normal"@,
            *self == PressureLevel::Elevated ==> r@ == "Elevated"@,
            *self == PressureLevel::High ==> r@ == "High"@,
            *self == PressureLevel::Critical ==> r@ == "Critical"@,
    {
        match self {
            PressureLevel::Normal => String::from_str("Normal"),
            PressureLevel::Elevated => String::from_str("Elevated"),
            PressureLevel::High => String::from_str("High"),
            PressureLevel::Critical => String::from_str("Critical"),
        }
    }
}

} // verus!
