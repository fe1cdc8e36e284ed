//! The athlete record, the filter configuration, and the weight-profile
//! tag that a target position selects.

use vstd::prelude::*;

verus! {

/// One athlete's attribute profile. All rating fields live on a bounded
/// integer scale; the scoring engine treats them as plain numbers and
/// does not enforce the domain range. Market value and wage are held in
/// base currency units.
#[derive(Clone, Debug)]
pub struct Player {
    pub name: String,
    pub age: u8,
    pub club: String,
    pub nationality: String,
    pub position: String,
    /// Market value in base currency units.
    pub value: u64,
    /// Wage in base currency units per period.
    pub wage: u64,
    pub current_ability: u8,
    pub potential_ability: u8,
    // Technical attributes
    pub finishing: u8,
    pub first_touch: u8,
    pub passing: u8,
    pub technique: u8,
    pub dribbling: u8,
    pub tackling: u8,
    // Mental attributes
    pub decisions: u8,
    pub anticipation: u8,
    pub composure: u8,
    pub vision: u8,
    pub work_rate: u8,
    // Physical attributes
    pub acceleration: u8,
    pub pace: u8,
    pub stamina: u8,
    pub strength: u8,
    pub jumping: u8,
}

/// The filter configuration for one run. All bounds are inclusive.
#[derive(Clone, Debug)]
pub struct Config {
    pub max_age: u8,
    /// Maximum market value in base currency units.
    pub max_value: u64,
    pub min_potential: u8,
    /// Matched case-insensitively as a substring of a record's position field.
    pub target_position: String,
}

/// The weighting profile that a target position selects.
#[derive(Clone, Copy, PartialEq, Eq, Structural, Debug)]
pub enum Profile {
    /// Striker weights.
    St,
    /// Central-midfielder weights.
    Cm,
    /// Centre-back weights.
    Cb,
    /// The generalist fallback for every other position string.
    Generic,
}

impl Config {
    /// Builds a configuration whose value cap is given in millions of
    /// base currency units, as the command line supplies it.
    pub fn from_millions(
        max_age: u8,
        max_value_millions: u64,
        min_potential: u8,
        target_position: String,
    ) -> (c: Config)
        requires
            max_value_millions * 1_000_000 <= u64::MAX,
        ensures
            c.max_age == max_age,
            c.max_value == max_value_millions * 1_000_000,
            c.min_potential == min_potential,
            c.target_position == target_position,
    {
        Config {
            max_age,
            max_value: max_value_millions * 1_000_000,
            min_potential,
            target_position,
        }
    }
}

} // verus!
