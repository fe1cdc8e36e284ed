//! The scoring engine: a pure, position-weighted suitability score.
//!
//! The published policy is a real-valued formula over a record:
//!
//! ```text
//! score = 0.4 * attribute_score + 0.4 * potential_score + 0.2 * value_score
//! attribute_score = (sum of attribute * weight) / (sum of weights)
//! potential_score = potential_ability / 200
//! value_score     = 1 - min(value, 50_000_000) / 50_000_000
//! ```
//!
//! with five (attribute, weight) pairs per profile and weights drawn
//! from {1.0, 1.5, 2.0}. Every quantity in it is rational, so this
//! library computes the score exactly in integers, scaled by
//! `SCORE_SCALE` = 750,000,000: the value returned here is the real
//! score times `SCORE_SCALE`, with no rounding anywhere. Doubling the
//! weights makes them the integers {2, 3, 4} with per-profile sum 15
//! (10 for the generalist profile), and 0.4 * SCORE_SCALE / 15 and
//! 0.4 * SCORE_SCALE / 10 are the exact integers 20,000,000 and
//! 30,000,000; 0.4 * SCORE_SCALE / 200 = 1,500,000 scales the
//! potential rating and 0.2 * SCORE_SCALE / 50,000,000 = 3 scales the
//! value headroom. Scaling by a positive constant preserves every
//! comparison, so ranking by this integer ranks exactly as the real
//! formula does.

use vstd::prelude::*;

use crate::player::Player;
use crate::player::Profile;
use crate::text::lower_seq;
use crate::text::lower_vec;

verus! {

/// The score returned equals the real-valued policy score times this
/// constant.
pub const SCORE_SCALE: u64 = 750_000_000;

/// Market values at or above this cap contribute a value score of zero.
pub const VALUE_CAP: u64 = 50_000_000;

/// The profile that a target position selects: the position folded to
/// lowercase must be exactly "st", "cm" or "cb"; every other string
/// falls back to the generalist profile.
pub open spec fn spec_profile(position: Seq<char>) -> Profile {
    if lower_seq(position) == "st"@ {
        Profile::St
    } else if lower_seq(position) == "cm"@ {
        Profile::Cm
    } else if lower_seq(position) == "cb"@ {
        Profile::Cb
    } else {
        Profile::Generic
    }
}

/// The weighted attribute sum of a record under a profile, with all
/// weights doubled so that they are integers: 2.0 becomes 4, 1.5
/// becomes 3 and 1.0 becomes 2.
pub open spec fn attr_weighted_sum(p: Player, profile: Profile) -> int {
    match profile {
        Profile::St => 4 * p.finishing + 3 * p.first_touch + 3 * p.acceleration + 3 * p.pace + 2
            * p.composure,
        Profile::Cm => 4 * p.passing + 3 * p.vision + 3 * p.decisions + 2 * p.stamina + 3
            * p.work_rate,
        Profile::Cb => 4 * p.tackling + 3 * p.strength + 3 * p.jumping + 3 * p.anticipation + 2
            * p.decisions,
        Profile::Generic => 2 * p.technique + 2 * p.decisions + 2 * p.stamina + 2 * p.strength + 2
            * p.work_rate,
    }
}

/// What one unit of the doubled weighted sum is worth in the scaled
/// score: 0.4 * SCORE_SCALE divided by the profile's doubled weight
/// sum (15, or 10 for the generalist profile).
pub open spec fn attr_unit(profile: Profile) -> int {
    match profile {
        Profile::Generic => 30_000_000,
        _ => 20_000_000,
    }
}

/// The scaled value-score component: 0.2 * SCORE_SCALE at market value
/// zero, falling linearly to zero at `VALUE_CAP` and clamped there.
pub open spec fn spec_value_component(value: int) -> int {
    if value >= VALUE_CAP {
        0
    } else {
        3 * (VALUE_CAP - value)
    }
}

/// The scaled suitability score of a record under a profile.
pub open spec fn spec_score(p: Player, profile: Profile) -> int {
    attr_unit(profile) * attr_weighted_sum(p, profile) + 1_500_000 * p.potential_ability
        + spec_value_component(p.value as int)
}

/// Selects the weighting profile for a target position,
/// case-insensitively: "st", "ST" and "St" all select the striker
/// profile, and an unrecognized position falls back to the generalist
/// profile.
pub fn profile_of(position: &str) -> (p: Profile)
    ensures
        p == spec_profile(position@),
{
    proof {
        reveal_strlit("st");
        reveal_strlit("cm");
        reveal_strlit("cb");
    }
    let low = lower_vec(position);
    if low.len() == 2 {
        let c0 = low[0];
        let c1 = low[1];
        if c0 == 's' && c1 == 't' {
            proof {
                assert(lower_seq(position@) =~= "st"@);
            }
            Profile::St
        } else if c0 == 'c' && c1 == 'm' {
            proof {
                assert(lower_seq(position@) =~= "cm"@);
            }
            Profile::Cm
        } else if c0 == 'c' && c1 == 'b' {
            proof {
                assert(lower_seq(position@) =~= "cb"@);
            }
            Profile::Cb
        } else {
            Profile::Generic
        }
    } else {
        Profile::Generic
    }
}

/// The scaled value-score component of a market value in base currency
/// units.
pub fn value_component(value: u64) -> (r: u64)
    ensures
        r == spec_value_component(value as int),
{
    if value >= VALUE_CAP {
        0
    } else {
        3 * (VALUE_CAP - value)
    }
}

impl Player {
    /// The scaled suitability score of this record under a weighting
    /// profile.
    pub fn score_for_profile(&self, profile: Profile) -> (s: u64)
        ensures
            s == spec_score(*self, profile),
    {
        let weighted: u64 = match profile {
            Profile::St => 20_000_000 * (4 * (self.finishing as u64) + 3 * (self.first_touch
                as u64) + 3 * (self.acceleration as u64) + 3 * (self.pace as u64) + 2
                * (self.composure as u64)),
            Profile::Cm => 20_000_000 * (4 * (self.passing as u64) + 3 * (self.vision as u64) + 3
                * (self.decisions as u64) + 2 * (self.stamina as u64) + 3 * (self.work_rate
                as u64)),
            Profile::Cb => 20_000_000 * (4 * (self.tackling as u64) + 3 * (self.strength as u64)
                + 3 * (self.jumping as u64) + 3 * (self.anticipation as u64) + 2 * (self.decisions
                as u64)),
            Profile::Generic => 30_000_000 * (2 * (self.technique as u64) + 2 * (self.decisions
                as u64) + 2 * (self.stamina as u64) + 2 * (self.strength as u64) + 2
                * (self.work_rate as u64)),
        };
        weighted + 1_500_000 * (self.potential_ability as u64) + value_component(self.value)
    }

    /// The scaled suitability score of this record for a target
    /// position: deterministic and total, a pure function of the
    /// record's fields and the position string alone.
    pub fn calculate_score(&self, position: &str) -> (s: u64)
        ensures
            s == spec_score(*self, spec_profile(position@)),
    {
        let profile = profile_of(position);
        self.score_for_profile(profile)
    }
}

/// Profile selection is case-insensitive: two position strings with
/// the same lowercase folding select the same profile.
pub proof fn lemma_profile_case_insensitive(s: Seq<char>, t: Seq<char>)
    requires
        lower_seq(s) == lower_seq(t),
    ensures
        spec_profile(s) == spec_profile(t),
{
}

/// Scoring is case-insensitive in the position string: two position
/// strings with the same lowercase folding give every record the same
/// score.
pub proof fn lemma_score_case_insensitive(p: Player, s: Seq<char>, t: Seq<char>)
    requires
        lower_seq(s) == lower_seq(t),
    ensures
        spec_score(p, spec_profile(s)) == spec_score(p, spec_profile(t)),
{
}

/// A position whose lowercase folding is none of the three recognized
/// codes scores under the generalist profile.
pub proof fn lemma_unrecognized_position_generic(s: Seq<char>)
    requires
        lower_seq(s) != "st"@,
        lower_seq(s) != "cm"@,
        lower_seq(s) != "cb"@,
    ensures
        spec_profile(s) == Profile::Generic,
{
}

/// The boundary values of the value-score component: a free record
/// earns the full 0.2 * SCORE_SCALE, the cap and everything above it
/// earn zero, and the midpoint earns exactly half.
pub proof fn lemma_value_score_boundary(value: int)
    ensures
        value == 0 ==> spec_value_component(value) == 150_000_000,
        value >= VALUE_CAP ==> spec_value_component(value) == 0,
        value == 25_000_000 ==> spec_value_component(value) == 75_000_000,
{
}

} // verus!
