//! Thresholds at which the wording of sentences changed.

use vstd::prelude::*;

verus! {

/// A named moment, given as a season and an optional day, from which a wording changed.
#[derive(Clone, Copy, Debug, PartialEq, Eq, Structural, Hash)]
pub enum Breakpoints {
    /// From here a first-season enchantment is announced as an Item Enchantment success.
    Season1EnchantmentChange,
    /// From here the narrator decides how an attribute equality is worded.
    S1AttributeEqualChange,
}

/// A day in a season's order; an unknown day counts as the very start of its season.
pub open spec fn day_rank(day: Option<u16>) -> int {
    match day {
        Some(d) => d as int,
        None => -1,
    }
}

impl Breakpoints {
    pub open spec fn spec_threshold(self) -> (u32, Option<u16>) {
        match self {
            Breakpoints::Season1EnchantmentChange => (1, Some(200u16)),
            Breakpoints::S1AttributeEqualChange => (1, Some(215u16)),
        }
    }

    /// Whether `(season, day)` comes strictly before this threshold.
    pub open spec fn spec_before(self, season: u32, day: Option<u16>) -> bool {
        let (s, d) = self.spec_threshold();
        season < s || (season == s && day_rank(day) < day_rank(d))
    }

    /// The season and the optional day of this threshold.
    pub fn threshold(self) -> (r: (u32, Option<u16>))
        ensures
            r == self.spec_threshold(),
    {
        match self {
            Breakpoints::Season1EnchantmentChange => (1, Some(200)),
            Breakpoints::S1AttributeEqualChange => (1, Some(215)),
        }
    }

    /// Whether an event of `season` and `day` comes strictly before this threshold.
    pub fn before(self, season: u32, day: Option<u16>) -> (r: bool)
        ensures
            r == self.spec_before(season, day),
    {
        let (s, d) = self.threshold();
        if season != s {
            return season < s;
        }
        match (day, d) {
            (None, None) => false,
            (None, Some(_)) => true,
            (Some(_), None) => false,
            (Some(a), Some(b)) => a < b,
        }
    }

    /// Whether an event of `season` and `day` comes at or after this threshold.
    pub fn after(self, season: u32, day: Option<u16>) -> (r: bool)
        ensures
            r == !self.spec_before(season, day),
    {
        !self.before(season, day)
    }
}

} // verus!
