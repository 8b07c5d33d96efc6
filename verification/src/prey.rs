//! Prey: the food items that live in reefs.
//!
//! The set of kinds is closed, so prey is a tagged union rather than an open
//! trait. Each kind has a fixed diet tag and an escape rule that is a pure
//! function of the pursuing crab's speed and the item's own recorded state.

use vstd::prelude::*;
use crate::crab::Crab;
use crate::diet::Diet;

verus! {

/// A food item. Each variant carries its own state:
/// a minnow its swimming speed, a shrimp its remaining energy.
#[derive(PartialEq, Eq, Structural, Debug)]
pub enum Prey {
    Minnow { speed: u32 },
    Shrimp { energy: u32 },
    Clam,
    Algae,
}

impl Prey {
    pub fn new_minnow(speed: u32) -> (p: Prey)
        ensures
            p == (Prey::Minnow { speed }),
    {
        Prey::Minnow { speed }
    }

    pub fn new_shrimp(energy: u32) -> (p: Prey)
        ensures
            p == (Prey::Shrimp { energy }),
    {
        Prey::Shrimp { energy }
    }

    pub fn new_clam() -> (p: Prey)
        ensures
            p == Prey::Clam,
    {
        Prey::Clam
    }

    pub fn new_algae() -> (p: Prey)
        ensures
            p == Prey::Algae,
    {
        Prey::Algae
    }

    /// The diet category this item belongs to, fixed per kind.
    pub open spec fn diet_spec(self) -> Diet {
        match self {
            Prey::Minnow { .. } => Diet::Meat,
            Prey::Shrimp { .. } => Diet::Meat,
            Prey::Clam => Diet::Shellfish,
            Prey::Algae => Diet::Plants,
        }
    }

    pub fn diet(&self) -> (d: Diet)
        ensures
            d == self.diet_spec(),
    {
        match self {
            Prey::Minnow { .. } => Diet::Meat,
            Prey::Shrimp { .. } => Diet::Meat,
            Prey::Clam => Diet::Shellfish,
            Prey::Algae => Diet::Plants,
        }
    }

    /// The escape rule: a minnow outswims any crab slower than itself, a
    /// shrimp darts away while it still has energy, clams and algae cannot
    /// flee. The outcome depends only on the crab's speed and the item's
    /// own state; no attempt changes the item.
    pub open spec fn escapes_from(self, crab_speed: u32) -> bool {
        match self {
            Prey::Minnow { speed } => speed > crab_speed,
            Prey::Shrimp { energy } => energy > 0,
            Prey::Clam => false,
            Prey::Algae => false,
        }
    }

    /// Attempts an escape from the pursuing crab.
    pub fn try_escape(&self, crab: &Crab) -> (escaped: bool)
        ensures
            escaped == self.escapes_from(crab.speed_spec()),
    {
        match self {
            Prey::Minnow { speed } => *speed > crab.speed(),
            Prey::Shrimp { energy } => *energy > 0,
            Prey::Clam => false,
            Prey::Algae => false,
        }
    }
}

} // verus!
