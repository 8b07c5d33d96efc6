//! Feeding preferences: a closed enumeration that gates what a crab catches.

use vstd::prelude::*;

verus! {

/// A feeding preference. A crab catches a prey item only when the item's
/// diet equals the crab's own.
#[derive(PartialEq, Eq, Structural, Debug, Clone, Copy)]
pub enum Diet {
    Plants,
    Meat,
    Shellfish,
}

impl Diet {
    /// The diet handed to crabs synthesized by breeding. The policy is a
    /// fixed, arbitrary pick from the enumeration; no caller may depend on
    /// which variant it is beyond what this contract states.
    pub fn random_diet() -> (d: Diet)
        ensures
            d == Diet::bred_diet(),
    {
        Diet::Plants
    }

    /// The fixed diet that `random_diet` picks.
    pub open spec fn bred_diet() -> Diet {
        Diet::Plants
    }
}

} // verus!
