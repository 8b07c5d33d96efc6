//! Reefs: pools of prey items shared by the crabs that forage from them.

use vstd::prelude::*;
use crate::prey::Prey;

verus! {

/// A pool of prey items. A reef is viewed as the sequence of items it
/// holds; crabs only care about the pool as a multiset, but the sequence
/// view also pins down which item `take_prey` removes.
pub struct Reef {
    prey: Vec<Prey>,
}

impl View for Reef {
    type V = Seq<Prey>;

    closed spec fn view(&self) -> Seq<Prey> {
        self.prey@
    }
}

impl Reef {
    pub fn new() -> (r: Reef)
        ensures
            r@ == Seq::<Prey>::empty(),
    {
        Reef { prey: Vec::new() }
    }

    /// The number of items currently in the pool.
    pub fn population(&self) -> (n: usize)
        ensures
            n == self@.len(),
    {
        self.prey.len()
    }

    /// Inserts an item into the pool.
    pub fn add_prey(&mut self, p: Prey)
        ensures
            final(self)@ == old(self)@.push(p),
    {
        self.prey.push(p);
    }

    /// Removes and returns one item from the pool — the most recently
    /// inserted one — or returns `None` when the pool is empty.
    pub fn take_prey(&mut self) -> (taken: Option<Prey>)
        ensures
            old(self)@.len() == 0 ==> taken is None && final(self)@ == old(self)@,
            old(self)@.len() > 0 ==> taken == Some(old(self)@.last()) && final(self)@
                == old(self)@.drop_last(),
    {
        self.prey.pop()
    }
}

} // verus!
