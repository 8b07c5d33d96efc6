//! The ocean: the beaches, and the central arena of shared reefs.
//!
//! The ocean creates every reef and owns the arena; crabs refer to reefs
//! by arena index, so any number of crabs can share one reef while the
//! arena keeps mutation exclusive to one caller at a time.

use vstd::prelude::*;
use crate::beach::Beach;
use crate::prey::Prey;
use crate::reef::Reef;

verus! {

/// `n` copies of the item `p`.
pub open spec fn repeated(p: Prey, n: nat) -> Seq<Prey> {
    Seq::new(n, |i: int| p)
}

/// What a freshly generated reef holds: the requested number of minnows
/// (speed 25), shrimp (energy 1), clams and algae.
pub open spec fn generated_reef_contents(
    n_minnows: u32,
    n_shrimp: u32,
    n_clams: u32,
    n_algae: u32,
) -> Seq<Prey> {
    repeated(Prey::Minnow { speed: 25u32 }, n_minnows as nat) + repeated(
        Prey::Shrimp { energy: 1u32 },
        n_shrimp as nat,
    ) + repeated(Prey::Clam, n_clams as nat) + repeated(Prey::Algae, n_algae as nat)
}

/// The beaches and the arena of reefs.
pub struct Ocean {
    beaches: Vec<Beach>,
    reefs: Vec<Reef>,
}

impl Ocean {
    pub closed spec fn beaches_spec(self) -> Seq<Beach> {
        self.beaches@
    }

    pub closed spec fn reefs_spec(self) -> Seq<Reef> {
        self.reefs@
    }

    pub fn new() -> (o: Ocean)
        ensures
            o.beaches_spec() == Seq::<Beach>::empty(),
            o.reefs_spec() == Seq::<Reef>::empty(),
    {
        Ocean { beaches: Vec::new(), reefs: Vec::new() }
    }

    pub fn add_beach(&mut self, beach: Beach)
        ensures
            final(self).beaches_spec() == old(self).beaches_spec().push(beach),
            final(self).reefs_spec() == old(self).reefs_spec(),
    {
        self.beaches.push(beach);
    }

    /// The beaches, in the order they were added.
    pub fn beaches(&self) -> (bs: &Vec<Beach>)
        ensures
            bs@ == self.beaches_spec(),
    {
        &self.beaches
    }

    /// The arena of reefs, in creation order.
    pub fn reefs(&self) -> (rs: &Vec<Reef>)
        ensures
            rs@ == self.reefs_spec(),
    {
        &self.reefs
    }

    /// Mutable access to the arena, for running hunts against it.
    pub fn reefs_mut(&mut self) -> (rs: &mut Vec<Reef>)
        ensures
            rs@ == old(self).reefs_spec(),
            final(self).reefs_spec() == final(rs)@,
            final(self).beaches_spec() == old(self).beaches_spec(),
    {
        &mut self.reefs
    }

    /// Creates a reef holding the requested number of each prey kind —
    /// minnows of speed 25 and shrimp of energy 1 — registers it in the
    /// arena, and returns its arena index.
    pub fn generate_reef(
        &mut self,
        n_minnows: u32,
        n_shrimp: u32,
        n_clams: u32,
        n_algae: u32,
    ) -> (rid: usize)
        ensures
            rid as int == old(self).reefs_spec().len(),
            final(self).beaches_spec() == old(self).beaches_spec(),
            final(self).reefs_spec().len() == old(self).reefs_spec().len() + 1,
            forall|k: int|
                0 <= k < old(self).reefs_spec().len() ==> final(self).reefs_spec()[k] == old(
                    self,
                ).reefs_spec()[k],
            final(self).reefs_spec()[rid as int]@ == generated_reef_contents(
                n_minnows,
                n_shrimp,
                n_clams,
                n_algae,
            ),
    {
        let ghost minnows: Seq<Prey> = repeated(Prey::Minnow { speed: 25u32 }, n_minnows as nat);
        let ghost shrimp: Seq<Prey> = repeated(Prey::Shrimp { energy: 1u32 }, n_shrimp as nat);
        let ghost clams: Seq<Prey> = repeated(Prey::Clam, n_clams as nat);

        let mut reef = Reef::new();
        let mut i: u32 = 0;
        proof {
            assert(reef@ =~= repeated((Prey::Minnow { speed: 25u32 }), 0nat));
        }
        while i < n_minnows
            invariant
                i <= n_minnows,
                reef@ == repeated((Prey::Minnow { speed: 25u32 }), i as nat),
            decreases n_minnows - i,
        {
            let minnow = Prey::new_minnow(25);
            reef.add_prey(minnow);
            proof {
                assert(reef@ =~= repeated((Prey::Minnow { speed: 25u32 }), (i + 1) as nat));
            }
            i = i + 1;
        }
        let mut i: u32 = 0;
        proof {
            assert(reef@ =~= minnows + repeated((Prey::Shrimp { energy: 1u32 }), 0nat));
        }
        while i < n_shrimp
            invariant
                i <= n_shrimp,
                minnows == repeated((Prey::Minnow { speed: 25u32 }), n_minnows as nat),
                reef@ == minnows + repeated((Prey::Shrimp { energy: 1u32 }), i as nat),
            decreases n_shrimp - i,
        {
            let shrimp_item = Prey::new_shrimp(1);
            reef.add_prey(shrimp_item);
            proof {
                assert(reef@ =~= minnows + repeated((Prey::Shrimp { energy: 1u32 }), (i + 1) as nat));
            }
            i = i + 1;
        }
        let mut i: u32 = 0;
        proof {
            assert(reef@ =~= (minnows + shrimp) + repeated(Prey::Clam, 0nat));
        }
        while i < n_clams
            invariant
                i <= n_clams,
                minnows == repeated((Prey::Minnow { speed: 25u32 }), n_minnows as nat),
                shrimp == repeated((Prey::Shrimp { energy: 1u32 }), n_shrimp as nat),
                reef@ == (minnows + shrimp) + repeated(Prey::Clam, i as nat),
            decreases n_clams - i,
        {
            let clam = Prey::new_clam();
            reef.add_prey(clam);
            proof {
                assert(reef@ =~= (minnows + shrimp) + repeated(Prey::Clam, (i + 1) as nat));
            }
            i = i + 1;
        }
        let mut i: u32 = 0;
        proof {
            assert(reef@ =~= ((minnows + shrimp) + clams) + repeated(Prey::Algae, 0nat));
        }
        while i < n_algae
            invariant
                i <= n_algae,
                minnows == repeated((Prey::Minnow { speed: 25u32 }), n_minnows as nat),
                shrimp == repeated((Prey::Shrimp { energy: 1u32 }), n_shrimp as nat),
                clams == repeated(Prey::Clam, n_clams as nat),
                reef@ == ((minnows + shrimp) + clams) + repeated(Prey::Algae, i as nat),
            decreases n_algae - i,
        {
            let algae = Prey::new_algae();
            reef.add_prey(algae);
            proof {
                assert(reef@ =~= ((minnows + shrimp) + clams) + repeated(Prey::Algae, (i + 1) as nat));
            }
            i = i + 1;
        }
        proof {
            assert(reef@ =~= generated_reef_contents(n_minnows, n_shrimp, n_clams, n_algae));
        }
        let rid = self.reefs.len();
        self.reefs.push(reef);
        rid
    }
}

} // verus!
