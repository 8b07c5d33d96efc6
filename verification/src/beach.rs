//! Beaches: ordered collections of crabs, with queries and breeding.

use vstd::prelude::*;
use crate::color::Color;
use crate::crab::Crab;
use crate::diet::Diet;

verus! {

/// The failure of an operation that was handed an index outside the
/// beach's current crab count; the beach is left untouched.
#[derive(PartialEq, Eq, Structural, Debug, Clone, Copy)]
pub enum BeachError {
    IndexOutOfBounds,
}

/// An ordered collection of crabs, exclusively owned.
pub struct Beach {
    crabs: Vec<Crab>,
}

impl View for Beach {
    type V = Seq<Crab>;

    closed spec fn view(&self) -> Seq<Crab> {
        self.crabs@
    }
}

/// What breeding promises of the child: speed fixed at one, color the
/// wraparound cross of the parents' colors, the fixed breeding diet, the
/// given name, and no discovered reefs yet.
pub open spec fn bred_crab_post(child: Crab, mom: Crab, pap: Crab, name: Seq<char>) -> bool {
    &&& child.name_spec() == name
    &&& child.speed_spec() == 1
    &&& child.color_spec().r as int == (mom.color_spec().r as int + pap.color_spec().r as int)
        % 256
    &&& child.color_spec().g as int == (mom.color_spec().g as int + pap.color_spec().g as int)
        % 256
    &&& child.color_spec().b as int == (mom.color_spec().b as int + pap.color_spec().b as int)
        % 256
    &&& child.diet_spec() == Diet::bred_diet()
    &&& child.reefs_spec() == Seq::<usize>::empty()
}

impl Beach {
    pub fn new() -> (b: Beach)
        ensures
            b@ == Seq::<Crab>::empty(),
    {
        Beach { crabs: Vec::new() }
    }

    /// The number of crabs on the beach.
    pub fn size(&self) -> (n: usize)
        ensures
            n == self@.len(),
    {
        self.crabs.len()
    }

    /// Appends a crab; the new crab comes last.
    pub fn add_crab(&mut self, crab: Crab)
        ensures
            final(self)@ == old(self)@.push(crab),
    {
        self.crabs.push(crab);
    }

    pub fn get_crab(&self, index: usize) -> (c: &Crab)
        requires
            index < self@.len(),
        ensures
            *c == self@[index as int],
    {
        &self.crabs[index]
    }

    /// The crabs, in the order they were added.
    pub fn crabs(&self) -> (cs: &Vec<Crab>)
        ensures
            cs@ == self@,
    {
        &self.crabs
    }

    /// Returns `None` on an empty beach, else the crab with the highest
    /// speed; ties go to the earliest such crab.
    pub fn get_fastest_crab(&self) -> (res: Option<&Crab>)
        ensures
            res is None <==> self@.len() == 0,
            res matches Some(c) ==> exists|i: int|
                #![auto]
                0 <= i < self@.len() && *c == self@[i] && (forall|j: int|
                    0 <= j < self@.len() ==> (#[trigger] self@[j]).speed_spec()
                        <= c.speed_spec()) && (forall|j: int|
                    0 <= j < i ==> (#[trigger] self@[j]).speed_spec() < c.speed_spec()),
    {
        if self.crabs.len() == 0 {
            None
        } else {
            let mut best: usize = 0;
            let mut idx: usize = 1;
            while idx < self.crabs.len()
                invariant
                    (best as int) < idx <= self@.len(),
                    forall|j: int|
                        0 <= j < idx ==> (#[trigger] self@[j]).speed_spec()
                            <= self@[best as int].speed_spec(),
                    forall|j: int|
                        0 <= j < best ==> (#[trigger] self@[j]).speed_spec()
                            < self@[best as int].speed_spec(),
                decreases self@.len() - idx,
            {
                if self.crabs[idx].speed() > self.crabs[best].speed() {
                    best = idx;
                }
                idx = idx + 1;
            }
            Some(&self.crabs[best])
        }
    }

    /// All crabs with the given name, in beach order.
    pub fn find_crabs_by_name(&self, name: &str) -> (res: Vec<&Crab>)
        ensures
            res@.map_values(|c: &Crab| *c) == crabs_named(self@, name@),
    {
        let needle: String = name.to_owned();
        let mut found: Vec<&Crab> = Vec::new();
        let mut i: usize = 0;
        proof {
            assert(self@.take(0) =~= Seq::<Crab>::empty());
            assert(found@.map_values(|c: &Crab| *c) =~= crabs_named(self@.take(0), name@));
        }
        while i < self.crabs.len()
            invariant
                i <= self@.len(),
                needle@ == name@,
                found@.map_values(|c: &Crab| *c) == crabs_named(self@.take(i as int), name@),
            decreases self@.len() - i,
        {
            let ghost pre: Seq<&Crab> = found@;
            let crab = &self.crabs[i];
            let crab_name: String = crab.name().to_owned();
            if crab_name == needle {
                found.push(crab);
            }
            proof {
                lemma_crabs_named_take_step(self@, name@, i as int);
                if crab.name_spec() == name@ {
                    assert(found@ =~= pre.push(crab));
                    assert(found@.map_values(|c: &Crab| *c) =~= pre.map_values(|c: &Crab| *c).push(
                        *crab));
                }
            }
            i = i + 1;
        }
        proof {
            assert(self@.take(self@.len() as int) =~= self@);
        }
        found
    }

    /// Breeds the crabs at `i` and `j`: appends a new crab with speed 1,
    /// the crossed color of the parents, and the fixed breeding diet.
    pub fn breed_crabs(&mut self, i: usize, j: usize, name: String)
        requires
            i < old(self)@.len(),
            j < old(self)@.len(),
        ensures
            final(self)@.len() == old(self)@.len() + 1,
            forall|k: int| 0 <= k < old(self)@.len() ==> final(self)@[k] == old(self)@[k],
            bred_crab_post(
                final(self)@.last(),
                old(self)@[i as int],
                old(self)@[j as int],
                name@,
            ),
    {
        let mom = self.get_crab(i);
        let pap = self.get_crab(j);
        let new_crab = Crab::new(
            name,
            1,
            Color::cross(mom.color(), pap.color()),
            Diet::random_diet(),
        );
        self.add_crab(new_crab);
    }

    /// Like `breed_crabs`, but checks the indices: on an out-of-range
    /// index it reports the error and leaves the beach exactly as it was,
    /// with no half-constructed crab.
    pub fn try_breed_crabs(&mut self, i: usize, j: usize, name: String) -> (res: Result<
        (),
        BeachError,
    >)
        ensures
            res is Ok <==> i < old(self)@.len() && j < old(self)@.len(),
            res is Ok ==> final(self)@.len() == old(self)@.len() + 1 && (forall|k: int|
                0 <= k < old(self)@.len() ==> final(self)@[k] == old(self)@[k]) && bred_crab_post(
                final(self)@.last(),
                old(self)@[i as int],
                old(self)@[j as int],
                name@,
            ),
            res matches Err(e) ==> e == BeachError::IndexOutOfBounds && final(self)@ == old(
                self,
            )@,
    {
        if i < self.crabs.len() && j < self.crabs.len() {
            self.breed_crabs(i, j, name);
            Ok(())
        } else {
            Err(BeachError::IndexOutOfBounds)
        }
    }
}

/// The subsequence of `crabs` whose name is `name`, in order.
pub open spec fn crabs_named(crabs: Seq<Crab>, name: Seq<char>) -> Seq<Crab> {
    crabs.filter(|c: Crab| c.name_spec() == name)
}

proof fn lemma_crabs_named_take_step(crabs: Seq<Crab>, name: Seq<char>, i: int)
    requires
        0 <= i < crabs.len(),
    ensures
        crabs_named(crabs.take(i + 1), name) == if crabs[i].name_spec() == name {
            crabs_named(crabs.take(i), name).push(crabs[i])
        } else {
            crabs_named(crabs.take(i), name)
        },
{
    reveal(Seq::filter);
    assert(crabs.take(i + 1).drop_last() =~= crabs.take(i));
    assert(crabs.take(i + 1).last() == crabs[i]);
}

} // verus!
