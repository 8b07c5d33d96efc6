//! Crabs: foraging agents, and the hunting algorithm over shared reefs.
//!
//! Reefs are shared by many crabs, so they live in a central arena — a
//! `Vec<Reef>` — and a crab records the arena indices of the reefs it has
//! discovered. A hunt mutates the arena through that vector; the crab
//! itself is never changed by hunting.

use vstd::prelude::*;
use vstd::multiset::Multiset;
use crate::color::Color;
use crate::cookbook::Cookbook;
use crate::cookbook::Recipe;
use crate::diet::Diet;
use crate::prey::Prey;
use crate::reef::Reef;

verus! {

broadcast use {vstd::seq_lib::group_to_multiset_ensures, vstd::multiset::group_multiset_axioms};

/// The multiset of escaped items recorded for the reef at arena index `k`:
/// each pending entry pairs an item with the position, in the crab's reef
/// list `rl`, of the reef it was taken from.
spec fn escaped_ms(entries: Seq<(Prey, usize)>, rl: Seq<usize>, k: int) -> Multiset<Prey>
    decreases entries.len(),
{
    if entries.len() == 0 {
        Multiset::empty()
    } else {
        let e = entries.last();
        let rest = escaped_ms(entries.drop_last(), rl, k);
        if (e.1 as int) < rl.len() && (rl[e.1 as int] as int) == k {
            rest.insert(e.0)
        } else {
            rest
        }
    }
}

proof fn lemma_escaped_ms_push(entries: Seq<(Prey, usize)>, rl: Seq<usize>, e: (Prey, usize), k: int)
    ensures
        escaped_ms(entries.push(e), rl, k) == if (e.1 as int) < rl.len() && (rl[e.1 as int] as int)
            == k {
            escaped_ms(entries, rl, k).insert(e.0)
        } else {
            escaped_ms(entries, rl, k)
        },
{
    assert(entries.push(e).drop_last() =~= entries);
    assert(entries.push(e).last() == e);
}

/// Every item counted by `escaped_ms` is the item of some pending entry.
proof fn lemma_escaped_ms_elem(entries: Seq<(Prey, usize)>, rl: Seq<usize>, k: int, p: Prey)
    requires
        escaped_ms(entries, rl, k).count(p) > 0,
    ensures
        exists|e: int| 0 <= e < entries.len() && (#[trigger] entries[e]).0 == p,
    decreases entries.len(),
{
    if entries.len() == 0 {
        assert(false);
    } else {
        let e = entries.last();
        if (e.1 as int) < rl.len() && (rl[e.1 as int] as int) == k && e.0 == p {
            assert(entries[entries.len() - 1].0 == p);
        } else {
            lemma_escaped_ms_elem(entries.drop_last(), rl, k, p);
            let w = choose|w: int|
                0 <= w < entries.drop_last().len() && (#[trigger] entries.drop_last()[w]).0 == p;
            assert(entries[w].0 == p);
        }
    }
}

proof fn lemma_ms_add_insert(m: Multiset<Prey>, n: Multiset<Prey>, p: Prey)
    ensures
        m.insert(p).add(n) == m.add(n).insert(p),
        m.add(n.insert(p)) == m.add(n).insert(p),
{
    assert(m.insert(p).add(n) =~= m.add(n).insert(p));
    assert(m.add(n.insert(p)) =~= m.add(n).insert(p));
}

/// The total number of items across all reefs of the arena; the hunt's
/// termination measure, since every attempt removes one item from it.
spec fn total_prey(reefs: Seq<Reef>) -> nat
    decreases reefs.len(),
{
    if reefs.len() == 0 {
        0
    } else {
        total_prey(reefs.drop_last()) + reefs.last()@.len()
    }
}

proof fn lemma_total_prey_congruent(r0: Seq<Reef>, r1: Seq<Reef>)
    requires
        r0.len() == r1.len(),
        forall|j: int| 0 <= j < r0.len() ==> (#[trigger] r1[j])@.len() == r0[j]@.len(),
    ensures
        total_prey(r0) == total_prey(r1),
    decreases r0.len(),
{
    if r0.len() > 0 {
        assert forall|j: int| 0 <= j < r0.drop_last().len() implies (#[trigger] r1.drop_last()[j])@.len()
            == r0.drop_last()[j]@.len() by {
            assert(r1.drop_last()[j] == r1[j]);
            assert(r0.drop_last()[j] == r0[j]);
        }
        lemma_total_prey_congruent(r0.drop_last(), r1.drop_last());
        assert(r1.last()@.len() == r0.last()@.len());
    }
}

/// How `total_prey` moves when exactly one reef's population changes.
proof fn lemma_total_prey_change(r0: Seq<Reef>, r1: Seq<Reef>, k: int)
    requires
        r0.len() == r1.len(),
        0 <= k < r0.len(),
        forall|j: int| 0 <= j < r0.len() && j != k ==> (#[trigger] r1[j])@.len() == r0[j]@.len(),
    ensures
        total_prey(r1) + r0[k]@.len() == total_prey(r0) + r1[k]@.len(),
    decreases r0.len(),
{
    if k == r0.len() - 1 {
        assert forall|j: int| 0 <= j < r0.drop_last().len() implies (#[trigger] r1.drop_last()[j])@.len()
            == r0.drop_last()[j]@.len() by {
            assert(r1.drop_last()[j] == r1[j]);
            assert(r0.drop_last()[j] == r0[j]);
        }
        lemma_total_prey_congruent(r0.drop_last(), r1.drop_last());
    } else {
        assert forall|j: int|
            0 <= j < r0.drop_last().len() && j != k implies (#[trigger] r1.drop_last()[j])@.len()
            == r0.drop_last()[j]@.len() by {
            assert(r1.drop_last()[j] == r1[j]);
            assert(r0.drop_last()[j] == r0[j]);
        }
        lemma_total_prey_change(r0.drop_last(), r1.drop_last(), k);
        assert(r0.drop_last()[k] == r0[k]);
        assert(r1.drop_last()[k] == r1[k]);
        assert(r1.last()@.len() == r0.last()@.len());
    }
}

/// A foraging agent with a fixed diet and speed, holding the arena indices
/// of the reefs it may forage from, in discovery order (duplicates allowed
/// when the same reef is discovered twice).
pub struct Crab {
    name: String,
    speed: u32,
    color: Color,
    diet: Diet,
    reefs: Vec<usize>,
}

impl Crab {
    pub closed spec fn name_spec(self) -> Seq<char> {
        self.name@
    }

    pub closed spec fn speed_spec(self) -> u32 {
        self.speed
    }

    pub closed spec fn color_spec(self) -> Color {
        self.color
    }

    pub closed spec fn diet_spec(self) -> Diet {
        self.diet
    }

    /// The arena indices of the discovered reefs, in discovery order.
    pub closed spec fn reefs_spec(self) -> Seq<usize> {
        self.reefs@
    }

    pub fn new(name: String, speed: u32, color: Color, diet: Diet) -> (c: Crab)
        ensures
            c.name_spec() == name@,
            c.speed_spec() == speed,
            c.color_spec() == color,
            c.diet_spec() == diet,
            c.reefs_spec() == Seq::<usize>::empty(),
    {
        Crab { name, speed, color, diet, reefs: Vec::new() }
    }

    pub fn name(&self) -> (n: &str)
        ensures
            n@ == self.name_spec(),
    {
        self.name.as_str()
    }

    pub fn speed(&self) -> (s: u32)
        ensures
            s == self.speed_spec(),
    {
        self.speed
    }

    pub fn color(&self) -> (c: &Color)
        ensures
            *c == self.color_spec(),
    {
        &self.color
    }

    pub fn diet(&self) -> (d: Diet)
        ensures
            d == self.diet_spec(),
    {
        self.diet
    }

    /// Records one more reef (by its arena index) that this crab may
    /// forage from. Nothing else about the crab changes.
    pub fn discover_reef(&mut self, reef: usize)
        ensures
            final(self).reefs_spec() == old(self).reefs_spec().push(reef),
            final(self).name_spec() == old(self).name_spec(),
            final(self).speed_spec() == old(self).speed_spec(),
            final(self).color_spec() == old(self).color_spec(),
            final(self).diet_spec() == old(self).diet_spec(),
    {
        self.reefs.push(reef);
    }

    /// Whether this crab can catch the item: the diets agree and the item
    /// cannot escape from a crab of this speed.
    pub open spec fn catchable(self, p: Prey) -> bool {
        p.diet_spec() == self.diet_spec() && !p.escapes_from(self.speed_spec())
    }

    /// Every reef index this crab has discovered points into the arena.
    pub open spec fn reefs_wf(self, reefs: Seq<Reef>) -> bool {
        forall|i: int|
            0 <= i < self.reefs_spec().len() ==> (#[trigger] self.reefs_spec()[i]) < reefs.len()
    }

    /// Whether the arena index `k` is one of this crab's discovered reefs.
    pub open spec fn discovered(self, k: int) -> bool {
        exists|i: int|
            0 <= i < self.reefs_spec().len() && ((#[trigger] self.reefs_spec()[i]) as int) == k
    }

    /// One catch drawn from the arena: the item `p` was catchable, came
    /// out of a discovered reef `k`, and that reef's pool lost exactly that
    /// one item; every other reef's pool is unchanged as a multiset.
    pub open spec fn caught_from(self, reefs0: Seq<Reef>, reefs1: Seq<Reef>, k: int, p: Prey) -> bool {
        &&& 0 <= k < reefs1.len()
        &&& self.discovered(k)
        &&& self.catchable(p)
        &&& reefs0[k]@.to_multiset() == reefs1[k]@.to_multiset().insert(p)
        &&& forall|j: int|
            0 <= j < reefs1.len() && j != k ==> (#[trigger] reefs1[j])@.to_multiset()
                == reefs0[j]@.to_multiset()
    }

    /// What a hunt does to the arena, relating the pools before (`reefs0`)
    /// and after (`reefs1`).
    ///
    /// Reefs the crab never discovered are untouched. A failed hunt leaves
    /// every pool unchanged as a multiset — every examined item was put
    /// back where it came from, none lost, none duplicated — and can only
    /// happen when no discovered reef held a catchable item at the start.
    /// A successful hunt consumes exactly one catchable item from one
    /// discovered reef and leaves every other pool unchanged.
    pub open spec fn hunt_post(self, reefs0: Seq<Reef>, reefs1: Seq<Reef>, caught: bool) -> bool {
        &&& reefs1.len() == reefs0.len()
        &&& forall|k: int|
            0 <= k < reefs1.len() && !self.discovered(k) ==> (
            #[trigger] reefs1[k])@ == reefs0[k]@
        &&& caught ==> exists|k: int, p: Prey| self.caught_from(reefs0, reefs1, k, p)
        &&& !caught ==> {
            &&& forall|k: int|
                0 <= k < reefs1.len() ==> (#[trigger] reefs1[k])@.to_multiset()
                    == reefs0[k]@.to_multiset()
            &&& forall|k: int, i: int|
                0 <= k < reefs0.len() && self.discovered(k) && 0 <= i
                    < reefs0[k]@.len() ==> !self.catchable(#[trigger] reefs0[k]@[i])
        }
    }

    /// Takes one item out of the arena: reefs are tried in discovery
    /// order, each once, and the first non-empty one yields its item,
    /// returned together with the position (in this crab's reef list) of
    /// the reef it came from. Returns `None` when every discovered reef is
    /// empty, leaving the arena untouched.
    fn catch_prey(&self, reefs: &mut Vec<Reef>) -> (res: Option<(Prey, usize)>)
        requires
            self.reefs_wf(old(reefs)@),
        ensures
            final(reefs)@.len() == old(reefs)@.len(),
            res is None ==> (forall|j: int|
                0 <= j < old(reefs)@.len() ==> (#[trigger] final(reefs)@[j])@ == old(reefs)@[j]@)
                && (forall|i: int|
                0 <= i < self.reefs_spec().len() ==> old(reefs)@[(
                #[trigger] self.reefs_spec()[i]) as int]@.len() == 0),
            res matches Some((p, i)) ==> {
                let k = self.reefs_spec()[i as int] as int;
                &&& (i as int) < self.reefs_spec().len()
                &&& old(reefs)@[k]@.len() > 0
                &&& p == old(reefs)@[k]@.last()
                &&& final(reefs)@[k]@ == old(reefs)@[k]@.drop_last()
                &&& forall|j: int|
                    0 <= j < old(reefs)@.len() && j != k ==> (#[trigger] final(reefs)@[j])@
                        == old(reefs)@[j]@
            },
    {
        let ghost reefs0: Seq<Reef> = reefs@;
        let mut i: usize = 0;
        while i < self.reefs.len()
            invariant
                reefs0 == old(reefs)@,
                self.reefs_wf(reefs@),
                reefs@.len() == reefs0.len(),
                forall|k: int| 0 <= k < reefs0.len() ==> (#[trigger] reefs@[k])@ == reefs0[k]@,
                i <= self.reefs_spec().len(),
                forall|j: int|
                    0 <= j < i ==> reefs0[(#[trigger] self.reefs_spec()[j]) as int]@.len() == 0,
            decreases self.reefs_spec().len() - i,
        {
            let rid = self.reefs[i];
            proof {
                assert(self.reefs_spec()[i as int] == rid);
            }
            let ghost pre: Seq<Reef> = reefs@;
            let reef = &mut reefs[rid];
            let taken = reef.take_prey();
            match taken {
                Some(p) => {
                    proof {
                        assert(pre[rid as int]@ == reefs0[rid as int]@);
                    }
                    return Some((p, i));
                }
                None => {
                    proof {
                        assert(pre[rid as int]@ == reefs0[rid as int]@);
                        assert forall|k: int| 0 <= k < reefs0.len() implies (
                        #[trigger] reefs@[k])@ == reefs0[k]@ by {
                            if k != rid as int {
                                assert(reefs@[k] == pre[k]);
                            }
                        }
                    }
                    i = i + 1;
                }
            }
        }
        None
    }

    /// Puts a rejected item back into the reef it was taken from;
    /// `reef_index` is the position of that reef in this crab's reef list.
    fn release_prey(&self, reefs: &mut Vec<Reef>, prey: Prey, reef_index: usize)
        requires
            self.reefs_wf(old(reefs)@),
            (reef_index as int) < self.reefs_spec().len(),
        ensures
            final(reefs)@.len() == old(reefs)@.len(),
            final(reefs)@[self.reefs_spec()[reef_index as int] as int]@ == old(reefs)@[self.reefs_spec()[
                reef_index as int] as int]@.push(prey),
            forall|j: int|
                0 <= j < old(reefs)@.len() && j != self.reefs_spec()[reef_index as int] as int ==> (
                #[trigger] final(reefs)@[j])@ == old(reefs)@[j]@,
    {
        let rid = self.reefs[reef_index];
        proof {
            assert(self.reefs_spec()[reef_index as int] == rid);
        }
        let reef = &mut reefs[rid];
        reef.add_prey(prey);
    }

    /// One hunt: repeatedly takes an item from the first non-empty
    /// discovered reef, lets it try to escape, and rejects it as well when
    /// its diet differs from the crab's; the first item that neither
    /// escapes nor is rejected is caught and consumed. Every rejected item
    /// is released back into the reef it was taken from before the hunt
    /// returns. Returns whether an item was caught.
    pub fn hunt(&self, reefs: &mut Vec<Reef>) -> (caught: bool)
        requires
            self.reefs_wf(old(reefs)@),
        ensures
            self.reefs_wf(final(reefs)@),
            self.hunt_post(old(reefs)@, final(reefs)@, caught),
    {
        let ghost reefs0: Seq<Reef> = reefs@;
        let ghost rl: Seq<usize> = self.reefs_spec();
        let mut escaped: Vec<(Prey, usize)> = Vec::new();
        let mut caught = false;
        let ghost mut caught_rid: usize = 0;
        let ghost mut caught_prey: Prey = Prey::Clam;

        loop
            invariant_except_break
                !caught,
            invariant
                self.reefs_wf(reefs@),
                reefs@.len() == reefs0.len(),
                rl == self.reefs_spec(),
                forall|e: int|
                    0 <= e < escaped@.len() ==> ((#[trigger] escaped@[e]).1 as int) < rl.len(),
                forall|e: int|
                    0 <= e < escaped@.len() ==> !self.catchable((#[trigger] escaped@[e]).0),
                forall|k: int|
                    0 <= k < reefs0.len() && !self.discovered(k) ==> (#[trigger] reefs@[k])@
                        == reefs0[k]@,
                !caught ==> forall|k: int|
                    0 <= k < reefs0.len() ==> reefs0[k]@.to_multiset() == (
                    #[trigger] reefs@[k])@.to_multiset().add(escaped_ms(escaped@, rl, k)),
                caught ==> {
                    &&& (caught_rid as int) < reefs0.len()
                    &&& self.discovered(caught_rid as int)
                    &&& self.catchable(caught_prey)
                    &&& reefs0[caught_rid as int]@.to_multiset() == reefs@[caught_rid as int]@.to_multiset().add(
                        escaped_ms(escaped@, rl, caught_rid as int)).insert(caught_prey)
                    &&& forall|k: int|
                        0 <= k < reefs0.len() && k != caught_rid as int ==> reefs0[k]@.to_multiset()
                            == (#[trigger] reefs@[k])@.to_multiset().add(
                        escaped_ms(escaped@, rl, k))
                },
            ensures
                !caught ==> forall|i: int|
                    0 <= i < rl.len() ==> reefs@[(#[trigger] rl[i]) as int]@.len() == 0,
            decreases total_prey(reefs@),
        {
            let ghost iter0: Seq<Reef> = reefs@;
            let ghost escaped0: Seq<(Prey, usize)> = escaped@;
            let res = self.catch_prey(reefs);
            match res {
                None => {
                    break ;
                }
                Some((prey, idx)) => {
                    let ghost rid: int = rl[idx as int] as int;
                    proof {
                        // the reef the item came from lost exactly that item
                        assert(iter0[rid]@ =~= reefs@[rid]@.push(prey));
                        assert(iter0[rid]@.to_multiset() == reefs@[rid]@.to_multiset().insert(
                            prey));
                        lemma_total_prey_change(iter0, reefs@, rid);
                        assert(rl[idx as int] == self.reefs_spec()[idx as int]);
                        assert(self.discovered(rl[idx as int] as int));
                    }
                    let escaped_now = prey.try_escape(self);
                    if escaped_now || prey.diet() != self.diet() {
                        escaped.push((prey, idx));
                        proof {
                            assert forall|k: int| 0 <= k < reefs0.len() implies reefs0[k]@.to_multiset()
                                == (#[trigger] reefs@[k])@.to_multiset().add(
                                escaped_ms(escaped@, rl, k)) by {
                                lemma_escaped_ms_push(escaped0, rl, (prey, idx), k);
                                if k == rid {
                                    lemma_ms_add_insert(
                                        reefs@[k]@.to_multiset(),
                                        escaped_ms(escaped0, rl, k),
                                        prey,
                                    );
                                } else {
                                    assert(reefs@[k]@ == iter0[k]@);
                                }
                            }
                        }
                    } else {
                        proof {
                            caught_rid = rl[idx as int];
                            caught_prey = prey;
                            lemma_ms_add_insert(
                                reefs@[rid]@.to_multiset(),
                                escaped_ms(escaped@, rl, rid),
                                prey,
                            );
                        }
                        caught = true;
                        break ;
                    }
                }
            }
        }

        proof {
            // On exhaustion every discovered reef has been emptied into the
            // escaped set, and everything in that set failed to be caught:
            // nothing catchable was in any discovered reef to begin with.
            if !caught {
                assert forall|k: int, i: int|
                    0 <= k < reefs0.len() && self.discovered(k) && 0 <= i
                        < reefs0[k]@.len() implies !self.catchable(#[trigger] reefs0[k]@[i]) by {
                    let w = choose|w: int| 0 <= w < rl.len() && ((#[trigger] rl[w]) as int) == k;
                    assert(reefs@[(rl[w]) as int]@.len() == 0);
                    assert(reefs@[k]@.to_multiset().len() == 0);
                    let p = reefs0[k]@[i];
                    assert(reefs0[k]@.contains(p));
                    assert(reefs0[k]@.to_multiset().count(p) > 0);
                    assert(reefs@[k]@.to_multiset().count(p) == 0);
                    assert(escaped_ms(escaped@, rl, k).count(p) > 0);
                    lemma_escaped_ms_elem(escaped@, rl, k, p);
                    let e = choose|e: int| 0 <= e < escaped@.len() && (#[trigger] escaped@[e]).0
                        == p;
                    assert(!self.catchable(escaped@[e].0));
                }
            }
        }
        while escaped.len() > 0
            invariant
                self.reefs_wf(reefs@),
                reefs@.len() == reefs0.len(),
                rl == self.reefs_spec(),
                forall|e: int|
                    0 <= e < escaped@.len() ==> ((#[trigger] escaped@[e]).1 as int) < rl.len(),
                forall|k: int|
                    0 <= k < reefs0.len() && !self.discovered(k) ==> (#[trigger] reefs@[k])@
                        == reefs0[k]@,
                !caught ==> forall|k: int|
                    0 <= k < reefs0.len() ==> reefs0[k]@.to_multiset() == (
                    #[trigger] reefs@[k])@.to_multiset().add(escaped_ms(escaped@, rl, k)),
                caught ==> {
                    &&& (caught_rid as int) < reefs0.len()
                    &&& self.discovered(caught_rid as int)
                    &&& self.catchable(caught_prey)
                    &&& reefs0[caught_rid as int]@.to_multiset() == reefs@[caught_rid as int]@.to_multiset().add(
                        escaped_ms(escaped@, rl, caught_rid as int)).insert(caught_prey)
                    &&& forall|k: int|
                        0 <= k < reefs0.len() && k != caught_rid as int ==> reefs0[k]@.to_multiset()
                            == (#[trigger] reefs@[k])@.to_multiset().add(
                        escaped_ms(escaped@, rl, k))
                },
            decreases escaped@.len(),
        {
            let ghost escaped_pre: Seq<(Prey, usize)> = escaped@;
            let ghost pre: Seq<Reef> = reefs@;
            let entry = escaped.pop();
            let (p, idx) = entry.unwrap();
            proof {
                assert(escaped@ =~= escaped_pre.drop_last());
                assert(escaped_pre.last() == (p, idx));
            }
            self.release_prey(reefs, p, idx);
            proof {
                let rid = rl[idx as int] as int;
                assert(reefs@[rid]@ == pre[rid]@.push(p));
                assert(reefs@[rid]@.to_multiset() == pre[rid]@.to_multiset().insert(p));
                // releasing moves the entry's item from the pending multiset
                // back into its pool, so pool-plus-pending stays the same
                assert forall|k: int| 0 <= k < reefs0.len() implies pre[k]@.to_multiset().add(
                    escaped_ms(escaped_pre, rl, k),
                ) == (#[trigger] reefs@[k])@.to_multiset().add(escaped_ms(escaped@, rl, k)) by {
                    assert(escaped_ms(escaped_pre, rl, k) == if (idx as int) < rl.len() && (
                    rl[idx as int] as int) == k {
                        escaped_ms(escaped_pre.drop_last(), rl, k).insert(p)
                    } else {
                        escaped_ms(escaped_pre.drop_last(), rl, k)
                    });
                    if k == rid {
                        lemma_ms_add_insert(
                            pre[k]@.to_multiset(),
                            escaped_ms(escaped@, rl, k),
                            p,
                        );
                    } else {
                        assert(reefs@[k]@ == pre[k]@);
                    }
                }
            }
        }

        proof {
            assert(escaped@.len() == 0);
            if caught {
                assert(escaped_ms(escaped@, rl, caught_rid as int) == Multiset::<Prey>::empty());
                assert(reefs@[caught_rid as int]@.to_multiset().add(
                    Multiset::<Prey>::empty(),
                ) =~= reefs@[caught_rid as int]@.to_multiset());
                assert forall|k: int|
                    0 <= k < reefs0.len() && k != caught_rid as int implies (
                #[trigger] reefs@[k])@.to_multiset() == reefs0[k]@.to_multiset() by {
                    assert(escaped_ms(escaped@, rl, k) == Multiset::<Prey>::empty());
                    assert(reefs@[k]@.to_multiset().add(Multiset::<Prey>::empty())
                        =~= reefs@[k]@.to_multiset());
                }
                assert(self.caught_from(reefs0, reefs@, caught_rid as int, caught_prey));
            } else {
                assert forall|k: int| 0 <= k < reefs0.len() implies (
                #[trigger] reefs@[k])@.to_multiset() == reefs0[k]@.to_multiset() by {
                    assert(escaped_ms(escaped@, rl, k) == Multiset::<Prey>::empty());
                    assert(reefs@[k]@.to_multiset().add(Multiset::<Prey>::empty())
                        =~= reefs@[k]@.to_multiset());
                }
            }
        }
        caught
    }

    /// Conservation law: a hunt never creates or loses items. A failed
    /// hunt leaves every reef's population unchanged; a successful hunt
    /// removes exactly one item, from one discovered reef, and leaves
    /// every other reef's population unchanged. Summed over any sequence
    /// of hunts, a reef that started with `N` items therefore holds `N`
    /// minus the number of successful catches drawn from it.
    pub proof fn lemma_hunt_conservation(
        crab: Crab,
        reefs0: Seq<Reef>,
        reefs1: Seq<Reef>,
        caught: bool,
    )
        requires
            crab.hunt_post(reefs0, reefs1, caught),
        ensures
            reefs1.len() == reefs0.len(),
            !caught ==> forall|k: int|
                0 <= k < reefs0.len() ==> (#[trigger] reefs1[k])@.len() == reefs0[k]@.len(),
            caught ==> exists|k: int|
                #![auto]
                0 <= k < reefs0.len() && crab.discovered(k) && reefs1[k]@.len() + 1
                    == reefs0[k]@.len() && (forall|j: int|
                    0 <= j < reefs0.len() && j != k ==> (#[trigger] reefs1[j])@.len()
                        == reefs0[j]@.len()),
    {
        if caught {
            let (k, p) = choose|k: int, p: Prey| crab.caught_from(reefs0, reefs1, k, p);
            assert(reefs0[k]@.to_multiset() == reefs1[k]@.to_multiset().insert(p));
            assert(reefs1[k]@.to_multiset().insert(p).len() == reefs1[k]@.to_multiset().len()
                + 1);
            assert(reefs0[k]@.to_multiset().len() == reefs0[k]@.len());
            assert(reefs1[k]@.to_multiset().len() == reefs1[k]@.len());
            assert forall|j: int|
                0 <= j < reefs0.len() && j != k implies (#[trigger] reefs1[j])@.len()
                == reefs0[j]@.len() by {
                assert(reefs1[j]@.to_multiset() == reefs0[j]@.to_multiset());
                assert(reefs1[j]@.to_multiset().len() == reefs1[j]@.len());
                assert(reefs0[j]@.to_multiset().len() == reefs0[j]@.len());
            }
            assert(0 <= k < reefs0.len() && crab.discovered(k) && reefs1[k]@.len() + 1
                == reefs0[k]@.len() && (forall|j: int|
                0 <= j < reefs0.len() && j != k ==> (#[trigger] reefs1[j])@.len()
                    == reefs0[j]@.len()));
        } else {
            assert forall|k: int|
                0 <= k < reefs0.len() implies (#[trigger] reefs1[k])@.len() == reefs0[k]@.len() by {
                assert(reefs1[k]@.to_multiset() == reefs0[k]@.to_multiset());
                assert(reefs1[k]@.to_multiset().len() == reefs1[k]@.len());
                assert(reefs0[k]@.to_multiset().len() == reefs0[k]@.len());
            }
        }
    }

    /// No-duplication law: when a hunt fails, every examined item was
    /// released back, unchanged, into the reef it was taken from — each
    /// reef ends with exactly the items it started with, none synthesized
    /// and none dropped.
    pub proof fn lemma_no_duplication(crab: Crab, reefs0: Seq<Reef>, reefs1: Seq<Reef>)
        requires
            crab.hunt_post(reefs0, reefs1, false),
        ensures
            forall|k: int|
                0 <= k < reefs0.len() ==> (#[trigger] reefs1[k])@.to_multiset()
                    == reefs0[k]@.to_multiset(),
    {
    }

    /// Diet-gating law: a crab hunting reefs that hold only items of a
    /// diet other than its own never catches, and every reef's population
    /// is unchanged afterwards — everything it examined escaped back home.
    pub proof fn lemma_diet_gating(
        crab: Crab,
        reefs0: Seq<Reef>,
        reefs1: Seq<Reef>,
        caught: bool,
    )
        requires
            crab.hunt_post(reefs0, reefs1, caught),
            forall|k: int, i: int|
                0 <= k < reefs0.len() && crab.discovered(k) && 0 <= i < reefs0[k]@.len() ==> (
                #[trigger] reefs0[k]@[i]).diet_spec() != crab.diet_spec(),
        ensures
            !caught,
            forall|k: int|
                0 <= k < reefs0.len() ==> (#[trigger] reefs1[k])@.len() == reefs0[k]@.len(),
    {
        if caught {
            let (k, p) = choose|k: int, p: Prey| crab.caught_from(reefs0, reefs1, k, p);
            assert(reefs0[k]@.to_multiset().count(p) > 0);
            assert(reefs0[k]@.contains(p));
            let i = choose|i: int| 0 <= i < reefs0[k]@.len() && reefs0[k]@[i] == p;
            assert(reefs0[k]@[i].diet_spec() != crab.diet_spec());
            assert(crab.catchable(p));
            assert(false);
        }
        Self::lemma_hunt_conservation(crab, reefs0, reefs1, caught);
    }

    /// Exhaustion law: a crab with no discovered reefs never catches, and
    /// a hunt by it mutates nothing anywhere in the arena.
    pub proof fn lemma_exhaustion(crab: Crab, reefs0: Seq<Reef>, reefs1: Seq<Reef>, caught: bool)
        requires
            crab.hunt_post(reefs0, reefs1, caught),
            crab.reefs_spec().len() == 0,
        ensures
            !caught,
            reefs1.len() == reefs0.len(),
            forall|k: int| 0 <= k < reefs0.len() ==> (#[trigger] reefs1[k])@ == reefs0[k]@,
    {
        if caught {
            let (k, p) = choose|k: int, p: Prey| crab.caught_from(reefs0, reefs1, k, p);
            assert(crab.discovered(k));
            assert(false);
        }
    }

    /// Returns the first recipe in the cookbook that suits this crab's
    /// diet, or `None` when no recipe does.
    pub fn choose_recipe<'a>(&'a self, cookbook: &'a Cookbook) -> (res: Option<&'a Recipe>)
        ensures
            res matches Some(r) ==> exists|i: int|
                #![auto]
                0 <= i < cookbook@.len() && *r == cookbook@[i] && r.diet_spec() == self.diet_spec()
                    && (forall|j: int|
                    0 <= j < i ==> cookbook@[j].diet_spec() != self.diet_spec()),
            res is None ==> forall|j: int|
                #![auto]
                0 <= j < cookbook@.len() ==> cookbook@[j].diet_spec() != self.diet_spec(),
    {
        let recipes = cookbook.recipes();
        let mut i: usize = 0;
        while i < recipes.len()
            invariant
                i <= recipes@.len(),
                recipes@ == cookbook@,
                forall|j: int| 0 <= j < i ==> (#[trigger] cookbook@[j]).diet_spec()
                    != self.diet_spec(),
            decreases recipes@.len() - i,
        {
            let r = &recipes[i];
            if r.diet() == self.diet {
                return Some(r);
            }
            i = i + 1;
        }
        None
    }
}

} // verus!
