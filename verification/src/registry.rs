//! The session registry: for each connected identity its one live session.
//!
//! The registry is a plain value. Whoever shares it between connections puts
//! it behind a lock and holds the lock for the length of one call, so that a
//! lookup never sees half of a removal.

use vstd::prelude::*;

verus! {

/// One entry of the registry.
struct Slot<S> {
    identity: String,
    session: S,
}

/// The mapping from identity to live session. No identity has more than one
/// session: registering an identity again replaces its session.
pub struct Registry<S> {
    slots: Vec<Slot<S>>,
}

impl<S> Registry<S> {
    /// No two entries have the same identity. This holds of every registry.
    #[verifier::type_invariant]
    pub closed spec fn distinct(self) -> bool {
        forall|i: int, j: int|
            0 <= i < j < self.slots.len() ==> self.slots[i].identity@ != self.slots[j].identity@
    }

    /// Whether the entry at `index` is the one of `identity`.
    closed spec fn holds(self, index: int, identity: Seq<char>) -> bool {
        0 <= index < self.slots.len() && self.slots[index].identity@ == identity
    }

    /// The registered identities, each with its session.
    pub closed spec fn view(&self) -> Map<Seq<char>, S> {
        Map::new(
            |identity: Seq<char>| exists|index: int| self.holds(index, identity),
            |identity: Seq<char>| self.slots[choose|index: int| self.holds(index, identity)].session,
        )
    }

    /// The registered identities in the order in which they were first
    /// registered.
    pub closed spec fn order(&self) -> Seq<Seq<char>> {
        Seq::new(self.slots.len() as nat, |index: int| self.slots[index].identity@)
    }

    /// The entry at `index` is what the view holds for its identity.
    proof fn lemma_slot_in_view(self, index: int)
        requires
            self.distinct(),
            0 <= index < self.slots.len(),
        ensures
            self@.contains_key(self.slots[index].identity@),
            self@[self.slots[index].identity@] == self.slots[index].session,
    {
        let identity = self.slots[index].identity@;
        assert(self.holds(index, identity));
        let chosen = choose|at: int| self.holds(at, identity);
        assert(self.holds(chosen, identity));
        if chosen < index {
            assert(self.slots[chosen].identity@ != self.slots[index].identity@);
        } else if index < chosen {
            assert(self.slots[index].identity@ != self.slots[chosen].identity@);
        }
    }

    /// A registry whose entries are those of a map, and no others, has the map
    /// as its view.
    proof fn lemma_view_is(self, expected: Map<Seq<char>, S>)
        requires
            self.distinct(),
            forall|index: int|
                0 <= index < self.slots.len() ==> expected.contains_key(
                    (#[trigger] self.slots[index]).identity@,
                ) && expected[self.slots[index].identity@] == self.slots[index].session,
            forall|identity: Seq<char>| #[trigger]
                expected.contains_key(identity) ==> exists|index: int| self.holds(index, identity),
        ensures
            self@ == expected,
    {
        assert forall|identity: Seq<char>| self@.contains_key(identity) implies expected.contains_key(
            identity,
        ) && self@[identity] == expected[identity] by {
            let index = choose|index: int| self.holds(index, identity);
            assert(expected.contains_key(self.slots[index].identity@));
        }
        assert(self@ =~= expected);
    }

    /// The order lists exactly the registered identities, each once: there
    /// are as many sessions as identities in the order.
    pub proof fn lemma_order(self)
        requires
            self.distinct(),
        ensures
            self.order().no_duplicates(),
            forall|identity: Seq<char>|
                self@.contains_key(identity) <==> self.order().contains(identity),
            self@.dom() == self.order().to_set(),
            self@.dom().finite(),
            self@.dom().len() == self.order().len(),
    {
        assert forall|identity: Seq<char>| self@.contains_key(identity) implies self.order().contains(
            identity,
        ) by {
            let index = choose|index: int| self.holds(index, identity);
            assert(self.order()[index] == identity);
        }
        assert forall|identity: Seq<char>| self.order().contains(identity) implies self@.contains_key(
            identity,
        ) by {
            let index = choose|index: int|
                0 <= index < self.order().len() && self.order()[index] == identity;
            assert(self.holds(index, identity));
        }
        assert(self@.dom() =~= self.order().to_set());
        self.order().unique_seq_to_set();
        vstd::seq_lib::seq_to_set_is_finite(self.order());
    }

    /// A registry without sessions.
    pub fn new() -> (registry: Self)
        ensures
            registry@ == Map::<Seq<char>, S>::empty(),
            registry.order() == Seq::<Seq<char>>::empty(),
    {
        let registry = Registry { slots: Vec::new() };
        assert(registry@ =~= Map::<Seq<char>, S>::empty());
        assert(registry.order() =~= Seq::<Seq<char>>::empty());
        registry
    }

    /// Where the entry of `identity` stands, if it has one.
    fn position(&self, identity: &str) -> (found: Option<usize>)
        ensures
            match found {
                Some(index) => self.holds(index as int, identity@),
                None => forall|index: int| !self.holds(index, identity@),
            },
    {
        let mut index: usize = 0;
        while index < self.slots.len()
            invariant
                index <= self.slots.len(),
                forall|before: int| 0 <= before < index ==> !self.holds(before, identity@),
            decreases self.slots.len() - index,
        {
            if *self.slots[index].identity.as_str() == *identity {
                return Some(index);
            }
            index += 1;
        }
        None
    }

    /// Moves the entries out, leaving the registry empty until they are put
    /// back.
    fn take_slots(&mut self) -> (slots: Vec<Slot<S>>)
        ensures
            slots == old(self).slots,
            final(self).slots@ == Seq::<Slot<S>>::empty(),
    {
        let mut slots: Vec<Slot<S>> = Vec::new();
        core::mem::swap(&mut self.slots, &mut slots);
        slots
    }

    /// The number of live sessions.
    pub fn len(&self) -> (count: usize)
        ensures
            count == self.order().len(),
            count == self@.dom().len(),
    {
        proof {
            use_type_invariant(self);
            self.lemma_order();
        }
        self.slots.len()
    }

    /// Whether `identity` has a live session.
    pub fn contains(&self, identity: &str) -> (present: bool)
        ensures
            present == self@.contains_key(identity@),
    {
        self.position(identity).is_some()
    }

    /// The live session of `identity`, if it has one.
    pub fn get(&self, identity: &str) -> (session: Option<&S>)
        ensures
            match session {
                Some(found) => self@.contains_key(identity@) && *found == self@[identity@],
                None => !self@.contains_key(identity@),
            },
    {
        match self.position(identity) {
            Some(index) => {
                proof {
                    use_type_invariant(self);
                    self.lemma_slot_in_view(index as int);
                }
                Some(&self.slots[index].session)
            },
            None => None,
        }
    }

    /// The identity that was registered as the `index`-th.
    pub fn identity_at(&self, index: usize) -> (identity: &String)
        requires
            index < self.order().len(),
        ensures
            identity@ == self.order()[index as int],
    {
        &self.slots[index].identity
    }

    /// The live session of the identity that was registered as the `index`-th.
    pub fn session_at(&self, index: usize) -> (session: &S)
        requires
            index < self.order().len(),
        ensures
            self@.contains_key(self.order()[index as int]),
            *session == self@[self.order()[index as int]],
    {
        proof {
            use_type_invariant(self);
            self.lemma_slot_in_view(index as int);
        }
        &self.slots[index].session
    }

    /// Makes `session` the live session of `identity`. A session that the
    /// identity had before is replaced, and keeps its place in the order.
    pub fn register(&mut self, identity: String, session: S)
        ensures
            final(self)@ == old(self)@.insert(identity@, session),
            final(self).order() == if old(self)@.contains_key(identity@) {
                old(self).order()
            } else {
                old(self).order().push(identity@)
            },
    {
        proof {
            use_type_invariant(&*self);
        }
        let ghost before = *self;
        let ghost key = identity@;
        let ghost expected = before@.insert(key, session);
        let found = self.position(identity.as_str());
        let mut slots = self.take_slots();
        match found {
            Some(index) => {
                slots.set(index, Slot { identity, session });
                proof {
                    assert forall|i: int, j: int| 0 <= i < j < slots.len() implies slots[i].identity@
                        != slots[j].identity@ by {
                        assert(before.slots[i].identity@ != before.slots[j].identity@);
                    }
                }
            },
            None => {
                slots.push(Slot { identity, session });
                proof {
                    assert forall|i: int, j: int| 0 <= i < j < slots.len() implies slots[i].identity@
                        != slots[j].identity@ by {
                        if j == before.slots.len() {
                            assert(!before.holds(i, key));
                        } else {
                            assert(before.slots[i].identity@ != before.slots[j].identity@);
                        }
                    }
                }
            },
        }
        self.slots = slots;
        proof {
            let after = *self;
            let place = match found {
                Some(index) => index as int,
                None => before.slots.len() as int,
            };
            assert(after.holds(place, key));
            assert forall|index: int| 0 <= index < after.slots.len() implies expected.contains_key(
                (#[trigger] after.slots[index]).identity@,
            ) && expected[after.slots[index].identity@] == after.slots[index].session by {
                if index != place {
                    before.lemma_slot_in_view(index);
                    assert(before.holds(index, before.slots[index].identity@));
                }
            }
            assert forall|identity: Seq<char>| #[trigger]
                expected.contains_key(identity) implies exists|index: int|
                after.holds(index, identity) by {
                if identity != key {
                    let index = choose|index: int| before.holds(index, identity);
                    assert(after.holds(index, identity));
                }
            }
            after.lemma_view_is(expected);
            if found is Some {
                before.lemma_slot_in_view(place);
                assert(after.order() =~= before.order());
            } else {
                assert(!before@.contains_key(key)) by {
                    if before@.contains_key(key) {
                        let index = choose|index: int| before.holds(index, key);
                        assert(before.holds(index, key));
                    }
                }
                assert(after.order() =~= before.order().push(key));
            }
        }
    }

    /// Ends the live session of `identity`, if it has one, and hands it back.
    pub fn remove(&mut self, identity: &str) -> (removed: Option<S>)
        ensures
            final(self)@ == old(self)@.remove(identity@),
            removed == if old(self)@.contains_key(identity@) {
                Some(old(self)@[identity@])
            } else {
                None::<S>
            },
            final(self).order() == if old(self)@.contains_key(identity@) {
                old(self).order().remove(old(self).order().index_of(identity@))
            } else {
                old(self).order()
            },
    {
        proof {
            use_type_invariant(&*self);
        }
        let ghost before = *self;
        let ghost key = identity@;
        let index = match self.position(identity) {
            Some(index) => index,
            None => {
                proof {
                    assert(!before@.contains_key(key)) by {
                        if before@.contains_key(key) {
                            let index = choose|index: int| before.holds(index, key);
                            assert(before.holds(index, key));
                        }
                    }
                    assert(before@ =~= before@.remove(key));
                }
                return None;
            },
        };
        let ghost at = index as int;
        let ghost shifted = |i: int| if i < at { i } else { i + 1 };
        let mut slots = self.take_slots();
        let slot = slots.remove(index);
        proof {
            assert forall|i: int, j: int| 0 <= i < j < slots.len() implies slots[i].identity@
                != slots[j].identity@ by {
                assert(before.slots[shifted(i)].identity@ != before.slots[shifted(j)].identity@);
            }
        }
        self.slots = slots;
        proof {
            let after = *self;
            let expected = before@.remove(key);
            before.lemma_slot_in_view(at);
            assert forall|i: int| 0 <= i < after.slots.len() implies expected.contains_key(
                (#[trigger] after.slots[i]).identity@,
            ) && expected[after.slots[i].identity@] == after.slots[i].session by {
                before.lemma_slot_in_view(shifted(i));
                if shifted(i) < at {
                    assert(before.slots[shifted(i)].identity@ != before.slots[at].identity@);
                } else {
                    assert(before.slots[at].identity@ != before.slots[shifted(i)].identity@);
                }
            }
            assert forall|identity: Seq<char>| #[trigger]
                expected.contains_key(identity) implies exists|i: int|
                after.holds(i, identity) by {
                let i = choose|i: int| before.holds(i, identity);
                assert(after.holds(if i < at { i } else { i - 1 }, identity));
            }
            after.lemma_view_is(expected);
            before.lemma_order();
            assert(before.order()[at] == key);
            assert(before.order().index_of(key) == at);
            assert(after.order() =~= before.order().remove(at));
        }
        Some(slot.session)
    }
}

} // verus!
