//! A finite map from byte-string keys to values.
//!
//! The table is a list of slots that is searched from the front, so the first
//! slot that holds a key decides its value. `insert` overwrites that slot when
//! there is one and appends a slot otherwise.

use vstd::prelude::*;
use crate::bytes::bytes_eq;

verus! {

struct Slot<V> {
    key: Vec<u8>,
    value: V,
}

/// What a list of slots maps each key to: the value of the first slot that
/// holds the key.
spec fn slots_map<V>(slots: Seq<Slot<V>>) -> Map<Seq<u8>, V>
    decreases slots.len(),
{
    if slots.len() == 0 {
        Map::empty()
    } else {
        slots_map(slots.drop_first()).insert(slots[0].key@, slots[0].value)
    }
}

/// No slot before `end` holds `key`.
spec fn absent_before<V>(slots: Seq<Slot<V>>, key: Seq<u8>, end: int) -> bool {
    forall|i: int| 0 <= i < end ==> (#[trigger] slots[i]).key@ != key
}

proof fn lemma_absent<V>(slots: Seq<Slot<V>>, key: Seq<u8>)
    requires
        absent_before(slots, key, slots.len() as int),
    ensures
        !slots_map(slots).contains_key(key),
    decreases slots.len(),
{
    if slots.len() > 0 {
        let rest = slots.drop_first();
        assert forall|i: int| 0 <= i < rest.len() implies (#[trigger] rest[i]).key@ != key by {
            assert(rest[i] == slots[i + 1]);
        }
        lemma_absent(rest, key);
        assert(slots[0].key@ != key);
    }
}

proof fn lemma_first_match<V>(slots: Seq<Slot<V>>, at: int)
    requires
        0 <= at < slots.len(),
        absent_before(slots, slots[at].key@, at),
    ensures
        slots_map(slots).contains_key(slots[at].key@),
        slots_map(slots)[slots[at].key@] == slots[at].value,
    decreases slots.len(),
{
    if at > 0 {
        let rest = slots.drop_first();
        assert(rest[at - 1] == slots[at]);
        assert forall|i: int| 0 <= i < at - 1 implies (#[trigger] rest[i]).key@ != slots[at].key@ by {
            assert(rest[i] == slots[i + 1]);
        }
        lemma_first_match(rest, at - 1);
        assert(slots[0].key@ != slots[at].key@);
    }
}

proof fn lemma_overwrite<V>(slots: Seq<Slot<V>>, at: int, slot: Slot<V>)
    requires
        0 <= at < slots.len(),
        slot.key@ == slots[at].key@,
        absent_before(slots, slot.key@, at),
    ensures
        slots_map(slots.update(at, slot)) == slots_map(slots).insert(slot.key@, slot.value),
    decreases slots.len(),
{
    let after = slots.update(at, slot);
    let rest = slots.drop_first();
    if at == 0 {
        assert(after.drop_first() =~= rest);
        assert(slots_map(after) =~= slots_map(slots).insert(slot.key@, slot.value));
    } else {
        assert(rest[at - 1] == slots[at]);
        assert forall|i: int| 0 <= i < at - 1 implies (#[trigger] rest[i]).key@ != slot.key@ by {
            assert(rest[i] == slots[i + 1]);
        }
        lemma_overwrite(rest, at - 1, slot);
        assert(after.drop_first() =~= rest.update(at - 1, slot));
        assert(slots[0].key@ != slot.key@);
        assert(slots_map(after) =~= slots_map(slots).insert(slot.key@, slot.value));
    }
}

proof fn lemma_append<V>(slots: Seq<Slot<V>>, slot: Slot<V>)
    requires
        absent_before(slots, slot.key@, slots.len() as int),
    ensures
        slots_map(slots.push(slot)) == slots_map(slots).insert(slot.key@, slot.value),
    decreases slots.len(),
{
    let after = slots.push(slot);
    if slots.len() == 0 {
        assert(after.drop_first() =~= slots);
        assert(slots_map(after) =~= slots_map(slots).insert(slot.key@, slot.value));
    } else {
        let rest = slots.drop_first();
        assert forall|i: int| 0 <= i < rest.len() implies (#[trigger] rest[i]).key@ != slot.key@ by {
            assert(rest[i] == slots[i + 1]);
        }
        lemma_append(rest, slot);
        assert(after.drop_first() =~= rest.push(slot));
        assert(slots[0].key@ != slot.key@);
        assert(slots_map(after) =~= slots_map(slots).insert(slot.key@, slot.value));
    }
}

/// A finite map from byte strings to values of type `V`.
pub struct Table<V> {
    slots: Vec<Slot<V>>,
}

impl<V> View for Table<V> {
    type V = Map<Seq<u8>, V>;

    closed spec fn view(&self) -> Map<Seq<u8>, V> {
        slots_map(self.slots@)
    }
}

impl<V: Copy> Table<V> {
    /// The table that holds nothing.
    pub fn new() -> (table: Self)
        ensures
            table@ == Map::<Seq<u8>, V>::empty(),
    {
        Table { slots: Vec::new() }
    }

    /// The first slot that holds `key`, if one does.
    fn position(&self, key: &Vec<u8>) -> (found: Option<usize>)
        ensures
            match found {
                Some(at) => {
                    &&& at < self.slots.len()
                    &&& self.slots@[at as int].key@ == key@
                    &&& absent_before(self.slots@, key@, at as int)
                },
                None => absent_before(self.slots@, key@, self.slots.len() as int),
            },
    {
        let mut i: usize = 0;
        while i < self.slots.len()
            invariant
                i <= self.slots.len(),
                absent_before(self.slots@, key@, i as int),
            decreases self.slots.len() - i,
        {
            if bytes_eq(&self.slots[i].key, key) {
                return Some(i);
            }
            i += 1;
        }
        None
    }

    /// The value stored under `key`, or `None` where the key was never stored.
    pub fn get(&self, key: &Vec<u8>) -> (value: Option<V>)
        ensures
            value == (if self@.contains_key(key@) {
                Some(self@[key@])
            } else {
                None
            }),
    {
        match self.position(key) {
            Some(at) => {
                proof {
                    lemma_first_match(self.slots@, at as int);
                }
                Some(self.slots[at].value)
            },
            None => {
                proof {
                    lemma_absent(self.slots@, key@);
                }
                None
            },
        }
    }

    /// Stores `value` under `key`, in place of what was stored there before.
    pub fn insert(&mut self, key: Vec<u8>, value: V)
        ensures
            final(self)@ == old(self)@.insert(key@, value),
    {
        let slot = Slot { key, value };
        match self.position(&slot.key) {
            Some(at) => {
                proof {
                    lemma_overwrite(self.slots@, at as int, slot);
                }
                self.slots.set(at, slot);
            },
            None => {
                proof {
                    lemma_append(self.slots@, slot);
                }
                self.slots.push(slot);
            },
        }
    }
}

} // verus!
