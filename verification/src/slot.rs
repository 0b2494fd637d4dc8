//! Queues held under distinct keys.

use vstd::prelude::*;

verus! {

/// A queue and the key that it was registered under.
pub struct Slot<K, Q> {
    pub key: K,
    pub queue: Q,
}

/// No key occurs twice.
pub open spec fn keys_distinct<K, Q>(slots: Seq<Slot<K, Q>>) -> bool {
    forall|i: int, j: int|
        0 <= i < slots.len() && 0 <= j < slots.len() && slots[i].key == slots[j].key ==> i == j
}

/// Some slot holds this key.
pub open spec fn has_key<K, Q>(slots: Seq<Slot<K, Q>>, key: K) -> bool {
    exists|i: int| 0 <= i < slots.len() && slots[i].key == key
}

/// The place of the slot that holds this key.
pub open spec fn index_of<K, Q>(slots: Seq<Slot<K, Q>>, key: K) -> int {
    choose|i: int| 0 <= i < slots.len() && slots[i].key == key
}

/// The two sequences hold the same keys at the same places.
pub open spec fn same_keys<K, Q>(a: Seq<Slot<K, Q>>, b: Seq<Slot<K, Q>>) -> bool {
    &&& a.len() == b.len()
    &&& forall|i: int| 0 <= i < a.len() ==> a[i].key == b[i].key
}

/// Where keys are distinct, a key is found at the one place that holds it.
pub proof fn lemma_index_of<K, Q>(slots: Seq<Slot<K, Q>>, i: int)
    requires
        keys_distinct(slots),
        0 <= i < slots.len(),
    ensures
        has_key(slots, slots[i].key),
        index_of(slots, slots[i].key) == i,
{
    let j = index_of(slots, slots[i].key);
    assert(0 <= j < slots.len() && slots[j].key == slots[i].key);
}

/// Sequences with the same keys hold the same keys, and find each at the
/// same place if the keys are distinct.
pub proof fn lemma_same_keys<K, Q>(a: Seq<Slot<K, Q>>, b: Seq<Slot<K, Q>>, key: K)
    requires
        same_keys(a, b),
        keys_distinct(a),
    ensures
        keys_distinct(b),
        has_key(a, key) == has_key(b, key),
        has_key(a, key) ==> index_of(a, key) == index_of(b, key),
{
    assert forall|i: int, j: int|
        0 <= i < b.len() && 0 <= j < b.len() && b[i].key == b[j].key implies i == j by {
        assert(a[i].key == a[j].key);
    }
    if has_key(a, key) {
        let i = index_of(a, key);
        assert(b[i].key == key);
        lemma_index_of(b, i);
    }
    if has_key(b, key) {
        let i = index_of(b, key);
        assert(a[i].key == key);
    }
}

/// The queues by key: each key that is held, with what its queue holds.
pub open spec fn slot_map<K, Q: View>(slots: Seq<Slot<K, Q>>) -> Map<K, Q::V> {
    Map::new(
        |key: K| has_key(slots, key),
        |key: K| slots[index_of(slots, key)].queue@,
    )
}

/// A new slot under a key that was not held adds that key.
pub proof fn lemma_slot_map_push<K, Q: View>(slots: Seq<Slot<K, Q>>, slot: Slot<K, Q>)
    requires
        keys_distinct(slots),
        !has_key(slots, slot.key),
    ensures
        keys_distinct(slots.push(slot)),
        slot_map(slots.push(slot)) == slot_map(slots).insert(slot.key, slot.queue@),
{
    let after = slots.push(slot);
    assert forall|i: int, j: int|
        0 <= i < after.len() && 0 <= j < after.len() && after[i].key == after[j].key implies i
        == j by {
        if i < slots.len() && j < slots.len() {
            assert(slots[i].key == slots[j].key);
        }
    }
    assert(after[slots.len() as int].key == slot.key);
    lemma_index_of(after, slots.len() as int);
    assert forall|key: K| has_key(after, key) == (key == slot.key || has_key(slots, key)) by {
        if has_key(after, key) {
            let i = index_of(after, key);
            if i < slots.len() {
                assert(slots[i].key == key);
            }
        }
        if has_key(slots, key) {
            let i = index_of(slots, key);
            assert(after[i].key == key);
        }
    }
    assert forall|key: K| has_key(slots, key) implies slot_map(after)[key] == slot_map(
        slots,
    )[key] by {
        let i = index_of(slots, key);
        assert(after[i].key == key);
        lemma_index_of(after, i);
    }
    assert(slot_map(after) =~= slot_map(slots).insert(slot.key, slot.queue@));
}

/// Changing the queue of one slot changes the entry of its key and no other.
pub proof fn lemma_slot_map_update<K, Q: View>(
    before: Seq<Slot<K, Q>>,
    after: Seq<Slot<K, Q>>,
    i: int,
)
    requires
        keys_distinct(before),
        same_keys(before, after),
        0 <= i < before.len(),
        forall|j: int| 0 <= j < before.len() && j != i ==> after[j].queue@ == before[j].queue@,
    ensures
        keys_distinct(after),
        slot_map(before).contains_key(before[i].key),
        slot_map(after) == slot_map(before).insert(before[i].key, after[i].queue@),
{
    lemma_index_of(before, i);
    assert forall|key: K|
        has_key(before, key) == has_key(after, key) && (has_key(before, key) ==> index_of(
            before,
            key,
        ) == index_of(after, key)) by {
        lemma_same_keys(before, after, key);
    }
    lemma_same_keys(before, after, before[i].key);
    assert(slot_map(after) =~= slot_map(before).insert(before[i].key, after[i].queue@));
}

/// Changing every queue in the same way changes every entry in that way.
pub proof fn lemma_slot_map_values<K, Q: View>(
    before: Seq<Slot<K, Q>>,
    after: Seq<Slot<K, Q>>,
    change: spec_fn(Q::V) -> Q::V,
)
    requires
        keys_distinct(before),
        same_keys(before, after),
        forall|j: int| 0 <= j < before.len() ==> after[j].queue@ == change(before[j].queue@),
    ensures
        keys_distinct(after),
        slot_map(after) == slot_map(before).map_values(change),
{
    assert forall|key: K|
        has_key(before, key) == has_key(after, key) && (has_key(before, key) ==> index_of(
            before,
            key,
        ) == index_of(after, key)) by {
        lemma_same_keys(before, after, key);
    }
    if before.len() > 0 {
        lemma_same_keys(before, after, before[0].key);
    } else {
        assert(keys_distinct(after));
    }
    assert(slot_map(after) =~= slot_map(before).map_values(change));
}

/// Looks for the slot with this key.
pub fn find_slot<Q>(slots: &Vec<Slot<u16, Q>>, key: u16) -> (found: Option<usize>)
    ensures
        found is Some == has_key(slots@, key),
        found matches Some(i) ==> i < slots.len() && slots[i as int].key == key,
{
    let mut i: usize = 0;
    while i < slots.len()
        invariant
            i <= slots.len(),
            forall|j: int| 0 <= j < i ==> slots[j].key != key,
        decreases slots.len() - i,
    {
        if slots[i].key == key {
            return Some(i);
        }
        i += 1;
    }
    None
}

/// Looks for the slot with this pair of keys.
pub fn find_pair_slot<Q>(slots: &Vec<Slot<(u16, u16), Q>>, first: u16, second: u16) -> (found:
    Option<usize>)
    ensures
        found is Some == has_key(slots@, (first, second)),
        found matches Some(i) ==> i < slots.len() && slots[i as int].key == (first, second),
{
    let mut i: usize = 0;
    while i < slots.len()
        invariant
            i <= slots.len(),
            forall|j: int| 0 <= j < i ==> slots[j].key != (first, second),
        decreases slots.len() - i,
    {
        if slots[i].key.0 == first && slots[i].key.1 == second {
            return Some(i);
        }
        i += 1;
    }
    None
}

} // verus!
