//! A keyed record store: at most one value under each 32-byte key.

use vstd::prelude::*;
use crate::error::WillError;
use crate::principal::bytes32_eq;

verus! {

/// For how long a record is kept alive after each successful write: seven
/// days, in seconds.
pub const LIFETIME_EXTENSION: u32 = 60 * 60 * 24 * 7;

/// One stored value and the key it is filed under.
struct Slot<T> {
    key: [u8; 32],
    value: T,
}

/// The mapping that a sequence of slots stands for. A later slot wins over an
/// earlier one with the same key.
spec fn slots_map<T>(slots: Seq<Slot<T>>) -> Map<Seq<u8>, T>
    decreases slots.len(),
{
    if slots.len() == 0 {
        Map::empty()
    } else {
        slots_map(slots.drop_last()).insert(slots.last().key@, slots.last().value)
    }
}

/// No two slots share a key.
spec fn keys_distinct<T>(slots: Seq<Slot<T>>) -> bool {
    forall|i: int, j: int| 0 <= i < j < slots.len() ==> slots[i].key@ != slots[j].key@
}

/// A key is mapped exactly when some slot carries it.
proof fn lemma_slots_map_dom<T>(slots: Seq<Slot<T>>, key: Seq<u8>)
    ensures
        slots_map(slots).contains_key(key) <==> exists|i: int|
            0 <= i < slots.len() && #[trigger] slots[i].key@ == key,
    decreases slots.len(),
{
    if slots.len() > 0 {
        let front = slots.drop_last();
        lemma_slots_map_dom(front, key);
        if slots_map(slots).contains_key(key) {
            if slots.last().key@ == key {
                assert(slots[slots.len() - 1].key@ == key);
            } else {
                let i = choose|i: int| 0 <= i < front.len() && #[trigger] front[i].key@ == key;
                assert(slots[i].key@ == key);
            }
        }
        if exists|i: int| 0 <= i < slots.len() && #[trigger] slots[i].key@ == key {
            let i = choose|i: int| 0 <= i < slots.len() && #[trigger] slots[i].key@ == key;
            if i < slots.len() - 1 {
                assert(front[i].key@ == key);
            }
        }
    }
}

/// With distinct keys, each slot's key is mapped to that slot's value.
proof fn lemma_slots_map_at<T>(slots: Seq<Slot<T>>, i: int)
    requires
        keys_distinct(slots),
        0 <= i < slots.len(),
    ensures
        slots_map(slots).contains_key(slots[i].key@),
        slots_map(slots)[slots[i].key@] == slots[i].value,
    decreases slots.len(),
{
    let front = slots.drop_last();
    if i < slots.len() - 1 {
        assert(keys_distinct(front)) by {
            assert forall|a: int, b: int| 0 <= a < b < front.len() implies front[a].key@
                != front[b].key@ by {
                assert(slots[a].key@ != slots[b].key@);
            }
        }
        lemma_slots_map_at(front, i);
        assert(slots[i].key@ != slots[slots.len() - 1].key@);
    }
}

/// With distinct keys, dropping one slot unmaps its key and nothing else.
proof fn lemma_slots_map_remove<T>(slots: Seq<Slot<T>>, i: int)
    requires
        keys_distinct(slots),
        0 <= i < slots.len(),
    ensures
        keys_distinct(slots.remove(i)),
        slots_map(slots.remove(i)) == slots_map(slots).remove(slots[i].key@),
    decreases slots.len(),
{
    let rest = slots.remove(i);
    assert(keys_distinct(rest)) by {
        assert forall|a: int, b: int| 0 <= a < b < rest.len() implies rest[a].key@
            != rest[b].key@ by {
            let a0 = if a < i { a } else { a + 1 };
            let b0 = if b < i { b } else { b + 1 };
            assert(slots[a0].key@ != slots[b0].key@);
        }
    }
    let front = slots.drop_last();
    assert(keys_distinct(front)) by {
        assert forall|a: int, b: int| 0 <= a < b < front.len() implies front[a].key@
            != front[b].key@ by {
            assert(slots[a].key@ != slots[b].key@);
        }
    }
    if i == slots.len() - 1 {
        assert(rest =~= front);
        lemma_slots_map_dom(front, slots[i].key@);
        if slots_map(front).contains_key(slots[i].key@) {
            let j = choose|j: int| 0 <= j < front.len() && #[trigger] front[j].key@ == slots[i].key@;
            assert(slots[j].key@ != slots[i].key@);
        }
        assert(slots_map(front) =~= slots_map(slots).remove(slots[i].key@));
    } else {
        lemma_slots_map_remove(front, i);
        assert(rest.drop_last() =~= front.remove(i));
        assert(rest.last() == slots.last());
        assert(slots[i].key@ != slots[slots.len() - 1].key@);
        assert(slots_map(rest) =~= slots_map(slots).remove(slots[i].key@));
    }
}

/// The records after an operation on `key` that ended in `outcome`: the new
/// record is stored under the key, or nothing has changed.
pub open spec fn records_after<T>(
    records: Map<Seq<u8>, T>,
    key: Seq<u8>,
    outcome: Result<T, WillError>,
) -> Map<Seq<u8>, T> {
    match outcome {
        Ok(record) => records.insert(key, record),
        Err(_) => records,
    }
}

/// How an outcome is reported to the caller: success as `Ok`, a refusal as
/// the error itself.
pub open spec fn reports<T, R>(outcome: Result<T, WillError>, result: Result<R, WillError>) -> bool {
    match outcome {
        Ok(_) => result is Ok,
        Err(error) => result == Err::<R, WillError>(error),
    }
}

/// A store of values of type `T`, each under its own 32-byte key.
pub struct Store<T> {
    slots: Vec<Slot<T>>,
}

impl<T> View for Store<T> {
    type V = Map<Seq<u8>, T>;

    closed spec fn view(&self) -> Map<Seq<u8>, T> {
        slots_map(self.slots@)
    }
}

impl<T> Store<T> {
    #[verifier::type_invariant]
    spec fn well_formed(&self) -> bool {
        keys_distinct(self.slots@)
    }

    /// An empty store.
    pub fn new() -> (store: Self)
        ensures
            store@ == Map::<Seq<u8>, T>::empty(),
    {
        Store { slots: Vec::new() }
    }

    /// The position of the slot that carries `key`, if there is one.
    fn position(&self, key: &[u8; 32]) -> (found: Option<usize>)
        ensures
            found matches Some(i) ==> i < self.slots.len() && self.slots[i as int].key == *key,
            found is None ==> forall|j: int|
                0 <= j < self.slots.len() ==> self.slots[j].key@ != key@,
    {
        let mut i: usize = 0;
        while i < self.slots.len()
            invariant
                i <= self.slots.len(),
                forall|j: int| 0 <= j < i ==> self.slots[j].key@ != key@,
            decreases self.slots.len() - i,
        {
            if bytes32_eq(&self.slots[i].key, key) {
                return Some(i);
            }
            assert(self.slots[i as int].key@ != key@) by {
                if self.slots[i as int].key@ == key@ {
                    assert(self.slots[i as int].key =~= *key);
                }
            }
            i = i + 1;
        }
        None
    }

    /// Whether a value is stored under `key`.
    pub fn has(&self, key: &[u8; 32]) -> (present: bool)
        ensures
            present == self@.contains_key(key@),
    {
        let found = self.position(key);
        proof {
            lemma_slots_map_dom(self.slots@, key@);
        }
        found.is_some()
    }

    /// The value stored under `key`.
    pub fn get(&self, key: &[u8; 32]) -> (value: Option<&T>)
        ensures
            value matches Some(v) ==> self@.contains_key(key@) && *v == self@[key@],
            value is None ==> !self@.contains_key(key@),
    {
        let found = self.position(key);
        proof {
            use_type_invariant(self);
            lemma_slots_map_dom(self.slots@, key@);
        }
        match found {
            Some(i) => {
                proof {
                    lemma_slots_map_at(self.slots@, i as int);
                }
                Some(&self.slots[i].value)
            },
            None => None,
        }
    }

    /// Removes and returns the value stored under `key`.
    pub fn take(&mut self, key: &[u8; 32]) -> (value: Option<T>)
        ensures
            value matches Some(v) ==> old(self)@.contains_key(key@) && v == old(self)@[key@],
            value is None ==> !old(self)@.contains_key(key@),
            final(self)@ == old(self)@.remove(key@),
    {
        let found = self.position(key);
        proof {
            use_type_invariant(&*self);
            lemma_slots_map_dom(self.slots@, key@);
        }
        match found {
            Some(i) => {
                proof {
                    lemma_slots_map_at(self.slots@, i as int);
                    lemma_slots_map_remove(self.slots@, i as int);
                }
                let mut slots: Vec<Slot<T>> = Vec::new();
                core::mem::swap(&mut self.slots, &mut slots);
                let slot = slots.remove(i);
                self.slots = slots;
                Some(slot.value)
            },
            None => {
                assert(self@ =~= self@.remove(key@));
                None
            },
        }
    }

    /// Stores `value` under `key`, in place of what was there.
    pub fn set(&mut self, key: [u8; 32], value: T)
        ensures
            final(self)@ == old(self)@.insert(key@, value),
    {
        let _ = self.take(&key);
        proof {
            use_type_invariant(&*self);
            lemma_slots_map_dom(self.slots@, key@);
        }
        let mut slots: Vec<Slot<T>> = Vec::new();
        core::mem::swap(&mut self.slots, &mut slots);
        let ghost before = slots@;
        slots.push(Slot { key, value });
        proof {
            assert(slots@.drop_last() =~= before);
            assert(keys_distinct(slots@)) by {
                assert forall|a: int, b: int| 0 <= a < b < slots@.len() implies slots@[a].key@
                    != slots@[b].key@ by {
                    if b < before.len() {
                        assert(before[a].key@ != before[b].key@);
                    } else {
                        assert(before[a].key@ != key@);
                    }
                }
            }
            assert(old(self)@.remove(key@).insert(key@, value) =~= old(self)@.insert(key@, value));
        }
        self.slots = slots;
    }
}

} // verus!
