//! Write-once storage of records by address.

use crate::address::Address;
use vstd::prelude::*;

verus! {

struct Entry<T> {
    key: Address,
    record: T,
}

/// Records keyed by address. A record is written once, under a key that
/// holds none yet, and is never changed or removed.
pub struct Store<T> {
    entries: Vec<Entry<T>>,
}

impl<T> Store<T> {
    /// No two records stand under the same key. Every store that `new` and
    /// `insert_new` build has this.
    pub closed spec fn wf(&self) -> bool {
        forall|i: int, j: int|
            0 <= i < j < self.entries@.len() ==> self.entries@[i].key@ != self.entries@[j].key@
    }

    spec fn holds_at(&self, key: Seq<u8>, i: int) -> bool {
        0 <= i < self.entries@.len() && self.entries@[i].key@ == key
    }

    /// The records as a map from the bytes of a key to the record under it.
    pub closed spec fn view(&self) -> Map<Seq<u8>, T> {
        Map::new(
            |key: Seq<u8>| exists|i: int| self.holds_at(key, i),
            |key: Seq<u8>| self.entries@[choose|i: int| self.holds_at(key, i)].record,
        )
    }

    /// A store without records.
    pub fn new() -> (store: Store<T>)
        ensures
            store.wf(),
            store@ == Map::<Seq<u8>, T>::empty(),
    {
        let store = Store { entries: Vec::new() };
        assert(store@ =~= Map::<Seq<u8>, T>::empty());
        store
    }

    fn position(&self, key: &Address) -> (r: Option<usize>)
        ensures
            match r {
                Some(i) => self.holds_at(key@, i as int),
                None => forall|i: int| !self.holds_at(key@, i),
            },
    {
        let mut i: usize = 0;
        while i < self.entries.len()
            invariant
                i <= self.entries@.len(),
                forall|j: int| 0 <= j < i ==> self.entries@[j].key@ != key@,
            decreases self.entries@.len() - i,
        {
            if self.entries[i].key.same(key) {
                return Some(i);
            }
            i += 1;
        }
        None
    }

    /// Whether a record stands under `key`.
    pub fn contains(&self, key: &Address) -> (r: bool)
        ensures
            r == self@.contains_key(key@),
    {
        self.position(key).is_some()
    }

    /// The record under `key`, if there is one.
    pub fn get(&self, key: &Address) -> (r: Option<&T>)
        requires
            self.wf(),
        ensures
            match r {
                Some(record) => self@.contains_key(key@) && *record == self@[key@],
                None => !self@.contains_key(key@),
            },
    {
        match self.position(key) {
            Some(i) => {
                proof {
                    let c = choose|c: int| self.holds_at(key@, c);
                    assert(self.holds_at(key@, i as int));
                    assert(c == i);
                }
                Some(&self.entries[i].record)
            },
            None => None,
        }
    }

    /// Writes `record` under `key` if no record stands there yet. Returns
    /// whether it was written; otherwise the store is left as it was.
    pub fn insert_new(&mut self, key: Address, record: T) -> (written: bool)
        requires
            old(self).wf(),
        ensures
            final(self).wf(),
            written == !old(self)@.contains_key(key@),
            written ==> final(self)@ == old(self)@.insert(key@, record),
            !written ==> final(self)@ == old(self)@,
    {
        if self.position(&key).is_some() {
            return false;
        }
        let ghost before = *self;
        self.entries.push(Entry { key, record });
        proof {
            let after = *self;
            let n = before.entries@.len() as int;
            assert(after.holds_at(key@, n));
            assert forall|i: int, j: int| 0 <= i < j < after.entries@.len() implies after.entries@[i].key@
                != after.entries@[j].key@ by {
                if j == n {
                    assert(!before.holds_at(key@, i));
                }
            }
            assert(after.wf());
            assert forall|k: Seq<u8>| after@.contains_key(k) <==> before@.insert(
                key@,
                record,
            ).contains_key(k) by {
                if after@.contains_key(k) {
                    let i = choose|i: int| after.holds_at(k, i);
                    if i < n {
                        assert(before.holds_at(k, i));
                    }
                }
                if before@.contains_key(k) {
                    let i = choose|i: int| before.holds_at(k, i);
                    assert(after.holds_at(k, i));
                }
            }
            assert forall|k: Seq<u8>| after@.contains_key(k) implies after@[k] == before@.insert(
                key@,
                record,
            )[k] by {
                let i = choose|i: int| after.holds_at(k, i);
                if k == key@ {
                    assert(after.holds_at(k, n));
                    assert(i == n);
                } else {
                    assert(i < n);
                    assert(before.holds_at(k, i));
                    let j = choose|j: int| before.holds_at(k, j);
                    assert(after.holds_at(k, j));
                    assert(i == j);
                }
            }
            assert(after@ =~= before@.insert(key@, record));
        }
        true
    }
}

} // verus!
