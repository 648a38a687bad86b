//! A bounded table keyed by text that forgets its least recently used entry
//! first.

use vstd::prelude::*;
use crate::text::str_eq;

verus! {

/// One entry of a table.
pub struct Slot<V> {
    pub key: String,
    pub value: V,
}

/// A table of at most `capacity` entries, ordered from the least recently
/// stored to the most recently stored. No key occurs twice.
pub struct RecencyTable<V> {
    entries: Vec<Slot<V>>,
    capacity: usize,
}

/// The place of `key` in a table, looking from `from` on.
pub open spec fn find_key<W>(t: Seq<(Seq<char>, W)>, key: Seq<char>, from: int) -> Option<int>
    decreases t.len() - from,
{
    if from < 0 || from >= t.len() {
        None
    } else if t[from].0 == key {
        Some(from)
    } else {
        find_key(t, key, from + 1)
    }
}

/// The value stored under `key`.
pub open spec fn lookup<W>(t: Seq<(Seq<char>, W)>, key: Seq<char>) -> Option<W> {
    match find_key(t, key, 0) {
        Some(i) => Some(t[i].1),
        None => None,
    }
}

/// The table without the entry of `key`.
pub open spec fn without<W>(t: Seq<(Seq<char>, W)>, key: Seq<char>) -> Seq<(Seq<char>, W)> {
    match find_key(t, key, 0) {
        Some(i) => t.remove(i),
        None => t,
    }
}

/// The table with `value` stored under `key` as its most recent entry. An
/// earlier entry of the key is replaced; where the table would grow beyond
/// `capacity`, its least recent entry leaves.
pub open spec fn stored<W>(t: Seq<(Seq<char>, W)>, key: Seq<char>, value: W, capacity: nat) -> Seq<
    (Seq<char>, W),
> {
    let rest = without(t, key);
    if rest.len() >= capacity {
        rest.drop_first().push((key, value))
    } else {
        rest.push((key, value))
    }
}

/// No key occurs twice.
pub open spec fn distinct_keys<W>(t: Seq<(Seq<char>, W)>) -> bool {
    forall|i: int, j: int| 0 <= i < j < t.len() ==> (#[trigger] t[i]).0 != (#[trigger] t[j]).0
}

/// What [`find_key`] finds is the first entry of the key at or after `from`.
pub proof fn lemma_find_key<W>(t: Seq<(Seq<char>, W)>, key: Seq<char>, from: int)
    requires
        0 <= from,
    ensures
        match find_key(t, key, from) {
            Some(i) => from <= i < t.len() && t[i].0 == key && forall|j: int|
                from <= j < i ==> (#[trigger] t[j]).0 != key,
            None => forall|j: int| from <= j < t.len() ==> (#[trigger] t[j]).0 != key,
        },
    decreases t.len() - from,
{
    if from < t.len() && t[from].0 != key {
        lemma_find_key(t, key, from + 1);
    }
}

/// Storing keeps the keys distinct and the table within its capacity, and
/// what was stored is found again.
pub proof fn lemma_stored<W>(t: Seq<(Seq<char>, W)>, key: Seq<char>, value: W, capacity: nat)
    requires
        distinct_keys(t),
        t.len() <= capacity,
        capacity >= 1,
    ensures
        distinct_keys(stored(t, key, value, capacity)),
        stored(t, key, value, capacity).len() <= capacity,
        lookup(stored(t, key, value, capacity), key) == Some(value),
{
    lemma_find_key(t, key, 0);
    let rest = without(t, key);
    assert(distinct_keys(rest) && forall|j: int| 0 <= j < rest.len() ==> (#[trigger] rest[j]).0
        != key) by {
        match find_key(t, key, 0) {
            Some(i) => {
                assert forall|j: int| 0 <= j < rest.len() implies (#[trigger] rest[j]).0 != key by {
                    if j < i {
                        assert(rest[j] == t[j]);
                    } else {
                        assert(rest[j] == t[j + 1]);
                    }
                }
                assert forall|a: int, b: int| 0 <= a < b < rest.len() implies (#[trigger] rest[a]).0
                    != (#[trigger] rest[b]).0 by {
                    let a0 = if a < i {
                        a
                    } else {
                        a + 1
                    };
                    let b0 = if b < i {
                        b
                    } else {
                        b + 1
                    };
                    assert(rest[a] == t[a0]);
                    assert(rest[b] == t[b0]);
                }
            },
            None => {},
        }
    }
    let kept = if rest.len() >= capacity {
        rest.drop_first()
    } else {
        rest
    };
    let out = stored(t, key, value, capacity);
    assert(out == kept.push((key, value)));
    assert forall|j: int| 0 <= j < kept.len() implies (#[trigger] kept[j]).0 != key by {
        if rest.len() >= capacity {
            assert(kept[j] == rest[j + 1]);
        }
    }
    assert forall|a: int, b: int| 0 <= a < b < out.len() implies (#[trigger] out[a]).0 != (
    #[trigger] out[b]).0 by {
        if b < kept.len() {
            if rest.len() >= capacity {
                assert(kept[a] == rest[a + 1]);
                assert(kept[b] == rest[b + 1]);
            }
        } else {
            assert(out[a] == kept[a]);
        }
    }
    lemma_find_key(out, key, 0);
    assert(out[out.len() - 1].0 == key);
}

impl<V: View> RecencyTable<V> {
    /// The entries, the least recently stored first: each key with the view
    /// of its value.
    pub closed spec fn entries(&self) -> Seq<(Seq<char>, V::V)> {
        Seq::new(self.entries@.len(), |i: int| (self.entries@[i].key@, self.entries@[i].value@))
    }

    /// The largest number of entries.
    pub closed spec fn capacity(&self) -> nat {
        self.capacity as nat
    }

    /// The table is within its capacity and no key occurs twice.
    pub open spec fn wf(&self) -> bool {
        self.capacity() >= 1 && self.entries().len() <= self.capacity() && distinct_keys(self.entries())
    }

    /// An empty table.
    pub fn new(capacity: usize) -> (r: Self)
        requires
            capacity >= 1,
        ensures
            r.wf(),
            r.capacity() == capacity,
            r.entries() == Seq::<(Seq<char>, V::V)>::empty(),
    {
        RecencyTable { entries: Vec::new(), capacity }
    }

    /// The number of entries.
    pub fn len(&self) -> (n: usize)
        ensures
            n == self.entries().len(),
    {
        self.entries.len()
    }

    /// Takes the entry of `key` out of the table and returns its value.
    pub fn take(&mut self, key: &str) -> (r: Option<V>)
        ensures
            final(self).capacity() == old(self).capacity(),
            final(self).entries() == without(old(self).entries(), key@),
            match r {
                Some(v) => lookup(old(self).entries(), key@) == Some(v@),
                None => lookup(old(self).entries(), key@) is None,
            },
    {
        let ghost t = self.entries();
        let mut i: usize = 0;
        while i < self.entries.len()
            invariant
                i <= self.entries.len(),
                t == self.entries(),
                self.capacity == old(self).capacity,
                self.entries == old(self).entries,
                find_key(t, key@, 0) == find_key(t, key@, i as int),
            decreases self.entries.len() - i,
        {
            assert(t[i as int].0 == self.entries@[i as int].key@);
            if str_eq(self.entries[i].key.as_str(), key) {
                let slot = self.entries.remove(i);
                assert(self.entries() =~= t.remove(i as int));
                assert(t[i as int].1 == slot.value@);
                return Some(slot.value);
            }
            i = i + 1;
        }
        None
    }

    /// Stores `value` under `key`, which the table does not hold, as the most
    /// recent entry. A full table first drops its least recent entry.
    pub fn put(&mut self, key: String, value: V)
        requires
            old(self).capacity() >= 1,
            lookup(old(self).entries(), key@) is None,
        ensures
            final(self).capacity() == old(self).capacity(),
            final(self).entries() == stored(old(self).entries(), key@, value@, old(self).capacity()),
    {
        let ghost t = self.entries();
        if self.entries.len() >= self.capacity {
            let _ = self.entries.remove(0);
            assert(self.entries() =~= t.drop_first());
        }
        let ghost kept = self.entries();
        self.entries.push(Slot { key, value });
        assert(self.entries() =~= kept.push((key@, value@)));
    }
}

} // verus!
