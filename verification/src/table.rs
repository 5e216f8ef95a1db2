//! Keyed storage: a table from keys to values, and an append-only journal
//! that files values under keys and keeps their order.

use vstd::prelude::*;
use crate::types::Ident;

verus! {

/// The map that sends each key of `keys` to the value at the same place in
/// `vals`.
pub open spec fn paired<K, V>(keys: Seq<K>, vals: Seq<V>) -> Map<K, V> {
    Map::new(|k: K| keys.contains(k), |k: K| vals[keys.index_of(k)])
}

/// Whether `keys` and `vals` can be the two columns of a table: equally long
/// and with no key twice.
pub open spec fn pairable<K, V>(keys: Seq<K>, vals: Seq<V>) -> bool {
    keys.len() == vals.len() && keys.no_duplicates()
}

/// In the map of two columns, each key has the value at its own place.
pub proof fn paired_at<K, V>(keys: Seq<K>, vals: Seq<V>, i: int)
    requires
        pairable(keys, vals),
        0 <= i < keys.len(),
    ensures
        paired(keys, vals).dom().contains(keys[i]),
        paired(keys, vals)[keys[i]] == vals[i],
{
    assert(keys.contains(keys[i]));
    assert(keys.index_of(keys[i]) == i);
}

/// A finite map from keys to values, kept as two parallel vectors in which
/// no key occurs twice.
pub struct Table<K: Ident, V> {
    keys: Vec<K>,
    vals: Vec<V>,
}

impl<K: Ident, V> Table<K, V> {
    /// The two vectors run in parallel and no key occurs twice.
    pub closed spec fn wf(&self) -> bool {
        &&& self.keys@.len() == self.vals@.len()
        &&& self.keys@.no_duplicates()
    }

    /// The keys, in the order in which they were first inserted.
    pub closed spec fn keys(&self) -> Seq<K> {
        self.keys@
    }

    /// The value stored at each key.
    pub closed spec fn map(&self) -> Map<K, V> {
        paired(self.keys@, self.vals@)
    }

    /// A table with the given columns, where they can be the columns of one.
    pub fn from_parts(keys: Vec<K>, vals: Vec<V>) -> (r: Option<Self>)
        ensures
            r.is_some() == pairable(keys@, vals@),
            match r {
                Some(t) => t.wf() && t.keys() == keys@ && t.map() == paired(keys@, vals@),
                None => true,
            },
    {
        if keys.len() != vals.len() {
            return None;
        }
        let mut i: usize = 0;
        while i < keys.len()
            invariant
                i <= keys@.len(),
                forall|a: int, b: int| 0 <= a < b < i ==> keys@[a] != keys@[b],
            decreases keys@.len() - i,
        {
            let mut j: usize = 0;
            while j < i
                invariant
                    j <= i < keys@.len(),
                    forall|a: int| 0 <= a < j ==> keys@[a] != keys@[i as int],
                decreases i - j,
            {
                if keys[j].same(&keys[i]) {
                    return None;
                }
                j += 1;
            }
            i += 1;
        }
        Some(Table { keys, vals })
    }

    /// The two columns of the table, borrowed.
    pub fn parts(&self) -> (r: (&Vec<K>, &Vec<V>))
        requires
            self.wf(),
        ensures
            pairable(r.0@, r.1@),
            r.0@ == self.keys(),
            paired(r.0@, r.1@) == self.map(),
    {
        (&self.keys, &self.vals)
    }

    /// The two columns of the table: the keys in the order in which they
    /// were first inserted, and the value of each at the same place.
    pub fn into_parts(self) -> (r: (Vec<K>, Vec<V>))
        requires
            self.wf(),
        ensures
            pairable(r.0@, r.1@),
            r.0@ == self.keys(),
            paired(r.0@, r.1@) == self.map(),
    {
        (self.keys, self.vals)
    }

    /// A table that holds nothing.
    pub fn new() -> (t: Self)
        ensures
            t.wf(),
            t.keys() == Seq::<K>::empty(),
            t.map() == Map::<K, V>::empty(),
    {
        let t = Table { keys: Vec::new(), vals: Vec::new() };
        assert(t.map() =~= Map::<K, V>::empty());
        t
    }

    /// The keys are distinct, and they are exactly the keys of the map.
    pub proof fn keys_distinct(&self)
        requires
            self.wf(),
        ensures
            self.keys().no_duplicates(),
            forall|k: K| self.keys().contains(k) <==> self.map().dom().contains(k),
    {
    }

    /// The place of `key` in the column of keys, if it is there.
    fn position(&self, key: &K) -> (r: Option<usize>)
        ensures
            match r {
                Some(i) => i < self.keys@.len() && self.keys@[i as int] == *key,
                None => !self.keys@.contains(*key),
            },
    {
        let mut i: usize = 0;
        while i < self.keys.len()
            invariant
                i <= self.keys@.len(),
                forall|j: int| 0 <= j < i ==> self.keys@[j] != *key,
            decreases self.keys@.len() - i,
        {
            if self.keys[i].same(key) {
                return Some(i);
            }
            i += 1;
        }
        None
    }

    /// Whether a value is stored at `key`.
    pub fn contains(&self, key: &K) -> (r: bool)
        ensures
            r == self.map().dom().contains(*key),
    {
        self.position(key).is_some()
    }

    /// The value stored at `key`, if there is one.
    pub fn get(&self, key: &K) -> (r: Option<&V>)
        requires
            self.wf(),
        ensures
            match r {
                Some(v) => self.map().dom().contains(*key) && *v == self.map()[*key],
                None => !self.map().dom().contains(*key),
            },
    {
        match self.position(key) {
            Some(i) => {
                assert(self.keys@.index_of(*key) == i as int);
                Some(&self.vals[i])
            },
            None => None,
        }
    }

    /// Stores `value` at `key`, in place of what was there.
    pub fn insert(&mut self, key: K, value: V)
        requires
            old(self).wf(),
        ensures
            final(self).wf(),
            final(self).map() == old(self).map().insert(key, value),
            final(self).keys() == if old(self).map().dom().contains(key) {
                old(self).keys()
            } else {
                old(self).keys().push(key)
            },
    {
        match self.position(&key) {
            Some(i) => {
                self.vals.set(i, value);
                assert(self.keys@.index_of(key) == i as int);
                assert forall|k: K| self.keys@.contains(k) implies #[trigger] self.map()[k]
                    == old(self).map().insert(key, value)[k] by {
                    let j = self.keys@.index_of(k);
                    if k != key {
                        assert(j != i as int);
                    }
                }
                assert(self.map() =~= old(self).map().insert(key, value));
            },
            None => {
                self.keys.push(key);
                self.vals.push(value);
                let ghost n = old(self).keys@.len() as int;
                assert(self.keys@ == old(self).keys@.push(key));
                assert(self.keys@[n] == key);
                assert(self.keys@.no_duplicates()) by {
                    assert forall|a: int, b: int|
                        0 <= a < self.keys@.len() && 0 <= b < self.keys@.len() && a != b implies self.keys@[a]
                        != self.keys@[b] by {
                        if a < n {
                            assert(old(self).keys@.contains(self.keys@[a]));
                        }
                        if b < n {
                            assert(old(self).keys@.contains(self.keys@[b]));
                        }
                    }
                }
                assert(self.keys@.index_of(key) == n);
                assert forall|k: K| self.keys@.contains(k) implies (k == key || old(
                    self,
                ).keys@.contains(k)) by {
                    let j = self.keys@.index_of(k);
                    if j < n {
                        assert(old(self).keys@[j] == k);
                    }
                }
                assert forall|k: K| old(self).keys@.contains(k) implies self.keys@.contains(k)
                    && self.keys@.index_of(k) == old(self).keys@.index_of(k) by {
                    let j = old(self).keys@.index_of(k);
                    assert(self.keys@[j] == k);
                }
                assert(self.map() =~= old(self).map().insert(key, value));
            },
        }
    }
}

/// The values filed under `key`, in the order in which they were appended.
pub open spec fn filed_under<K, V>(entries: Seq<(K, V)>, key: K) -> Seq<V>
    decreases entries.len(),
{
    if entries.len() == 0 {
        Seq::empty()
    } else {
        let earlier = filed_under(entries.drop_last(), key);
        if entries.last().0 == key {
            earlier.push(entries.last().1)
        } else {
            earlier
        }
    }
}

/// Appending an entry extends the list of its own key and no other.
pub proof fn filed_under_push<K, V>(entries: Seq<(K, V)>, key: K, value: V, probe: K)
    ensures
        filed_under(entries.push((key, value)), probe) == if probe == key {
            filed_under(entries, probe).push(value)
        } else {
            filed_under(entries, probe)
        },
{
    assert(entries.push((key, value)).drop_last() =~= entries);
}

/// An append-only sequence of values, each filed under a key.
pub struct Journal<K: Ident, V: Copy> {
    entries: Vec<(K, V)>,
}

impl<K: Ident, V: Copy> Journal<K, V> {
    /// Every entry, oldest first.
    pub closed spec fn entries(&self) -> Seq<(K, V)> {
        self.entries@
    }

    /// A journal with the given entries, oldest first.
    pub fn from_entries(entries: Vec<(K, V)>) -> (j: Self)
        ensures
            j.entries() == entries@,
    {
        Journal { entries }
    }

    /// Every entry, oldest first.
    pub fn into_entries(self) -> (entries: Vec<(K, V)>)
        ensures
            entries@ == self.entries(),
    {
        self.entries
    }

    /// A journal without entries.
    pub fn new() -> (j: Self)
        ensures
            j.entries() == Seq::<(K, V)>::empty(),
    {
        Journal { entries: Vec::new() }
    }

    /// Files `value` under `key`, after everything filed before.
    pub fn append(&mut self, key: K, value: V)
        ensures
            final(self).entries() == old(self).entries().push((key, value)),
    {
        self.entries.push((key, value));
    }

    /// The values filed under `key`, oldest first.
    pub fn list(&self, key: &K) -> (out: Vec<V>)
        ensures
            out@ == filed_under(self.entries(), *key),
    {
        let mut out: Vec<V> = Vec::new();
        let mut i: usize = 0;
        while i < self.entries.len()
            invariant
                i <= self.entries@.len(),
                out@ == filed_under(self.entries@.take(i as int), *key),
            decreases self.entries@.len() - i,
        {
            proof {
                assert(self.entries@.take(i + 1).drop_last() =~= self.entries@.take(i as int));
            }
            if self.entries[i].0.same(key) {
                out.push(self.entries[i].1);
            }
            i += 1;
        }
        proof {
            assert(self.entries@.take(i as int) =~= self.entries@);
        }
        out
    }
}

} // verus!
