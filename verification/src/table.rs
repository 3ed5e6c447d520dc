//! A small map that remembers the order in which its keys arrived. It is
//! viewed as the sequence of its entries, in which no key occurs twice.

use vstd::prelude::*;

verus! {

/// Whether an entry of `entries` stands under `key`.
pub open spec fn has_key<K, V>(entries: Seq<(K, V)>, key: K) -> bool {
    exists|i: int| 0 <= i < entries.len() && (#[trigger] entries[i]).0 == key
}

/// The position of the entry that stands under `key`.
pub open spec fn index_of_key<K, V>(entries: Seq<(K, V)>, key: K) -> int {
    choose|i: int| 0 <= i < entries.len() && (#[trigger] entries[i]).0 == key
}

/// The value stored under `key`, if there is one.
pub open spec fn lookup<K, V>(entries: Seq<(K, V)>, key: K) -> Option<V> {
    if has_key(entries, key) {
        Some(entries[index_of_key(entries, key)].1)
    } else {
        None
    }
}

/// No key stands for two entries.
pub open spec fn distinct_keys<K, V>(entries: Seq<(K, V)>) -> bool {
    forall|i: int, j: int|
        0 <= i < j < entries.len() ==> (#[trigger] entries[i]).0 != (#[trigger] entries[j]).0
}

/// The entries after `value` was stored under `key`: in the place of the
/// entry that stood there, or else at the end.
pub open spec fn put<K, V>(entries: Seq<(K, V)>, key: K, value: V) -> Seq<(K, V)> {
    if has_key(entries, key) {
        entries.update(index_of_key(entries, key), (key, value))
    } else {
        entries.push((key, value))
    }
}

/// The entries as a map from keys to values.
pub open spec fn as_map<K, V>(entries: Seq<(K, V)>) -> Map<K, V> {
    Map::new(|k: K| has_key(entries, k), |k: K| entries[index_of_key(entries, k)].1)
}

/// With distinct keys, a key is found at one position only.
pub proof fn key_position_is_unique<K, V>(entries: Seq<(K, V)>, i: int)
    requires
        distinct_keys(entries),
        0 <= i < entries.len(),
    ensures
        has_key(entries, entries[i].0),
        index_of_key(entries, entries[i].0) == i,
        lookup(entries, entries[i].0) == Some(entries[i].1),
{
    let j = index_of_key(entries, entries[i].0);
    if j < i {
        assert(entries[j].0 != entries[i].0);
    } else if i < j {
        assert(entries[i].0 != entries[j].0);
    }
}

/// Storing a value keeps the keys distinct. Afterwards the key leads to the
/// new value and every other key to what it led to before: as a map, the
/// entries are the old map with the one key set.
pub proof fn put_is_map_insert<K, V>(entries: Seq<(K, V)>, key: K, value: V)
    requires
        distinct_keys(entries),
    ensures
        distinct_keys(put(entries, key, value)),
        lookup(put(entries, key, value), key) == Some(value),
        forall|other: K| other != key ==> lookup(put(entries, key, value), other) == lookup(entries, other),
        as_map(put(entries, key, value)) == as_map(entries).insert(key, value),
{
    let after = put(entries, key, value);
    let at = if has_key(entries, key) {
        index_of_key(entries, key)
    } else {
        entries.len() as int
    };
    assert(after[at] == (key, value));
    assert forall|i: int| 0 <= i < after.len() && i != at implies (#[trigger] after[i])
        == entries[i] && entries[i].0 != key by {}
    assert(distinct_keys(after)) by {
        assert forall|i: int, j: int| 0 <= i < j < after.len() implies (#[trigger] after[i]).0 != (
        #[trigger] after[j]).0 by {
            if i != at && j != at {
                assert(entries[i].0 != entries[j].0);
            }
        }
    }
    key_position_is_unique(after, at);
    assert forall|other: K| other != key implies lookup(after, other) == lookup(entries, other) by {
        if has_key(entries, other) {
            let i = index_of_key(entries, other);
            assert(after[i] == entries[i]);
            key_position_is_unique(after, i);
            key_position_is_unique(entries, i);
        } else if has_key(after, other) {
            let i = index_of_key(after, other);
            assert(entries[i].0 == other);
        }
    }
    assert(as_map(after) =~= as_map(entries).insert(key, value)) by {
        assert forall|k: K| as_map(after).dom().contains(k) <==> as_map(entries).insert(
            key,
            value,
        ).dom().contains(k) by {
            if k != key {
                assert(lookup(after, k) == lookup(entries, k));
            }
        }
        assert forall|k: K| #[trigger] as_map(after).dom().contains(k) implies as_map(after)[k]
            == as_map(entries).insert(key, value)[k] by {
            if k != key {
                assert(lookup(after, k) == lookup(entries, k));
            } else {
                assert(lookup(after, key) == Some(value));
            }
        }
    }
}

/// A key that can be compared in executable code as its view is compared
/// in specifications.
pub trait Key: DeepView + Sized {
    fn same(&self, other: &Self) -> (r: bool)
        ensures
            r == (self.deep_view() == other.deep_view()),
    ;
}

impl Key for String {
    fn same(&self, other: &Self) -> (r: bool) {
        *self == *other
    }
}

impl Key for (String, String) {
    fn same(&self, other: &Self) -> (r: bool) {
        self.0 == other.0 && self.1 == other.1
    }
}

/// A map from keys to values that keeps its entries in arrival order.
#[derive(Debug)]
pub struct Table<K, V> {
    entries: Vec<(K, V)>,
}

impl<K: Key, V: DeepView> View for Table<K, V> {
    type V = Seq<(K::V, V::V)>;

    closed spec fn view(&self) -> Seq<(K::V, V::V)> {
        self.entries.deep_view()
    }
}

impl<K: Key, V: DeepView> Table<K, V> {
    /// No key stands for two entries.
    pub open spec fn wf(&self) -> bool {
        distinct_keys(self@)
    }

    /// The table without entries.
    pub fn new() -> (t: Self)
        ensures
            t@ == Seq::<(K::V, V::V)>::empty(),
            t.wf(),
    {
        let t = Table { entries: Vec::new() };
        assert(t.entries.deep_view() =~= Seq::<(K::V, V::V)>::empty());
        t
    }

    /// How many entries the table holds.
    pub fn len(&self) -> (n: usize)
        ensures
            n == self@.len(),
    {
        self.entries.len()
    }

    /// The entries in arrival order.
    pub fn entries(&self) -> (r: &Vec<(K, V)>)
        ensures
            r.deep_view() == self@,
    {
        &self.entries
    }

    /// The position of the entry under `key`.
    fn find(&self, key: &K) -> (r: Option<usize>)
        requires
            self.wf(),
        ensures
            match r {
                Some(i) => {
                    &&& has_key(self@, key.deep_view())
                    &&& i == index_of_key(self@, key.deep_view())
                    &&& i < self.entries.len()
                },
                None => !has_key(self@, key.deep_view()),
            },
    {
        let mut i: usize = 0;
        while i < self.entries.len()
            invariant
                i <= self.entries.len(),
                self.wf(),
                self@.len() == self.entries.len(),
                forall|k: int| 0 <= k < i ==> (#[trigger] self@[k]).0 != key.deep_view(),
            decreases self.entries.len() - i,
        {
            assert(self@[i as int] == self.entries[i as int].deep_view());
            if self.entries[i].0.same(key) {
                proof {
                    key_position_is_unique(self@, i as int);
                }
                return Some(i);
            }
            i += 1;
        }
        None
    }

    /// Whether an entry stands under `key`.
    pub fn contains_key(&self, key: &K) -> (r: bool)
        requires
            self.wf(),
        ensures
            r == has_key(self@, key.deep_view()),
    {
        self.find(key).is_some()
    }

    /// The value stored under `key`.
    pub fn get(&self, key: &K) -> (r: Option<&V>)
        requires
            self.wf(),
        ensures
            r.deep_view() == lookup(self@, key.deep_view()),
    {
        match self.find(key) {
            Some(i) => {
                assert(self@[i as int] == self.entries[i as int].deep_view());
                Some(&self.entries[i].1)
            },
            None => None,
        }
    }

    /// Stores `value` under `key`, in the place of what stood there.
    pub fn put(&mut self, key: K, value: V)
        requires
            old(self).wf(),
        ensures
            final(self).wf(),
            final(self)@ == put(old(self)@, key.deep_view(), value.deep_view()),
    {
        proof {
            put_is_map_insert(self@, key.deep_view(), value.deep_view());
        }
        match self.find(&key) {
            Some(i) => {
                self.entries.set(i, (key, value));
                assert(self.entries.deep_view() =~= old(self).entries.deep_view().update(
                    i as int,
                    (key.deep_view(), value.deep_view()),
                ));
            },
            None => {
                self.entries.push((key, value));
                assert(self.entries.deep_view() =~= old(self).entries.deep_view().push(
                    (key.deep_view(), value.deep_view()),
                ));
            },
        }
    }
}

} // verus!
