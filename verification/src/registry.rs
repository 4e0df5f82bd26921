//! Values registered under string keys, in registration order.
use vstd::prelude::*;
use vstd::string::*;

use crate::text::str_eq;

verus! {

/// Values registered under string keys. Registering under a key that is
/// already present replaces its value in place, so each key occurs at most
/// once and the order of first registration is kept.
pub struct KeyedList<V> {
    entries: Vec<(String, V)>,
}

/// The abstract entries: (key, value) pairs in order.
pub open spec fn entries_view<V>(es: Seq<(String, V)>) -> Seq<(Seq<char>, V)> {
    es.map_values(|e: (String, V)| (e.0@, e.1))
}

/// Each key occurs at most once.
pub open spec fn keys_unique<V>(s: Seq<(Seq<char>, V)>) -> bool {
    forall|i: int, j: int| 0 <= i < j < s.len() ==> s[i].0 != s[j].0
}

/// The value registered first under `key`.
pub open spec fn lookup<V>(s: Seq<(Seq<char>, V)>, key: Seq<char>) -> Option<V>
    decreases s.len(),
{
    if s.len() == 0 {
        None
    } else if lookup(s.drop_last(), key) is Some {
        lookup(s.drop_last(), key)
    } else if s.last().0 == key {
        Some(s.last().1)
    } else {
        None
    }
}

/// The position of the first entry under `key`, or -1.
pub open spec fn key_index<V>(s: Seq<(Seq<char>, V)>, key: Seq<char>) -> int
    decreases s.len(),
{
    if s.len() == 0 {
        -1
    } else if key_index(s.drop_last(), key) >= 0 {
        key_index(s.drop_last(), key)
    } else if s.last().0 == key {
        s.len() - 1
    } else {
        -1
    }
}

/// Registering `value` under `key`: the first entry under `key` gets the new
/// value in place, or the pair is added at the end.
pub open spec fn upserted<V>(s: Seq<(Seq<char>, V)>, key: Seq<char>, value: V) -> Seq<(Seq<char>, V)> {
    if key_index(s, key) >= 0 {
        s.update(key_index(s, key), (key, value))
    } else {
        s.push((key, value))
    }
}

/// The entries without those under `key`, in order.
pub open spec fn removed<V>(s: Seq<(Seq<char>, V)>, key: Seq<char>) -> Seq<(Seq<char>, V)>
    decreases s.len(),
{
    if s.len() == 0 {
        s
    } else if s.last().0 == key {
        removed(s.drop_last(), key)
    } else {
        removed(s.drop_last(), key).push(s.last())
    }
}

/// The values, in order.
pub open spec fn values_of<V>(s: Seq<(Seq<char>, V)>) -> Seq<V> {
    s.map_values(|e: (Seq<char>, V)| e.1)
}

proof fn lemma_key_index<V>(s: Seq<(Seq<char>, V)>, key: Seq<char>)
    ensures
        -1 <= key_index(s, key) < s.len(),
        key_index(s, key) >= 0 ==> s[key_index(s, key)].0 == key,
        key_index(s, key) >= 0 ==> lookup(s, key) == Some(s[key_index(s, key)].1),
        key_index(s, key) >= 0 ==> forall|j: int| 0 <= j < key_index(s, key) ==> s[j].0 != key,
        key_index(s, key) < 0 ==> lookup(s, key) is None,
        key_index(s, key) < 0 ==> forall|j: int| 0 <= j < s.len() ==> s[j].0 != key,
    decreases s.len(),
{
    if s.len() > 0 {
        let d = s.drop_last();
        lemma_key_index(d, key);
        assert forall|j: int| 0 <= j < d.len() implies d[j] == s[j] by {}
    }
}

/// Registering under `key` makes `value` the value of `key` and leaves the
/// value of every other key as it was.
pub proof fn lemma_upsert_lookup<V>(s: Seq<(Seq<char>, V)>, key: Seq<char>, value: V, other: Seq<char>)
    ensures
        lookup(upserted(s, key, value), key) == Some(value),
        other != key ==> lookup(upserted(s, key, value), other) == lookup(s, other),
{
    lemma_key_index(s, key);
    let t = upserted(s, key, value);
    lemma_key_index(t, key);
    lemma_key_index(s, other);
    lemma_key_index(t, other);
    if key_index(s, key) >= 0 {
        assert(key_index(t, key) == key_index(s, key)) by {
            lemma_first_index_unique(t, key, key_index(s, key));
        }
        if other != key {
            if key_index(s, other) >= 0 {
                lemma_first_index_unique(t, other, key_index(s, other));
            } else {
                assert(key_index(t, other) < 0) by {
                    if key_index(t, other) >= 0 {
                        let k = key_index(t, other);
                        assert(t[k].0 == other);
                    }
                }
            }
        }
    } else {
        assert(key_index(t, key) == s.len()) by {
            lemma_first_index_unique(t, key, s.len() as int);
        }
        if other != key {
            if key_index(s, other) >= 0 {
                lemma_first_index_unique(t, other, key_index(s, other));
            } else {
                assert(key_index(t, other) < 0) by {
                    if key_index(t, other) >= 0 {
                        let k = key_index(t, other);
                        assert(t[k].0 == other);
                    }
                }
            }
        }
    }
}

proof fn lemma_first_index_unique<V>(s: Seq<(Seq<char>, V)>, key: Seq<char>, i: int)
    requires
        0 <= i < s.len(),
        s[i].0 == key,
        forall|j: int| 0 <= j < i ==> s[j].0 != key,
    ensures
        key_index(s, key) == i,
    decreases s.len(),
{
    if i < s.len() - 1 {
        lemma_first_index_unique(s.drop_last(), key, i);
    } else {
        lemma_key_index(s.drop_last(), key);
    }
}

/// Removing `key` leaves it without a value and every other key as it was.
pub proof fn lemma_remove_lookup<V>(s: Seq<(Seq<char>, V)>, key: Seq<char>, other: Seq<char>)
    ensures
        lookup(removed(s, key), key) is None,
        other != key ==> lookup(removed(s, key), other) == lookup(s, other),
    decreases s.len(),
{
    if s.len() > 0 {
        lemma_remove_lookup(s.drop_last(), key, other);
        let r = removed(s.drop_last(), key);
        if s.last().0 != key {
            assert(removed(s, key).drop_last() =~= r);
        }
    }
}

/// Registering and removing keep every key at most once.
pub proof fn lemma_keys_stay_unique<V>(s: Seq<(Seq<char>, V)>, key: Seq<char>, value: V)
    requires
        keys_unique(s),
    ensures
        keys_unique(upserted(s, key, value)),
        keys_unique(removed(s, key)),
{
    lemma_key_index(s, key);
    lemma_removed_subset(s, key);
}

proof fn lemma_removed_subset<V>(s: Seq<(Seq<char>, V)>, key: Seq<char>)
    requires
        keys_unique(s),
    ensures
        keys_unique(removed(s, key)),
        forall|i: int| 0 <= i < removed(s, key).len() ==> s.contains(#[trigger] removed(s, key)[i]),
        forall|i: int| 0 <= i < removed(s, key).len() ==> (#[trigger] removed(s, key)[i]).0 != key,
    decreases s.len(),
{
    if s.len() > 0 {
        lemma_removed_subset(s.drop_last(), key);
        let r = removed(s.drop_last(), key);
        assert forall|i: int| 0 <= i < r.len() implies s.contains(#[trigger] r[i]) by {
            let k = choose|k: int| 0 <= k < s.drop_last().len() && s.drop_last()[k] == r[i];
            assert(s[k] == r[i]);
        }
        if s.last().0 != key {
            assert forall|i: int, j: int| 0 <= i < j < r.push(s.last()).len() implies r.push(s.last())[i].0 != r.push(s.last())[j].0 by {
                if j == r.len() {
                    let k = choose|k: int| 0 <= k < s.drop_last().len() && s.drop_last()[k] == r[i];
                    assert(s[k] == r[i]);
                }
            }
            assert(s.contains(s.last())) by {
                assert(s[s.len() - 1] == s.last());
            }
        }
    }
}

impl<V> View for KeyedList<V> {
    type V = Seq<(Seq<char>, V)>;

    closed spec fn view(&self) -> Seq<(Seq<char>, V)> {
        entries_view(self.entries@)
    }
}

impl<V> KeyedList<V> {
    /// An empty list.
    pub fn new() -> (l: Self)
        ensures
            l@ == Seq::<(Seq<char>, V)>::empty(),
    {
        let l = KeyedList { entries: Vec::new() };
        assert(l@ =~= Seq::<(Seq<char>, V)>::empty());
        l
    }

    /// The number of entries.
    pub fn len(&self) -> (n: usize)
        ensures
            n == self@.len(),
    {
        self.entries.len()
    }

    fn index_of(&self, key: &str) -> (r: Option<usize>)
        ensures
            match r {
                Some(i) => i == key_index(self@, key@),
                None => key_index(self@, key@) < 0,
            },
    {
        proof {
            lemma_key_index(self@, key@);
        }
        let mut i: usize = 0;
        while i < self.entries.len()
            invariant
                i <= self@.len(),
                self@.len() == self.entries@.len(),
                forall|j: int| 0 <= j < i ==> self@[j].0 != key@,
                -1 <= key_index(self@, key@) < self@.len(),
                key_index(self@, key@) >= 0 ==> self@[key_index(self@, key@)].0 == key@,
                key_index(self@, key@) >= 0 ==> forall|j: int|
                    0 <= j < key_index(self@, key@) ==> self@[j].0 != key@,
                key_index(self@, key@) < 0 ==> forall|j: int| 0 <= j < self@.len() ==> self@[j].0 != key@,
            decreases self@.len() - i,
        {
            if str_eq(self.entries[i].0.as_str(), key) {
                assert(self@[i as int].0 == key@);
                return Some(i);
            }
            i = i + 1;
        }
        None
    }

    /// The value registered under `key`.
    pub fn get(&self, key: &str) -> (r: Option<&V>)
        ensures
            match r {
                Some(v) => lookup(self@, key@) == Some(*v),
                None => lookup(self@, key@) is None,
            },
    {
        proof {
            lemma_key_index(self@, key@);
        }
        match self.index_of(key) {
            Some(i) => Some(&self.entries[i].1),
            None => None,
        }
    }

    /// Register `value` under `key`, replacing the value of an entry that
    /// already has that key.
    pub fn upsert(&mut self, key: String, value: V)
        ensures
            final(self)@ == upserted(old(self)@, key@, value),
    {
        proof {
            lemma_key_index(self@, key@);
        }
        match self.index_of(key.as_str()) {
            Some(i) => {
                let ghost k = key@;
                let mut es = Vec::new();
                std::mem::swap(&mut es, &mut self.entries);
                let ghost before = es@;
                es.set(i, (key, value));
                assert(entries_view(es@) =~= entries_view(before).update(i as int, (k, value)));
                self.entries = es;
            },
            None => {
                let ghost k = key@;
                self.entries.push((key, value));
                assert(entries_view(self.entries@) =~= entries_view(old(self).entries@).push((k, value)));
            },
        }
    }

    /// Remove every entry under `key`.
    pub fn remove(&mut self, key: &str)
        ensures
            final(self)@ == removed(old(self)@, key@),
    {
        let ghost orig = old(self)@;
        let mut i: usize = 0;
        let ghost mut j: int = 0;
        assert(orig.skip(0) =~= orig);
        assert(orig.take(0) =~= Seq::<(Seq<char>, V)>::empty());
        while i < self.entries.len()
            invariant
                0 <= j <= orig.len(),
                self@ == removed(orig.take(j), key@) + orig.skip(j),
                i == removed(orig.take(j), key@).len(),
                self.entries@.len() == self@.len(),
            decreases orig.len() - j,
        {
            let ghost pre = self@;
            assert(orig.take(j + 1).drop_last() =~= orig.take(j));
            assert(orig.take(j + 1).last() == orig[j]);
            assert(pre[i as int] == orig[j]);
            assert(orig.skip(j) =~= seq![orig[j]] + orig.skip(j + 1));
            if str_eq(self.entries[i].0.as_str(), key) {
                self.entries.remove(i);
                assert(self@ =~= pre.remove(i as int));
                assert(removed(orig.take(j + 1), key@) == removed(orig.take(j), key@));
                assert(self@ =~= removed(orig.take(j + 1), key@) + orig.skip(j + 1));
            } else {
                assert(removed(orig.take(j + 1), key@) == removed(orig.take(j), key@).push(orig[j]));
                i = i + 1;
                assert(self@ =~= removed(orig.take(j + 1), key@) + orig.skip(j + 1));
            }
            proof {
                j = j + 1;
            }
        }
        assert(orig.take(j) =~= orig);
        assert(orig.skip(j) =~= Seq::<(Seq<char>, V)>::empty());
        assert(self@ =~= removed(orig, key@));
    }

    /// Remove every entry.
    pub fn clear(&mut self)
        ensures
            final(self)@ == Seq::<(Seq<char>, V)>::empty(),
    {
        self.entries.clear();
        assert(self@ =~= Seq::<(Seq<char>, V)>::empty());
    }
}

impl KeyedList<String> {
    /// Copies of the values, in order.
    pub fn values(&self) -> (vs: Vec<String>)
        ensures
            vs@ == values_of(self@),
    {
        let mut vs: Vec<String> = Vec::new();
        let mut i: usize = 0;
        while i < self.entries.len()
            invariant
                i <= self@.len(),
                self@.len() == self.entries@.len(),
                vs@ == values_of(self@).take(i as int),
            decreases self@.len() - i,
        {
            vs.push(self.entries[i].1.clone());
            assert(values_of(self@).take(i + 1) =~= values_of(self@).take(i as int).push(self@[i as int].1));
            i = i + 1;
        }
        assert(values_of(self@).take(i as int) =~= values_of(self@));
        vs
    }
}

} // verus!
