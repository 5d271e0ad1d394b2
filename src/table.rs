//! A table keyed by one input of one device, with at most one entry per key.
use crate::config::{EventKey, UniqueControllerEvent};
use vstd::prelude::*;

verus! {

/// The map that a sequence of pairs stands for: a later pair overrides an
/// earlier one with the same key.
pub open spec fn map_of<K, V>(s: Seq<(K, V)>) -> Map<K, V>
    decreases s.len(),
{
    if s.len() == 0 {
        Map::empty()
    } else {
        map_of(s.drop_last()).insert(s.last().0, s.last().1)
    }
}

/// No two pairs of `s` share a key.
pub open spec fn keys_unique<K, V>(s: Seq<(K, V)>) -> bool {
    forall|i: int, j: int| 0 <= i < j < s.len() ==> s[i].0 != s[j].0
}

/// A key is in the map exactly when some pair carries it.
pub proof fn lemma_map_of_dom<K, V>(s: Seq<(K, V)>, k: K)
    ensures
        map_of(s).contains_key(k) <==> exists|i: int| 0 <= i < s.len() && s[i].0 == k,
    decreases s.len(),
{
    if s.len() > 0 {
        let t = s.drop_last();
        lemma_map_of_dom(t, k);
        if exists|i: int| 0 <= i < t.len() && t[i].0 == k {
            let i = choose|i: int| 0 <= i < t.len() && t[i].0 == k;
            assert(s[i].0 == k);
        }
        if exists|i: int| 0 <= i < s.len() && s[i].0 == k {
            let i = choose|i: int| 0 <= i < s.len() && s[i].0 == k;
            if i < s.len() - 1 {
                assert(t[i].0 == k);
            }
        }
    }
}

/// With unique keys, each pair gives the value of its key.
pub proof fn lemma_map_of_value<K, V>(s: Seq<(K, V)>, i: int)
    requires
        keys_unique(s),
        0 <= i < s.len(),
    ensures
        map_of(s).contains_key(s[i].0),
        map_of(s)[s[i].0] == s[i].1,
    decreases s.len(),
{
    if i < s.len() - 1 {
        let t = s.drop_last();
        assert(t[i] == s[i]);
        lemma_map_of_value(t, i);
    }
}

/// With unique keys, the map has one key per pair.
pub proof fn lemma_map_of_len<K, V>(s: Seq<(K, V)>)
    requires
        keys_unique(s),
    ensures
        map_of(s).dom().finite(),
        map_of(s).dom().len() == s.len(),
    decreases s.len(),
{
    if s.len() > 0 {
        let t = s.drop_last();
        assert(keys_unique(t));
        lemma_map_of_len(t);
        lemma_map_of_dom(t, s.last().0);
        if map_of(t).contains_key(s.last().0) {
            let i = choose|i: int| 0 <= i < t.len() && t[i].0 == s.last().0;
            assert(s[i].0 == s[s.len() - 1].0);
        }
    }
}

/// Appending a pair inserts it.
pub proof fn lemma_map_of_push<K, V>(s: Seq<(K, V)>, e: (K, V))
    ensures
        map_of(s.push(e)) == map_of(s).insert(e.0, e.1),
        keys_unique(s) && !map_of(s).contains_key(e.0) ==> keys_unique(s.push(e)),
{
    assert(s.push(e).drop_last() =~= s);
    if keys_unique(s) && !map_of(s).contains_key(e.0) {
        lemma_map_of_dom(s, e.0);
        assert forall|i: int, j: int| 0 <= i < j < s.push(e).len() implies s.push(e)[i].0
            != s.push(e)[j].0 by {
            if j == s.len() {
                assert(s[i].0 != e.0);
            }
        }
    }
}

/// Replacing the pair of a key inserts the new value under that key.
pub proof fn lemma_map_of_update<K, V>(s: Seq<(K, V)>, i: int, e: (K, V))
    requires
        keys_unique(s),
        0 <= i < s.len(),
        s[i].0 == e.0,
    ensures
        keys_unique(s.update(i, e)),
        map_of(s.update(i, e)) == map_of(s).insert(e.0, e.1),
{
    let u = s.update(i, e);
    let m = map_of(s).insert(e.0, e.1);
    assert(keys_unique(u)) by {
        assert forall|a: int, b: int| 0 <= a < b < u.len() implies u[a].0 != u[b].0 by {
            assert(u[a].0 == s[a].0);
            assert(u[b].0 == s[b].0);
        }
    }
    assert forall|k: K| #[trigger] map_of(u).contains_key(k) <==> m.contains_key(k) by {
        lemma_map_of_dom(u, k);
        lemma_map_of_dom(s, k);
        if exists|j: int| 0 <= j < s.len() && s[j].0 == k {
            let j = choose|j: int| 0 <= j < s.len() && s[j].0 == k;
            assert(u[j].0 == k);
        }
        if exists|j: int| 0 <= j < u.len() && u[j].0 == k {
            let j = choose|j: int| 0 <= j < u.len() && u[j].0 == k;
            assert(s[j].0 == k);
        }
    }
    assert forall|k: K| #[trigger] map_of(u).contains_key(k) implies map_of(u)[k] == m[k] by {
        lemma_map_of_dom(u, k);
        let j = choose|j: int| 0 <= j < u.len() && u[j].0 == k;
        lemma_map_of_value(u, j);
        if j != i {
            lemma_map_of_value(s, j);
        }
    }
    assert(map_of(u) =~= m);
}

/// Entries keyed by one input of one device, each key at most once.
pub struct Table<V> {
    entries: Vec<(UniqueControllerEvent, V)>,
}

impl<V: View> View for Table<V> {
    type V = Map<EventKey, V::V>;

    open spec fn view(&self) -> Map<EventKey, V::V> {
        map_of(self.pairs())
    }
}

impl<V: View> Table<V> {
    /// The entries in the order they were added, as mathematical values.
    pub closed spec fn pairs(&self) -> Seq<(EventKey, V::V)> {
        self.entries@.map_values(|e: (UniqueControllerEvent, V)| (e.0@, e.1@))
    }

    pub open spec fn wf(&self) -> bool {
        keys_unique(self.pairs())
    }

    pub fn new() -> (r: Table<V>)
        ensures
            r.wf(),
            r.pairs().len() == 0,
            r@ == Map::<EventKey, V::V>::empty(),
    {
        let r = Table { entries: Vec::new() };
        assert(r.pairs() =~= Seq::<(EventKey, V::V)>::empty());
        r
    }

    pub fn len(&self) -> (r: usize)
        ensures
            r == self.pairs().len(),
    {
        self.entries.len()
    }

    pub fn key_at(&self, i: usize) -> (r: &UniqueControllerEvent)
        requires
            i < self.pairs().len(),
        ensures
            r@ == self.pairs()[i as int].0,
    {
        &self.entries[i].0
    }

    pub fn value_at(&self, i: usize) -> (r: &V)
        requires
            i < self.pairs().len(),
        ensures
            r@ == self.pairs()[i as int].1,
    {
        &self.entries[i].1
    }

    /// The position of the entry of `key`, if there is one.
    fn find(&self, key: &UniqueControllerEvent) -> (r: Option<usize>)
        ensures
            match r {
                Some(i) => i < self.pairs().len() && self.pairs()[i as int].0 == key@,
                None => forall|i: int| 0 <= i < self.pairs().len() ==> self.pairs()[i].0 != key@,
            },
    {
        let mut i: usize = 0;
        while i < self.entries.len()
            invariant
                i <= self.entries.len(),
                forall|j: int| 0 <= j < i ==> self.pairs()[j].0 != key@,
            decreases self.entries.len() - i,
        {
            if self.entries[i].0 == *key {
                return Some(i);
            }
            i = i + 1;
        }
        None
    }

    /// The value of `key`, if the table holds one.
    pub fn get(&self, key: &UniqueControllerEvent) -> (r: Option<&V>)
        requires
            self.wf(),
        ensures
            match r {
                Some(v) => self@.contains_key(key@) && v@ == self@[key@],
                None => !self@.contains_key(key@),
            },
    {
        proof {
            lemma_map_of_dom(self.pairs(), key@);
        }
        match self.find(key) {
            Some(i) => {
                proof {
                    lemma_map_of_value(self.pairs(), i as int);
                }
                Some(&self.entries[i].1)
            },
            None => None,
        }
    }

    /// Binds `key` to `value`, replacing the value it had.
    pub fn insert(&mut self, key: UniqueControllerEvent, value: V)
        requires
            old(self).wf(),
        ensures
            final(self).wf(),
            final(self)@ == old(self)@.insert(key@, value@),
    {
        let ghost e = (key@, value@);
        match self.find(&key) {
            Some(i) => {
                proof {
                    lemma_map_of_update(self.pairs(), i as int, e);
                }
                self.entries.set(i, (key, value));
                assert(self.pairs() =~= old(self).pairs().update(i as int, e));
            },
            None => {
                proof {
                    lemma_map_of_dom(self.pairs(), key@);
                    lemma_map_of_push(self.pairs(), e);
                }
                self.entries.push((key, value));
                assert(self.pairs() =~= old(self).pairs().push(e));
            },
        }
    }

    /// References to all values, in the order of the entries.
    pub fn values(&self) -> (r: Vec<&V>)
        ensures
            r@.len() == self.pairs().len(),
            forall|i: int| 0 <= i < r@.len() ==> r@[i]@ == self.pairs()[i].1,
    {
        let mut r: Vec<&V> = Vec::new();
        let mut i: usize = 0;
        while i < self.entries.len()
            invariant
                i <= self.entries.len(),
                r@.len() == i,
                forall|j: int| 0 <= j < i ==> r@[j]@ == self.pairs()[j].1,
            decreases self.entries.len() - i,
        {
            r.push(&self.entries[i].1);
            i = i + 1;
        }
        r
    }
}

} // verus!
