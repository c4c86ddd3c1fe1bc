//! Small string-keyed collections: a set of strings and a map from strings to
//! values, each kept as a vector without repeated keys.
use vstd::prelude::*;

use crate::text::str_eq;

verus! {

broadcast use {vstd::seq_lib::group_seq_properties, vstd::seq_lib::seq_to_set_is_finite};

/// The characters of each string of a sequence.
pub open spec fn texts(s: Seq<String>) -> Seq<Seq<char>> {
    s.map_values(|x: String| x@)
}

/// A finite set of strings.
pub struct StrSet {
    items: Vec<String>,
}

impl StrSet {
    /// The strings the set holds, in the order they are kept.
    pub closed spec fn items(&self) -> Seq<Seq<char>> {
        texts(self.items@)
    }

    /// No string is kept twice.
    pub closed spec fn wf(&self) -> bool {
        self.items().no_duplicates()
    }

    /// The set of strings held.
    pub closed spec fn view(&self) -> Set<Seq<char>> {
        self.items().to_set()
    }

    proof fn lemma_view_facts(&self)
        requires
            self.wf(),
        ensures
            self@.finite(),
            self@.len() == self.items@.len(),
            forall|i: int|
                0 <= i < self.items@.len() ==> #[trigger] self@.contains(self.items@[i]@),
            forall|k: Seq<char>|
                self@.contains(k) ==> exists|i: int|
                    0 <= i < self.items@.len() && #[trigger] self.items@[i]@ == k,
    {
        self.items().unique_seq_to_set();
        assert forall|i: int| 0 <= i < self.items@.len() implies #[trigger] self@.contains(
            self.items@[i]@,
        ) by {
            assert(self.items()[i] == self.items@[i]@);
        }
        assert forall|k: Seq<char>| self@.contains(k) implies exists|i: int|
            0 <= i < self.items@.len() && #[trigger] self.items@[i]@ == k by {
            let i = choose|i: int| 0 <= i < self.items().len() && self.items()[i] == k;
            assert(self.items@[i]@ == k);
        }
    }

    /// An empty set.
    pub fn new() -> (r: Self)
        ensures
            r.wf(),
            r@ == Set::<Seq<char>>::empty(),
    {
        let r = StrSet { items: Vec::new() };
        assert(r.items() =~= Seq::<Seq<char>>::empty());
        assert(r@ =~= Set::<Seq<char>>::empty());
        r
    }

    /// The number of strings held.
    pub fn len(&self) -> (r: usize)
        requires
            self.wf(),
        ensures
            r == self@.len(),
            self@.finite(),
    {
        proof {
            self.lemma_view_facts();
        }
        self.items.len()
    }

    fn position(&self, key: &str) -> (r: Option<usize>)
        requires
            self.wf(),
        ensures
            r matches Some(i) ==> i < self.items@.len() && self.items@[i as int]@ == key@,
            r is None ==> !self@.contains(key@),
    {
        proof {
            self.lemma_view_facts();
        }
        let mut i: usize = 0;
        while i < self.items.len()
            invariant
                i <= self.items@.len(),
                forall|j: int| 0 <= j < i ==> self.items@[j]@ != key@,
            decreases self.items.len() - i,
        {
            if str_eq(self.items[i].as_str(), key) {
                return Some(i);
            }
            i = i + 1;
        }
        None
    }

    /// Whether `key` is held.
    pub fn contains(&self, key: &str) -> (r: bool)
        requires
            self.wf(),
        ensures
            r == self@.contains(key@),
    {
        proof {
            self.lemma_view_facts();
        }
        self.position(key).is_some()
    }

    /// Adds `key` to the set.
    pub fn insert(&mut self, key: &str)
        requires
            old(self).wf(),
        ensures
            final(self).wf(),
            final(self)@ == old(self)@.insert(key@),
    {
        proof {
            self.lemma_view_facts();
        }
        if self.position(key).is_some() {
            assert(self@.insert(key@) =~= self@);
            return;
        }
        let ghost old_items = self.items();
        self.items.push(key.to_string());
        proof {
            assert(self.items() =~= old_items.push(key@));
            assert(self@ =~= old_items.to_set().insert(key@));
        }
    }

    /// Removes `key` from the set.
    pub fn remove(&mut self, key: &str)
        requires
            old(self).wf(),
        ensures
            final(self).wf(),
            final(self)@ == old(self)@.remove(key@),
    {
        proof {
            self.lemma_view_facts();
        }
        match self.position(key) {
            None => {
                assert(self@.remove(key@) =~= self@);
            },
            Some(i) => {
                let ghost old_items = self.items();
                self.items.remove(i);
                proof {
                    assert(self.items() =~= old_items.remove(i as int));
                    assert forall|k: Seq<char>| #[trigger] self@.contains(k) == old_items.to_set().remove(
                        key@,
                    ).contains(k) by {
                        if self@.contains(k) {
                            let j = choose|j: int|
                                0 <= j < self.items().len() && self.items()[j] == k;
                            let j0 = if j < i { j } else { j + 1 };
                            assert(old_items[j0] == k);
                            assert(old_items[i as int] == key@);
                            assert(j0 != i);
                            assert(old_items.to_set().contains(k));
                        }
                        if old_items.to_set().remove(key@).contains(k) {
                            let j = choose|j: int| 0 <= j < old_items.len() && old_items[j] == k;
                            if j < i {
                                assert(self.items()[j] == k);
                            } else {
                                assert(self.items()[j - 1] == k);
                            }
                        }
                    }
                    assert(self@ =~= old_items.to_set().remove(key@));
                }
            },
        }
    }

    /// Whether the set holds nothing.
    pub fn is_empty(&self) -> (r: bool)
        requires
            self.wf(),
        ensures
            r == (self@ == Set::<Seq<char>>::empty()),
    {
        proof {
            self.lemma_view_facts();
        }
        if self.items.len() == 0 {
            assert(self@ =~= Set::<Seq<char>>::empty());
            true
        } else {
            assert(self@.contains(self.items@[0]@));
            false
        }
    }

    /// The only string held, when exactly one is held.
    pub fn single(&self) -> (r: Option<&String>)
        requires
            self.wf(),
        ensures
            self@.finite(),
            r is Some <==> self@.len() == 1,
            r matches Some(s) ==> self@ == set![s@],
    {
        proof {
            self.lemma_view_facts();
        }
        if self.items.len() == 1 {
            let r = &self.items[0];
            proof {
                assert forall|k: Seq<char>| #[trigger] self@.contains(k) == set![r@].contains(k) by {
                    if self@.contains(k) {
                        let j = choose|j: int|
                            0 <= j < self.items@.len() && self.items@[j]@ == k;
                        assert(j == 0);
                    }
                }
                assert(self@ =~= set![r@]);
            }
            Some(r)
        } else {
            None
        }
    }

    /// Empties the set.
    pub fn clear(&mut self)
        ensures
            final(self).wf(),
            final(self)@ == Set::<Seq<char>>::empty(),
    {
        self.items.clear();
        assert(self.items() =~= Seq::<Seq<char>>::empty());
        assert(self@ =~= Set::<Seq<char>>::empty());
    }
}

/// A finite map from strings to values.
pub struct StrMap<V> {
    entries: Vec<(String, V)>,
}

impl<V> StrMap<V> {
    /// The keys, in the order the entries are kept.
    pub closed spec fn keys(&self) -> Seq<Seq<char>> {
        self.entries@.map_values(|e: (String, V)| e.0@)
    }

    /// No key is kept twice.
    pub closed spec fn wf(&self) -> bool {
        self.keys().no_duplicates()
    }

    /// The number of entries.
    pub closed spec fn size(&self) -> nat {
        self.entries@.len()
    }

    /// The key of entry `i`.
    pub closed spec fn key_at(&self, i: int) -> Seq<char> {
        self.entries@[i].0@
    }

    /// The index of the entry with key `k`.
    closed spec fn index_of(&self, k: Seq<char>) -> int {
        choose|i: int| 0 <= i < self.entries@.len() && self.entries@[i].0@ == k
    }

    /// The map the entries hold.
    pub closed spec fn view(&self) -> Map<Seq<char>, V> {
        Map::new(
            |k: Seq<char>| exists|i: int| 0 <= i < self.entries@.len() && self.entries@[i].0@ == k,
            |k: Seq<char>| self.entries@[self.index_of(k)].1,
        )
    }

    proof fn lemma_index(&self, i: int)
        requires
            self.wf(),
            0 <= i < self.entries@.len(),
        ensures
            self@.contains_key(self.entries@[i].0@),
            self.index_of(self.entries@[i].0@) == i,
            self@[self.entries@[i].0@] == self.entries@[i].1,
    {
        let k = self.entries@[i].0@;
        assert(self.keys()[i] == k);
        let j = self.index_of(k);
        assert(self.keys()[j] == k);
    }

    /// The keys held are exactly those of the entries.
    pub proof fn lemma_keys(&self)
        requires
            self.wf(),
        ensures
            self@.dom().finite(),
            self@.dom().len() == self.size(),
            forall|i: int| 0 <= i < self.size() ==> #[trigger] self@.contains_key(self.key_at(i)),
            forall|k: Seq<char>|
                #[trigger] self@.contains_key(k) ==> exists|i: int|
                    0 <= i < self.size() && self.key_at(i) == k,
            forall|i: int, j: int|
                0 <= i < self.size() && 0 <= j < self.size() && i != j ==> self.key_at(i)
                    != self.key_at(j),
    {
        assert(self@.dom() =~= self.keys().to_set()) by {
            assert forall|k: Seq<char>| #[trigger] self@.dom().contains(k) implies self.keys().to_set().contains(
                k,
            ) by {
                let i = choose|i: int| 0 <= i < self.entries@.len() && self.entries@[i].0@ == k;
                assert(self.keys()[i] == k);
            }
        }
        self.keys().unique_seq_to_set();
        assert forall|i: int| 0 <= i < self.size() implies #[trigger] self@.contains_key(
            self.key_at(i),
        ) by {
            self.lemma_index(i);
        }
        assert forall|k: Seq<char>| #[trigger] self@.contains_key(k) implies exists|i: int|
            0 <= i < self.size() && self.key_at(i) == k by {
            let i = choose|i: int| 0 <= i < self.entries@.len() && self.entries@[i].0@ == k;
            assert(self.key_at(i) == k);
        }
        assert forall|i: int, j: int|
            0 <= i < self.size() && 0 <= j < self.size() && i != j implies self.key_at(i)
            != self.key_at(j) by {
            assert(self.keys()[i] == self.key_at(i));
            assert(self.keys()[j] == self.key_at(j));
        }
    }

    /// An empty map.
    pub fn new() -> (r: Self)
        ensures
            r.wf(),
            r@ == Map::<Seq<char>, V>::empty(),
    {
        let r = StrMap { entries: Vec::new() };
        assert(r.keys() =~= Seq::<Seq<char>>::empty());
        assert(r@ =~= Map::<Seq<char>, V>::empty());
        r
    }

    /// The number of entries.
    pub fn len(&self) -> (r: usize)
        ensures
            r == self.size(),
    {
        self.entries.len()
    }

    /// The key of entry `i`.
    pub fn key(&self, i: usize) -> (r: &String)
        requires
            i < self.size(),
        ensures
            r@ == self.key_at(i as int),
    {
        &self.entries[i].0
    }

    /// The index of the entry with key `key`.
    pub fn position(&self, key: &str) -> (r: Option<usize>)
        requires
            self.wf(),
        ensures
            r matches Some(i) ==> i < self.size() && self.key_at(i as int) == key@,
            r is Some <==> self@.contains_key(key@),
    {
        let mut i: usize = 0;
        while i < self.entries.len()
            invariant
                self.wf(),
                i <= self.entries@.len(),
                forall|j: int| 0 <= j < i ==> self.entries@[j].0@ != key@,
            decreases self.entries.len() - i,
        {
            if str_eq(self.entries[i].0.as_str(), key) {
                proof {
                    self.lemma_index(i as int);
                }
                return Some(i);
            }
            i = i + 1;
        }
        None
    }

    /// The value stored under `key`.
    pub fn get(&self, key: &str) -> (r: Option<&V>)
        requires
            self.wf(),
        ensures
            r is Some <==> self@.contains_key(key@),
            r matches Some(v) ==> *v == self@[key@],
    {
        match self.position(key) {
            Some(i) => {
                proof {
                    self.lemma_index(i as int);
                }
                Some(&self.entries[i].1)
            },
            None => None,
        }
    }

    /// Whether `key` is held.
    pub fn contains_key(&self, key: &str) -> (r: bool)
        requires
            self.wf(),
        ensures
            r == self@.contains_key(key@),
    {
        self.position(key).is_some()
    }

    /// Removes the entry with key `key` and hands its value back.
    pub fn remove(&mut self, key: &str) -> (r: Option<V>)
        requires
            old(self).wf(),
        ensures
            final(self).wf(),
            final(self)@ == old(self)@.remove(key@),
            r is Some <==> old(self)@.contains_key(key@),
            r matches Some(v) ==> v == old(self)@[key@],
    {
        match self.position(key) {
            None => {
                assert(self@.remove(key@) =~= self@);
                None
            },
            Some(i) => {
                let ghost old_map = self@;
                let ghost old_entries = self.entries@;
                let ghost old_keys = self.keys();
                proof {
                    self.lemma_index(i as int);
                }
                let (_k, v) = self.entries.remove(i);
                proof {
                    assert(self.entries@ =~= old_entries.remove(i as int));
                    assert(self.keys() =~= old_keys.remove(i as int));
                    assert forall|a: int, b: int|
                        0 <= a < self.keys().len() && 0 <= b < self.keys().len() && a != b implies self.keys()[a]
                        != self.keys()[b] by {
                        let a0 = if a < i { a } else { a + 1 };
                        let b0 = if b < i { b } else { b + 1 };
                        assert(self.keys()[a] == old_keys[a0]);
                        assert(self.keys()[b] == old_keys[b0]);
                    }
                    assert(self.wf());
                    assert forall|k: Seq<char>| #[trigger] self@.contains_key(k) == old_map.remove(
                        key@,
                    ).contains_key(k) by {
                        if self@.contains_key(k) {
                            let j = choose|j: int|
                                0 <= j < self.entries@.len() && self.entries@[j].0@ == k;
                            let j0 = if j < i { j } else { j + 1 };
                            assert(old_entries[j0].0@ == k);
                            assert(old_keys[j0] == k);
                            assert(old_keys[i as int] == key@);
                        }
                        if old_map.remove(key@).contains_key(k) {
                            let j = choose|j: int| 0 <= j < old_entries.len() && old_entries[j].0@ == k;
                            if j < i {
                                assert(self.entries@[j].0@ == k);
                            } else {
                                assert(j != i);
                                assert(self.entries@[j - 1].0@ == k);
                            }
                        }
                    }
                    assert forall|k: Seq<char>| #[trigger] self@.contains_key(k) implies self@[k]
                        == old_map[k] by {
                        let j = self.index_of(k);
                        self.lemma_index(j);
                        let j0 = if j < i { j } else { j + 1 };
                        assert(old_entries[j0] == self.entries@[j]);
                        assert(old_keys[j0] == k);
                        let oj = choose|oj: int|
                            0 <= oj < old_entries.len() && old_entries[oj].0@ == k;
                        assert(old_keys[oj] == k);
                    }
                    assert(self@ =~= old_map.remove(key@));
                }
                Some(v)
            },
        }
    }

    /// Stores `value` under `key`, replacing any value stored there.
    pub fn insert(&mut self, key: &str, value: V)
        requires
            old(self).wf(),
        ensures
            final(self).wf(),
            final(self)@ == old(self)@.insert(key@, value),
    {
        let ghost old_map = self@;
        let _ = self.remove(key);
        let ghost mid_map = self@;
        let ghost mid_entries = self.entries@;
        let ghost mid_keys = self.keys();
        proof {
            self.lemma_keys();
        }
        self.entries.push((key.to_string(), value));
        proof {
            let n = mid_entries.len() as int;
            assert(self.keys() =~= mid_keys.push(key@));
            assert forall|a: int, b: int|
                0 <= a < self.keys().len() && 0 <= b < self.keys().len() && a != b implies self.keys()[a]
                != self.keys()[b] by {
                if a < n && b < n {
                    assert(self.keys()[a] == mid_keys[a]);
                    assert(self.keys()[b] == mid_keys[b]);
                } else if a < n {
                    assert(mid_keys[a] == mid_entries[a].0@);
                    assert(mid_map.contains_key(mid_keys[a]));
                } else {
                    assert(mid_keys[b] == mid_entries[b].0@);
                    assert(mid_map.contains_key(mid_keys[b]));
                }
            }
            assert(self.wf());
            self.lemma_index(n);
            assert forall|k: Seq<char>| #[trigger] self@.contains_key(k) == mid_map.insert(
                key@,
                value,
            ).contains_key(k) by {
                if self@.contains_key(k) && k != key@ {
                    let j = choose|j: int| 0 <= j < self.entries@.len() && self.entries@[j].0@ == k;
                    assert(j < n);
                    assert(mid_entries[j].0@ == k);
                }
                if mid_map.contains_key(k) {
                    let j = choose|j: int| 0 <= j < mid_entries.len() && mid_entries[j].0@ == k;
                    assert(self.entries@[j].0@ == k);
                }
            }
            assert forall|k: Seq<char>| #[trigger] self@.contains_key(k) && k != key@ implies self@[k]
                == mid_map[k] by {
                let j = self.index_of(k);
                self.lemma_index(j);
                assert(j < n);
                let mj = choose|mj: int| 0 <= mj < mid_entries.len() && mid_entries[mj].0@ == k;
                assert(mid_keys[mj] == k);
                assert(mid_keys[j] == k);
            }
            assert(self@ =~= mid_map.insert(key@, value));
            assert(mid_map.insert(key@, value) =~= old_map.insert(key@, value));
        }
    }

    /// Removes every entry.
    pub fn clear(&mut self)
        ensures
            final(self).wf(),
            final(self)@ == Map::<Seq<char>, V>::empty(),
    {
        self.entries.clear();
        assert(self.keys() =~= Seq::<Seq<char>>::empty());
        assert(self@ =~= Map::<Seq<char>, V>::empty());
    }
}

} // verus!
