//! A store of objects kept under string keys.
use vstd::prelude::*;

use crate::text::chars_of;

verus! {

/// Objects kept under string keys; at most one object per key.
///
/// The entries are kept in a vector: `store` gives back the object that a key held
/// before, and the hash maps with string keys that vstd specifies (`StringHashMap`)
/// hand nothing back from `insert` or `remove`, while the key model of a
/// `std::collections::HashMap` is stated for integer and boolean keys only.
pub struct CacheStore<T> {
    objects: Vec<(String, T)>,
}

/// Some entry of `e` has the key `k`.
pub open spec fn has_key<T>(e: Seq<(String, T)>, k: Seq<char>) -> bool {
    exists|i: int| 0 <= i < e.len() && e[i].0@ == k
}

/// The index of an entry of `e` with the key `k`.
pub open spec fn slot<T>(e: Seq<(String, T)>, k: Seq<char>) -> int {
    choose|i: int| 0 <= i < e.len() && e[i].0@ == k
}

/// No two entries of `e` have the same key.
pub open spec fn keys_distinct<T>(e: Seq<(String, T)>) -> bool {
    forall|i: int, j: int| 0 <= i < e.len() && 0 <= j < e.len() && i != j ==> e[i].0@ != e[j].0@
}

/// The map from keys to objects that the entries `e` hold.
pub open spec fn entries_map<T>(e: Seq<(String, T)>) -> Map<Seq<char>, T> {
    Map::new(|k: Seq<char>| has_key(e, k), |k: Seq<char>| e[slot(e, k)].1)
}

proof fn lemma_entries_finite<T>(e: Seq<(String, T)>)
    ensures
        entries_map(e).dom().finite(),
{
    let keys = e.map_values(|p: (String, T)| p.0@);
    assert forall|k: Seq<char>| entries_map(e).dom().contains(k) <==> keys.to_set().contains(k) by {
        if has_key(e, k) {
            let i = choose|i: int| 0 <= i < e.len() && e[i].0@ == k;
            assert(keys[i] == k);
        }
        if keys.to_set().contains(k) {
            assert(keys.contains(k));
            let i = choose|i: int| 0 <= i < keys.len() && keys[i] == k;
            assert(e[i].0@ == k);
        }
    }
    assert(entries_map(e).dom() =~= keys.to_set());
    vstd::seq_lib::seq_to_set_is_finite(keys);
}

proof fn lemma_slot<T>(e: Seq<(String, T)>, i: int)
    requires
        keys_distinct(e),
        0 <= i < e.len(),
    ensures
        has_key(e, e[i].0@),
        slot(e, e[i].0@) == i,
        entries_map(e).contains_key(e[i].0@),
        entries_map(e)[e[i].0@] == e[i].1,
{
    let k = e[i].0@;
    assert(has_key(e, k));
    let j = slot(e, k);
    assert(0 <= j < e.len() && e[j].0@ == k);
}

impl<T> CacheStore<T> {
    #[verifier::type_invariant]
    spec fn inv(self) -> bool {
        keys_distinct(self.objects@)
    }

    /// The objects of the store by key.
    pub closed spec fn objects_map(&self) -> Map<Seq<char>, T> {
        entries_map(self.objects@)
    }

    /// An empty store.
    pub fn new() -> (c: CacheStore<T>)
        ensures
            c@ == Map::<Seq<char>, T>::empty(),
            c@.dom().finite(),
    {
        let c = CacheStore { objects: Vec::new() };
        assert(c@ =~= Map::<Seq<char>, T>::empty());
        c
    }

    /// The index of the entry with key `key`, if there is one.
    fn find(&self, key: &Vec<char>) -> (r: Option<usize>)
        ensures
            match r {
                Some(i) => i < self.objects@.len() && self.objects@[i as int].0@ == key@,
                None => !has_key(self.objects@, key@),
            },
    {
        let mut i: usize = 0;
        while i < self.objects.len()
            invariant
                i <= self.objects@.len(),
                forall|j: int| 0 <= j < i ==> self.objects@[j].0@ != key@,
            decreases self.objects@.len() - i,
        {
            let k = chars_of(self.objects[i].0.as_str());
            if crate::text::matches_at(&k, 0, key) && k.len() == key.len() {
                assert(k@.subrange(0, key@.len() as int) == k@);
                return Some(i);
            }
            proof {
                if k@ == key@ {
                    assert(k@.subrange(0, key@.len() as int) == k@);
                }
            }
            i += 1;
        }
        None
    }

    /// Keeps `value` under `key`, and gives back the object that was kept there before.
    pub fn store(&mut self, key: String, value: T) -> (r: Option<T>)
        ensures
            final(self)@ == old(self)@.insert(key@, value),
            r == (if old(self)@.contains_key(key@) {
                Some(old(self)@[key@])
            } else {
                None
            }),
            final(self)@.dom().finite(),
            final(self)@.len() == old(self)@.len() + (if old(self)@.contains_key(key@) {
                0int
            } else {
                1int
            }),
    {
        proof {
            lemma_entries_finite(self.objects@);
        }
        proof {
            use_type_invariant(&*self);
        }
        let k = chars_of(key.as_str());
        let ghost e = self.objects@;
        match self.find(&k) {
            Some(i) => {
                proof {
                    lemma_slot(e, i as int);
                }
                let mut objects = Vec::new();
                std::mem::swap(&mut objects, &mut self.objects);
                let (_, old_value) = objects.swap_remove(i);
                objects.push((key, value));
                let ghost e2 = objects@;
                proof {
                    assert forall|a: int, b: int|
                        0 <= a < e2.len() && 0 <= b < e2.len() && a != b implies e2[a].0@
                        != e2[b].0@ by {
                        let oa = if a == e2.len() - 1 {
                            i as int
                        } else if a == i {
                            e.len() - 1
                        } else {
                            a
                        };
                        let ob = if b == e2.len() - 1 {
                            i as int
                        } else if b == i {
                            e.len() - 1
                        } else {
                            b
                        };
                        assert(e2[a].0@ == e[oa].0@);
                        assert(e2[b].0@ == e[ob].0@);
                    }
                    assert forall|k2: Seq<char>|
                        #![auto]
                        entries_map(e2).contains_key(k2) == entries_map(
                            e,
                        ).insert(key@, value).contains_key(k2) by {
                        if has_key(e, k2) {
                            let j = slot(e, k2);
                            if j == i {
                                assert(e2[e2.len() - 1].0@ == k2);
                            } else if j == e.len() - 1 {
                                assert(e2[i as int].0@ == k2);
                            } else {
                                assert(e2[j].0@ == k2);
                            }
                        }
                        if has_key(e2, k2) {
                            let j = slot(e2, k2);
                            if j == e2.len() - 1 {
                            } else if j == i {
                                assert(e[e.len() - 1].0@ == k2);
                            } else {
                                assert(e[j].0@ == k2);
                            }
                        }
                    }
                    assert forall|k2: Seq<char>|
                        #![auto]
                        entries_map(e2).contains_key(k2) implies entries_map(e2)[k2] == entries_map(
                            e,
                        ).insert(key@, value)[k2] by {
                        let j = slot(e2, k2);
                        lemma_slot(e2, j);
                        if j == e2.len() - 1 {
                        } else if j == i {
                            lemma_slot(e, e.len() - 1);
                        } else {
                            lemma_slot(e, j);
                        }
                    }
                    assert(entries_map(e2) =~= entries_map(e).insert(key@, value));
                }
                self.objects = objects;
                Some(old_value)
            },
            None => {
                let mut objects = Vec::new();
                std::mem::swap(&mut objects, &mut self.objects);
                objects.push((key, value));
                let ghost e2 = objects@;
                proof {
                    assert forall|a: int, b: int|
                        0 <= a < e2.len() && 0 <= b < e2.len() && a != b implies e2[a].0@
                        != e2[b].0@ by {
                        if a < e.len() && b < e.len() {
                            assert(e2[a] == e[a] && e2[b] == e[b]);
                        } else if a < e.len() {
                            assert(e2[a] == e[a]);
                        } else {
                            assert(e2[b] == e[b]);
                        }
                    }
                    assert forall|k2: Seq<char>|
                        #![auto]
                        entries_map(e2).contains_key(k2) == entries_map(e).insert(
                            key@,
                            value,
                        ).contains_key(k2) by {
                        if has_key(e, k2) {
                            let j = slot(e, k2);
                            assert(e2[j] == e[j]);
                        }
                        if k2 == key@ {
                            assert(e2[e.len() as int].0@ == key@);
                        }
                        if has_key(e2, k2) {
                            let j = slot(e2, k2);
                            if j < e.len() {
                                assert(e2[j] == e[j]);
                            }
                        }
                    }
                    assert forall|k2: Seq<char>|
                        #![auto]
                        entries_map(e2).contains_key(k2) implies entries_map(e2)[k2] == entries_map(
                            e,
                        ).insert(key@, value)[k2] by {
                        let j = slot(e2, k2);
                        lemma_slot(e2, j);
                        if j < e.len() {
                            assert(e2[j] == e[j]);
                            lemma_slot(e, j);
                        }
                    }
                    assert(entries_map(e2) =~= entries_map(e).insert(key@, value));
                }
                self.objects = objects;
                None
            },
        }
    }

    /// The object kept under `key`, if there is one.
    pub fn load(&self, key: &str) -> (r: Option<&T>)
        ensures
            match r {
                Some(v) => self@.contains_key(key@) && *v == self@[key@],
                None => !self@.contains_key(key@),
            },
    {
        proof {
            use_type_invariant(self);
        }
        let k = chars_of(key);
        match self.find(&k) {
            Some(i) => {
                proof {
                    lemma_slot(self.objects@, i as int);
                }
                Some(&self.objects[i].1)
            },
            None => None,
        }
    }

    /// Drops the object kept under `key`, if there is one.
    pub fn clear(&mut self, key: &str)
        ensures
            final(self)@ == old(self)@.remove(key@),
            final(self)@.dom().finite(),
    {
        proof {
            lemma_entries_finite(self.objects@);
        }
        proof {
            use_type_invariant(&*self);
        }
        let k = chars_of(key);
        let ghost e = self.objects@;
        match self.find(&k) {
            Some(i) => {
                proof {
                    lemma_slot(e, i as int);
                }
                let mut objects = Vec::new();
                std::mem::swap(&mut objects, &mut self.objects);
                let _ = objects.swap_remove(i);
                let ghost e2 = objects@;
                proof {
                    assert forall|a: int, b: int|
                        0 <= a < e2.len() && 0 <= b < e2.len() && a != b implies e2[a].0@
                        != e2[b].0@ by {
                        let oa = if a == i {
                            e.len() - 1
                        } else {
                            a
                        };
                        let ob = if b == i {
                            e.len() - 1
                        } else {
                            b
                        };
                        assert(e2[a].0@ == e[oa].0@);
                        assert(e2[b].0@ == e[ob].0@);
                    }
                    assert forall|k2: Seq<char>|
                        #![auto]
                        entries_map(e2).contains_key(k2) == entries_map(e).remove(
                            key@,
                        ).contains_key(k2) by {
                        if has_key(e, k2) && k2 != key@ {
                            let j = slot(e, k2);
                            if j == e.len() - 1 {
                                assert(e2[i as int].0@ == k2);
                            } else {
                                assert(e2[j].0@ == k2);
                            }
                        }
                        if has_key(e2, k2) {
                            let j = slot(e2, k2);
                            if j == i {
                                assert(e[e.len() - 1].0@ == k2);
                                lemma_slot(e, e.len() - 1);
                            } else {
                                assert(e[j].0@ == k2);
                                lemma_slot(e, j);
                            }
                        }
                    }
                    assert forall|k2: Seq<char>|
                        #![auto]
                        entries_map(e2).contains_key(k2) implies entries_map(e2)[k2] == entries_map(
                            e,
                        ).remove(key@)[k2] by {
                        let j = slot(e2, k2);
                        lemma_slot(e2, j);
                        if j == i {
                            lemma_slot(e, e.len() - 1);
                        } else {
                            lemma_slot(e, j);
                        }
                    }
                    assert(entries_map(e2) =~= entries_map(e).remove(key@));
                }
                self.objects = objects;
            },
            None => {
                assert(entries_map(e) =~= entries_map(e).remove(key@));
            },
        }
    }
}

/// A store holds finitely many objects.
pub proof fn law_store_finite<T>(store: CacheStore<T>)
    ensures
        store@.dom().finite(),
{
    lemma_entries_finite(store.objects@);
}

/// A load of a key gives back what was last stored under it.
pub proof fn law_load_after_store<T>(objects: Map<Seq<char>, T>, key: Seq<char>, value: T)
    ensures
        objects.insert(key, value).contains_key(key),
        objects.insert(key, value)[key] == value,
{
}

/// Storing under one key leaves what every other key holds as it was.
pub proof fn law_store_keeps_others<T>(
    objects: Map<Seq<char>, T>,
    key: Seq<char>,
    value: T,
    other: Seq<char>,
)
    requires
        other != key,
    ensures
        objects.insert(key, value).contains_key(other) == objects.contains_key(other),
        objects.contains_key(other) ==> objects.insert(key, value)[other] == objects[other],
{
}

/// Once a key is cleared, a load of it finds nothing.
pub proof fn law_load_after_clear<T>(objects: Map<Seq<char>, T>, key: Seq<char>)
    ensures
        !objects.remove(key).contains_key(key),
{
}

/// Storing under a new key and then clearing it leaves the store as it was.
pub proof fn law_clear_undoes_store<T>(objects: Map<Seq<char>, T>, key: Seq<char>, value: T)
    requires
        !objects.contains_key(key),
    ensures
        objects.insert(key, value).remove(key) == objects,
{
    assert(objects.insert(key, value).remove(key) =~= objects);
}

impl<T> View for CacheStore<T> {
    type V = Map<Seq<char>, T>;

    open spec fn view(&self) -> Map<Seq<char>, T> {
        self.objects_map()
    }
}

} // verus!
