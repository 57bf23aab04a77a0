//! A map from names to values, kept as a list in insertion order.

use vstd::prelude::*;
use crate::utils::text::str_eq;

verus! {

/// A map from names to values, each name present at most once, that
/// remembers the order in which names were first inserted.
#[derive(Debug)]
pub struct NameMap<V> {
    entries: Vec<(String, V)>,
}

impl<V> NameMap<V> {
    #[verifier::type_invariant]
    spec fn keys_unique(&self) -> bool {
        forall|i: int, j: int|
            0 <= i < j < self.entries@.len() ==> self.entries@[i].0@ != self.entries@[j].0@
    }

    /// The names present, in the order they were first inserted.
    pub closed spec fn names(&self) -> Seq<Seq<char>> {
        self.entries@.map_values(|e: (String, V)| e.0@)
    }

    /// The map from names to values.
    pub closed spec fn view(&self) -> Map<Seq<char>, V> {
        Map::new(
            |k: Seq<char>| exists|i: int| 0 <= i < self.entries@.len() && self.entries@[i].0@ == k,
            |k: Seq<char>|
                self.entries@[choose|i: int|
                    0 <= i < self.entries@.len() && self.entries@[i].0@ == k].1,
        )
    }

    proof fn lemma_view_at(&self, i: int)
        requires
            self.keys_unique(),
            0 <= i < self.entries@.len(),
        ensures
            self@.contains_key(self.entries@[i].0@),
            self@[self.entries@[i].0@] == self.entries@[i].1,
    {
        let k = self.entries@[i].0@;
        assert(exists|j: int| 0 <= j < self.entries@.len() && self.entries@[j].0@ == k);
        let j = choose|j: int| 0 <= j < self.entries@.len() && self.entries@[j].0@ == k;
        assert(i == j);
    }

    pub fn new() -> (a: Self)
        ensures
            a@ == Map::<Seq<char>, V>::empty(),
            a.names() == Seq::<Seq<char>>::empty(),
    {
        let a = NameMap { entries: Vec::new() };
        assert(a@ =~= Map::<Seq<char>, V>::empty());
        assert(a.names() =~= Seq::<Seq<char>>::empty());
        a
    }

    /// Position of the entry named `key`, if any.
    fn position(&self, key: &str) -> (r: Option<usize>)
        ensures
            match r {
                Some(i) => i < self.entries@.len() && self.entries@[i as int].0@ == key@,
                None => forall|i: int|
                    0 <= i < self.entries@.len() ==> self.entries@[i].0@ != key@,
            },
    {
        let mut i: usize = 0;
        while i < self.entries.len()
            invariant
                i <= self.entries@.len(),
                forall|j: int| 0 <= j < i ==> self.entries@[j].0@ != key@,
            decreases self.entries@.len() - i,
        {
            if str_eq(self.entries[i].0.as_str(), key) {
                return Some(i);
            }
            i = i + 1;
        }
        None
    }

    /// Number of attributes.
    pub fn len(&self) -> (n: usize)
        ensures
            n == self.names().len(),
    {
        self.entries.len()
    }

    /// Whether an attribute named `key` is present.
    pub fn contains_key(&self, key: &str) -> (b: bool)
        ensures
            b == self@.contains_key(key@),
    {
        let r = self.position(key);
        proof {
            use_type_invariant(self);
            if let Some(i) = r {
                self.lemma_view_at(i as int);
            }
        }
        r.is_some()
    }

    /// The attribute named `key`, if present.
    pub fn get(&self, key: &str) -> (r: Option<&V>)
        ensures
            r is Some <==> self@.contains_key(key@),
            r is Some ==> *r->Some_0 == self@[key@],
    {
        match self.position(key) {
            Some(i) => {
                proof {
                    use_type_invariant(self);
                    self.lemma_view_at(i as int);
                }
                Some(&self.entries[i].1)
            },
            None => None,
        }
    }

    /// Sets the attribute `key` to `value`, replacing a previous value, and
    /// returns the previous value.
    pub fn insert(&mut self, key: String, value: V) -> (r: Option<V>)
        ensures
            final(self)@ == old(self)@.insert(key@, value),
            r is Some <==> old(self)@.contains_key(key@),
            r is Some ==> r->Some_0 == old(self)@[key@],
            old(self)@.contains_key(key@) ==> final(self).names() == old(self).names(),
            !old(self)@.contains_key(key@) ==> final(self).names() == old(self).names().push(key@),
    {
        proof {
            use_type_invariant(&*self);
        }
        let ghost old_attrs = *self;
        let ghost k = key@;
        match self.position(key.as_str()) {
            Some(i) => {
                proof {
                    old_attrs.lemma_view_at(i as int);
                }
                let mut entries: Vec<(String, V)> = Vec::new();
                std::mem::swap(&mut entries, &mut self.entries);
                let previous = entries.remove(i);
                entries.insert(i, (key, value));
                proof {
                    assert forall|a: int, b: int| 0 <= a < b < entries@.len() implies entries@[a].0@ != entries@[b].0@ by {
                        if a != i as int && b != i as int {
                            assert(entries@[a] == old_attrs.entries@[a]);
                            assert(entries@[b] == old_attrs.entries@[b]);
                        } else if a == i as int {
                            assert(entries@[b] == old_attrs.entries@[b]);
                        } else {
                            assert(entries@[a] == old_attrs.entries@[a]);
                        }
                    }
                }
                self.entries = entries;
                proof {
                    use_type_invariant(&*self);
                    assert(self.entries@ =~= old_attrs.entries@.update(i as int, (self.entries@[i as int].0, value)));
                    assert(self.names() =~= old_attrs.names());
                    self.lemma_update_view(old_attrs, i as int);
                }
                Some(previous.1)
            },
            None => {
                let mut entries: Vec<(String, V)> = Vec::new();
                std::mem::swap(&mut entries, &mut self.entries);
                entries.push((key, value));
                proof {
                    assert(entries@.drop_last() =~= old_attrs.entries@);
                    assert forall|a: int, b: int| 0 <= a < b < entries@.len() implies entries@[a].0@ != entries@[b].0@ by {
                        if b < old_attrs.entries@.len() {
                            assert(entries@[a] == old_attrs.entries@[a]);
                            assert(entries@[b] == old_attrs.entries@[b]);
                        } else {
                            assert(entries@[a] == old_attrs.entries@[a]);
                        }
                    }
                }
                self.entries = entries;
                proof {
                    use_type_invariant(&*self);
                    assert(self.names() =~= old_attrs.names().push(k));
                    self.lemma_push_view(old_attrs);
                }
                None
            },
        }
    }

    proof fn lemma_update_view(&self, old_attrs: Self, i: int)
        requires
            self.keys_unique(),
            old_attrs.keys_unique(),
            0 <= i < old_attrs.entries@.len(),
            self.entries@ == old_attrs.entries@.update(i, self.entries@[i]),
            self.entries@[i].0@ == old_attrs.entries@[i].0@,
        ensures
            self@ == old_attrs@.insert(self.entries@[i].0@, self.entries@[i].1),
    {
        let k = self.entries@[i].0@;
        assert forall|key: Seq<char>| #[trigger] self@.contains_key(key) <==> old_attrs@.insert(k, self.entries@[i].1).contains_key(key) by {
            if self@.contains_key(key) {
                let j = choose|j: int| 0 <= j < self.entries@.len() && self.entries@[j].0@ == key;
                assert(old_attrs.entries@[j].0@ == key);
            }
            if old_attrs@.contains_key(key) {
                let j = choose|j: int| 0 <= j < old_attrs.entries@.len() && old_attrs.entries@[j].0@ == key;
                assert(self.entries@[j].0@ == key);
            }
            if key == k {
                assert(self.entries@[i].0@ == key);
            }
        }
        assert forall|key: Seq<char>| self@.contains_key(key) implies #[trigger] self@[key] == old_attrs@.insert(k, self.entries@[i].1)[key] by {
            let j = choose|j: int| 0 <= j < self.entries@.len() && self.entries@[j].0@ == key;
            self.lemma_view_at(j);
            if j != i {
                old_attrs.lemma_view_at(j);
            }
        }
        assert(self@ =~= old_attrs@.insert(k, self.entries@[i].1));
    }

    proof fn lemma_push_view(&self, old_attrs: Self)
        requires
            self.keys_unique(),
            old_attrs.keys_unique(),
            self.entries@.len() == old_attrs.entries@.len() + 1,
            self.entries@.drop_last() == old_attrs.entries@,
            !old_attrs@.contains_key(self.entries@.last().0@),
        ensures
            self@ == old_attrs@.insert(self.entries@.last().0@, self.entries@.last().1),
    {
        let i = old_attrs.entries@.len() as int;
        let k = self.entries@[i].0@;
        assert forall|j: int| 0 <= j < i implies #[trigger] self.entries@[j] == old_attrs.entries@[j] by {
            assert(self.entries@.drop_last()[j] == self.entries@[j]);
        }
        assert forall|key: Seq<char>| #[trigger] self@.contains_key(key) <==> old_attrs@.insert(k, self.entries@[i].1).contains_key(key) by {
            if self@.contains_key(key) {
                let j = choose|j: int| 0 <= j < self.entries@.len() && self.entries@[j].0@ == key;
                if j < i {
                    assert(old_attrs.entries@[j].0@ == key);
                }
            }
            if old_attrs@.contains_key(key) {
                let j = choose|j: int| 0 <= j < old_attrs.entries@.len() && old_attrs.entries@[j].0@ == key;
                assert(self.entries@[j].0@ == key);
            }
            if key == k {
                assert(self.entries@[i].0@ == key);
            }
        }
        assert forall|key: Seq<char>| self@.contains_key(key) implies #[trigger] self@[key] == old_attrs@.insert(k, self.entries@[i].1)[key] by {
            let j = choose|j: int| 0 <= j < self.entries@.len() && self.entries@[j].0@ == key;
            self.lemma_view_at(j);
            if j != i {
                old_attrs.lemma_view_at(j);
            }
        }
        assert(self@ =~= old_attrs@.insert(k, self.entries@[i].1));
    }
}

impl<V: Clone> Clone for NameMap<V> {
    fn clone(&self) -> (c: Self)
        ensures
            c.names() == self.names(),
    {
        proof {
            use_type_invariant(self);
        }
        let mut entries: Vec<(String, V)> = Vec::new();
        let mut i: usize = 0;
        while i < self.entries.len()
            invariant
                self.keys_unique(),
                i <= self.entries@.len(),
                entries@.len() == i,
                forall|j: int| 0 <= j < i ==> #[trigger] entries@[j].0@ == self.entries@[j].0@,
            decreases self.entries@.len() - i,
        {
            let key = self.entries[i].0.clone();
            let value = self.entries[i].1.clone();
            entries.push((key, value));
            i = i + 1;
        }
        let c = NameMap { entries };
        assert(c.names() =~= self.names());
        c
    }
}

} // verus!
