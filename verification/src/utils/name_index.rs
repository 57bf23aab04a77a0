//! A map from names to values for large name sets: the names are spread
//! over buckets keyed by a 64-bit FNV-1a hash of their UTF-8 bytes.

use std::collections::HashMap;
use vstd::prelude::*;
use crate::utils::text::str_eq;

verus! {

broadcast use vstd::std_specs::hash::group_hash_axioms;

/// The 64-bit FNV-1a hash of a byte string.
pub open spec fn fnv1a(bytes: Seq<u8>) -> u64
    decreases bytes.len(),
{
    if bytes.len() == 0 {
        0xcbf2_9ce4_8422_2325u64
    } else {
        (fnv1a(bytes.drop_last()) ^ (bytes.last() as u64)).wrapping_mul(0x100_0000_01b3u64)
    }
}

/// The hash of a name: that of its UTF-8 encoding.
pub open spec fn name_hash(name: Seq<char>) -> u64 {
    fnv1a(vstd::utf8::encode_utf8(name))
}

/// The hash of a name.
fn hash_name(name: &str) -> (h: u64)
    ensures
        h == name_hash(name@),
{
    let bytes = name.as_bytes();
    let mut h: u64 = 0xcbf2_9ce4_8422_2325;
    let mut i: usize = 0;
    while i < bytes.len()
        invariant
            i <= bytes@.len(),
            h == fnv1a(bytes@.take(i as int)),
        decreases bytes@.len() - i,
    {
        proof {
            assert(bytes@.take(i + 1).drop_last() =~= bytes@.take(i as int));
        }
        h = (h ^ (bytes[i] as u64)).wrapping_mul(0x100_0000_01b3);
        i = i + 1;
    }
    assert(bytes@.take(bytes@.len() as int) =~= bytes@);
    h
}

/// Every entry of the bucket for hash `h` has a name hashing to `h`, and
/// no name occurs twice in it.
pub open spec fn bucket_ok<V>(b: Seq<(String, V)>, h: u64) -> bool {
    &&& forall|i: int| 0 <= i < b.len() ==> name_hash(#[trigger] b[i].0@) == h
    &&& forall|i: int, j: int| 0 <= i < j < b.len() ==> b[i].0@ != b[j].0@
}

/// Some entry of the bucket is named `k`.
pub open spec fn bucket_has<V>(b: Seq<(String, V)>, k: Seq<char>) -> bool {
    exists|i: int| 0 <= i < b.len() && b[i].0@ == k
}

/// The value of the entry of the bucket named `k`.
pub open spec fn bucket_value<V>(b: Seq<(String, V)>, k: Seq<char>) -> V {
    b[choose|i: int| 0 <= i < b.len() && b[i].0@ == k].1
}

/// A map from names to values, each name present at most once.
#[derive(Debug)]
pub struct NameIndex<V> {
    buckets: HashMap<u64, Vec<(String, V)>>,
}

impl<V> NameIndex<V> {
    #[verifier::type_invariant]
    spec fn well_bucketed(&self) -> bool {
        forall|h: u64| #[trigger] self.buckets@.contains_key(h) ==> bucket_ok(self.buckets@[h]@, h)
    }

    /// The bucket where name `k` belongs, empty when there is none.
    closed spec fn bucket_of(&self, k: Seq<char>) -> Seq<(String, V)> {
        if self.buckets@.contains_key(name_hash(k)) {
            self.buckets@[name_hash(k)]@
        } else {
            Seq::empty()
        }
    }

    /// The map from names to values.
    pub closed spec fn view(&self) -> Map<Seq<char>, V> {
        Map::new(
            |k: Seq<char>| bucket_has(self.bucket_of(k), k),
            |k: Seq<char>| bucket_value(self.bucket_of(k), k),
        )
    }

    /// An empty map.
    pub fn new() -> (m: Self)
        ensures
            m@ == Map::<Seq<char>, V>::empty(),
    {
        let m = NameIndex { buckets: HashMap::new() };
        assert(m@ =~= Map::<Seq<char>, V>::empty());
        m
    }

    /// Position of the entry named `key` in bucket `b`, if any.
    fn position_in(b: &Vec<(String, V)>, key: &str) -> (r: Option<usize>)
        ensures
            match r {
                Some(i) => i < b@.len() && b@[i as int].0@ == key@,
                None => !bucket_has(b@, key@),
            },
    {
        let mut i: usize = 0;
        while i < b.len()
            invariant
                i <= b@.len(),
                forall|j: int| 0 <= j < i ==> b@[j].0@ != key@,
            decreases b@.len() - i,
        {
            if str_eq(b[i].0.as_str(), key) {
                return Some(i);
            }
            i = i + 1;
        }
        None
    }

    /// The value named `key`, if present.
    pub fn get(&self, key: &str) -> (r: Option<&V>)
        ensures
            r is Some <==> self@.contains_key(key@),
            r is Some ==> *r->Some_0 == self@[key@],
    {
        proof {
            use_type_invariant(self);
        }
        let h = hash_name(key);
        match self.buckets.get(&h) {
            Some(b) => {
                assert(b@ == self.bucket_of(key@));
                match Self::position_in(b, key) {
                    Some(i) => {
                        proof {
                            assert(bucket_ok(b@, h));
                            let j = choose|j: int| 0 <= j < b@.len() && b@[j].0@ == key@;
                            assert(i as int == j);
                        }
                        Some(&b[i].1)
                    },
                    None => None,
                }
            },
            None => {
                assert(self.bucket_of(key@) =~= Seq::<(String, V)>::empty());
                None
            },
        }
    }

    /// Whether a value named `key` is present.
    pub fn contains_key(&self, key: &str) -> (b: bool)
        ensures
            b == self@.contains_key(key@),
    {
        self.get(key).is_some()
    }

    /// Sets the value named `key`, replacing a previous one.
    pub fn insert(&mut self, key: String, value: V)
        ensures
            final(self)@ == old(self)@.insert(key@, value),
    {
        proof {
            use_type_invariant(&*self);
        }
        let ghost old_index = *self;
        let h = hash_name(key.as_str());
        let mut buckets: HashMap<u64, Vec<(String, V)>> = HashMap::new();
        std::mem::swap(&mut buckets, &mut self.buckets);
        assert(buckets@ == old_index.buckets@);
        let mut bucket: Vec<(String, V)> = match buckets.remove(&h) {
            Some(b) => b,
            None => Vec::new(),
        };
        let ghost before = bucket@;
        proof {
            assert(before == old_index.bucket_of(key@));
            assert(bucket_ok(before, h));
        }
        let ghost k = key@;
        let ghost mut pos: int = 0;
        match Self::position_in(&bucket, key.as_str()) {
            Some(i) => {
                bucket.set(i, (key, value));
                proof {
                    pos = i as int;
                }
            },
            None => {
                bucket.push((key, value));
                proof {
                    pos = before.len() as int;
                }
            },
        }
        let ghost after = bucket@;
        assert(0 <= pos < after.len() && after[pos].0@ == k && after[pos].1 == value);
        proof {
            assert(after.len() >= 1);
            assert forall|i: int| 0 <= i < after.len() implies name_hash(#[trigger] after[i].0@) == h by {
                if i < before.len() && after[i] == before[i] {
                } else {
                    assert(after[i].0@ == key@);
                }
            }
            assert forall|i: int, j: int| 0 <= i < j < after.len() implies after[i].0@ != after[j].0@ by {
                if i < before.len() && j < before.len() && after[i] == before[i] && after[j] == before[j] {
                } else if after[i].0@ == key@ {
                    if j < before.len() {
                        assert(after[j] == before[j]);
                    }
                } else {
                    if i < before.len() {
                        assert(after[i] == before[i]);
                    }
                }
            }
        }
        let ghost rest = buckets@;
        buckets.insert(h, bucket);
        proof {
            assert(rest == old_index.buckets@.remove(h));
            assert forall|g: u64| #[trigger] buckets@.contains_key(g) implies bucket_ok(buckets@[g]@, g) by {
                if g != h {
                    assert(old_index.buckets@.contains_key(g));
                }
            }
        }
        self.buckets = buckets;
        proof {
            assert forall|n: Seq<char>| #[trigger] self@.contains_key(n) <==> old_index@.insert(k, value).contains_key(n) by {
                if name_hash(n) != h {
                    assert(self.bucket_of(n) == old_index.bucket_of(n));
                } else {
                    assert(self.bucket_of(n) == after);
                    assert(old_index.bucket_of(n) == before);
                    if n == k {
                        assert(after[pos].0@ == k);
                    } else {
                        if bucket_has(after, n) {
                            let p = choose|p: int| 0 <= p < after.len() && after[p].0@ == n;
                            assert(p < before.len() && after[p] == before[p]);
                        }
                        if bucket_has(before, n) {
                            let p = choose|p: int| 0 <= p < before.len() && before[p].0@ == n;
                            assert(after[p] == before[p]);
                        }
                    }
                }
            }
            assert forall|n: Seq<char>| self@.contains_key(n) implies #[trigger] self@[n] == old_index@.insert(k, value)[n] by {
                if name_hash(n) != h {
                    assert(self.bucket_of(n) == old_index.bucket_of(n));
                } else {
                    assert(self.bucket_of(n) == after);
                    assert(old_index.bucket_of(n) == before);
                    let p = choose|p: int| 0 <= p < after.len() && after[p].0@ == n;
                    if n == k {
                        assert(after[p].1 == value);
                    } else {
                        assert(p < before.len() && after[p] == before[p]);
                        let q = choose|q: int| 0 <= q < before.len() && before[q].0@ == n;
                        assert(q == p);
                    }
                }
            }
            assert(self@ =~= old_index@.insert(k, value));
        }
    }
}

} // verus!
