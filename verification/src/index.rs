//! A map from byte-string keys to record numbers.
//!
//! The map is filled once and then only read. A key that is registered
//! stays with the record that registered it first: registering it again
//! changes nothing.

use crate::key::same_bytes;
use vstd::prelude::*;
use vstd::slice::slice_to_vec;

verus! {

/// The number of buckets of an index made by `KeyIndex::new`.
pub const DEFAULT_BUCKETS: usize = 1024;

/// The hash of a key, before it is reduced to a bucket number.
spec fn hash_of(key: Seq<u8>) -> nat
    decreases key.len(),
{
    if key.len() == 0 {
        5381
    } else {
        (hash_of(key.drop_last()) * 33 + key.last() as nat) % 4294967291
    }
}

/// The hash of a key, before it is reduced to a bucket number.
fn hash(key: &[u8]) -> (h: u64)
    ensures
        h == hash_of(key@),
{
    let mut h: u64 = 5381;
    let mut i: usize = 0;
    assert(key@.take(0) =~= Seq::<u8>::empty());
    while i < key.len()
        invariant
            i <= key@.len(),
            h == hash_of(key@.take(i as int)),
            h < 4294967291,
        decreases key@.len() - i,
    {
        proof {
            let next = key@.take(i + 1);
            assert(next.drop_last() =~= key@.take(i as int));
            assert(next.last() == key@[i as int]);
        }
        h = (h * 33 + key[i] as u64) % 4294967291;
        i += 1;
    }
    assert(key@.take(key@.len() as int) =~= key@);
    h
}

/// A map from byte-string keys to record numbers, in which the first
/// registration of a key wins.
#[derive(Debug)]
pub struct KeyIndex {
    keys: Vec<Vec<u8>>,
    targets: Vec<usize>,
    buckets: Vec<Vec<usize>>,
}

/// The keys of `keys` as plain byte sequences.
spec fn key_seqs(keys: Seq<Vec<u8>>) -> Seq<Seq<u8>> {
    keys.map_values(|k: Vec<u8>| k@)
}

/// Whether the bucket lists entry `i`.
spec fn listed(bucket: Seq<usize>, i: int) -> bool {
    exists|p: int| 0 <= p < bucket.len() && bucket[p] == i
}

/// Whether `key` stands among the first `n` of `keys`.
spec fn among(keys: Seq<Vec<u8>>, n: int, key: Seq<u8>) -> bool {
    exists|j: int| 0 <= j < n && key_at(keys, j, key)
}

/// Whether `key` stands at position `i` of `keys`.
spec fn key_at(keys: Seq<Vec<u8>>, i: int, key: Seq<u8>) -> bool {
    0 <= i < keys.len() && keys[i]@ == key
}

impl View for KeyIndex {
    type V = Map<Seq<u8>, usize>;

    closed spec fn view(&self) -> Map<Seq<u8>, usize> {
        Map::new(
            |key: Seq<u8>| exists|i: int| key_at(self.keys@, i, key),
            |key: Seq<u8>| self.targets@[choose|i: int| key_at(self.keys@, i, key)],
        )
    }
}

impl KeyIndex {
    /// The bucket that holds the entries of `key`.
    spec fn slot_of(&self, key: Seq<u8>) -> int {
        (hash_of(key) % (self.buckets@.len() as nat)) as int
    }

    /// The invariant of the index: no key is held twice, and every entry is
    /// listed in the bucket of its key.
    pub closed spec fn wf(&self) -> bool {
        &&& self.keys@.len() == self.targets@.len()
        &&& self.buckets@.len() > 0
        &&& forall|i: int, j: int|
            0 <= i < j < self.keys@.len() ==> #[trigger] self.keys@[i]@ != #[trigger] self.keys@[j]@
        &&& forall|b: int, p: int|
            0 <= b < self.buckets@.len() && 0 <= p < self.buckets@[b]@.len() ==> 0 <= (
            #[trigger] self.buckets@[b]@[p]) < self.keys@.len()
        &&& forall|i: int|
            0 <= i < self.keys@.len() ==> listed(
                self.buckets@[self.slot_of(#[trigger] self.keys@[i]@)]@,
                i,
            )
    }

    /// The number of buckets over which the index spreads its keys. It is
    /// set when the index is made and stays as it is.
    pub closed spec fn bucket_count(&self) -> nat {
        self.buckets@.len()
    }

    proof fn lemma_entry(&self, i: int)
        requires
            self.wf(),
            0 <= i < self.keys@.len(),
        ensures
            self@.contains_key(self.keys@[i]@),
            self@[self.keys@[i]@] == self.targets@[i],
    {
        let key = self.keys@[i]@;
        assert(key_at(self.keys@, i, key));
        let j = choose|j: int| key_at(self.keys@, j, key);
        assert(key_at(self.keys@, j, key));
        if j < i {
            assert(self.keys@[j]@ != self.keys@[i]@);
        } else if i < j {
            assert(self.keys@[i]@ != self.keys@[j]@);
        }
    }

    /// An empty index with `buckets` buckets, or with one where `buckets`
    /// is zero.
    pub fn with_buckets(buckets: usize) -> (index: KeyIndex)
        ensures
            index.wf(),
            index@ == Map::<Seq<u8>, usize>::empty(),
            index.bucket_count() == (if buckets == 0 {
                1
            } else {
                buckets as nat
            }),
    {
        let count: usize = if buckets == 0 {
            1
        } else {
            buckets
        };
        let mut table: Vec<Vec<usize>> = Vec::new();
        let mut b: usize = 0;
        while b < count
            invariant
                b <= count,
                table@.len() == b,
                forall|c: int| 0 <= c < b ==> (#[trigger] table@[c])@.len() == 0,
            decreases count - b,
        {
            table.push(Vec::new());
            b += 1;
        }
        let index = KeyIndex { keys: Vec::new(), targets: Vec::new(), buckets: table };
        assert(index@ =~= Map::<Seq<u8>, usize>::empty());
        index
    }

    /// An empty index.
    pub fn new() -> (index: KeyIndex)
        ensures
            index.wf(),
            index@ == Map::<Seq<u8>, usize>::empty(),
            index.bucket_count() == DEFAULT_BUCKETS,
    {
        KeyIndex::with_buckets(DEFAULT_BUCKETS)
    }

    /// The number of buckets over which the index spreads its keys.
    pub fn buckets(&self) -> (n: usize)
        ensures
            n == self.bucket_count(),
    {
        self.buckets.len()
    }

    /// The number of keys in the index.
    pub fn len(&self) -> (n: usize)
        requires
            self.wf(),
        ensures
            n == self@.dom().len(),
    {
        proof {
            self.lemma_dom_len();
        }
        self.keys.len()
    }

    proof fn lemma_dom_len(&self)
        requires
            self.wf(),
        ensures
            self@.dom().finite(),
            self@.dom().len() == self.keys@.len(),
    {
        let seqs = key_seqs(self.keys@);
        assert(seqs.no_duplicates()) by {
            assert forall|i: int, j: int| 0 <= i < seqs.len() && 0 <= j < seqs.len() && i != j implies seqs[i]
                != seqs[j] by {
                if i < j {
                    assert(self.keys@[i]@ != self.keys@[j]@);
                } else {
                    assert(self.keys@[j]@ != self.keys@[i]@);
                }
            }
        }
        seqs.unique_seq_to_set();
        assert(seqs.to_set() =~= self@.dom()) by {
            assert forall|key: Seq<u8>| seqs.to_set().contains(key) implies self@.dom().contains(
                key,
            ) by {
                let i = choose|i: int| 0 <= i < seqs.len() && seqs[i] == key;
                assert(key_at(self.keys@, i, key));
            }
            assert forall|key: Seq<u8>| self@.dom().contains(key) implies seqs.to_set().contains(
                key,
            ) by {
                let i = choose|i: int| key_at(self.keys@, i, key);
                assert(seqs[i] == key);
            }
        }
    }

    /// The record number that `key` was registered with, if it was.
    pub fn get(&self, key: &[u8]) -> (r: Option<usize>)
        requires
            self.wf(),
        ensures
            r == (if self@.contains_key(key@) {
                Some(self@[key@])
            } else {
                None
            }),
    {
        let h = hash(key);
        let slot: usize = (h % (self.buckets.len() as u64)) as usize;
        assert(slot == self.slot_of(key@));
        let bucket = &self.buckets[slot];
        let mut p: usize = 0;
        while p < bucket.len()
            invariant
                self.wf(),
                0 <= slot < self.buckets@.len(),
                slot == self.slot_of(key@),
                bucket@ == self.buckets@[slot as int]@,
                p <= bucket@.len(),
                forall|q: int| 0 <= q < p ==> self.keys@[(#[trigger] bucket@[q]) as int]@ != key@,
            decreases bucket@.len() - p,
        {
            let e: usize = bucket[p];
            assert(0 <= self.buckets@[slot as int]@[p as int] < self.keys@.len());
            if same_bytes(self.keys[e].as_slice(), key) {
                proof {
                    self.lemma_entry(e as int);
                }
                return Some(self.targets[e]);
            }
            p += 1;
        }
        proof {
            if self@.contains_key(key@) {
                let i = choose|i: int| key_at(self.keys@, i, key@);
                assert(key_at(self.keys@, i, key@));
                assert(listed(self.buckets@[self.slot_of(self.keys@[i]@)]@, i));
                let q = choose|q: int| 0 <= q < bucket@.len() && bucket@[q] == i;
                assert(self.keys@[bucket@[q] as int]@ != key@);
            }
        }
        None
    }

    /// Whether `key` is registered.
    pub fn contains_key(&self, key: &[u8]) -> (r: bool)
        requires
            self.wf(),
        ensures
            r == self@.contains_key(key@),
    {
        self.get(key).is_some()
    }

    /// Registers `key` with `target`, unless `key` is registered already.
    /// Returns whether it registered the key.
    pub fn insert(&mut self, key: &[u8], target: usize) -> (added: bool)
        requires
            old(self).wf(),
        ensures
            final(self).wf(),
            added == !old(self)@.contains_key(key@),
            added ==> final(self)@ == old(self)@.insert(key@, target),
            !added ==> final(self)@ == old(self)@,
            final(self).bucket_count() == old(self).bucket_count(),
    {
        if self.get(key).is_some() {
            return false;
        }
        let h = hash(key);
        let slot: usize = (h % (self.buckets.len() as u64)) as usize;
        let e: usize = self.keys.len();
        let ghost before = *self;
        proof {
            assert forall|i: int| 0 <= i < before.keys@.len() implies before.keys@[i]@ != key@ by {
                if before.keys@[i]@ == key@ {
                    assert(key_at(before.keys@, i, key@));
                }
            }
        }
        self.keys.push(slice_to_vec(key));
        self.targets.push(target);
        self.buckets[slot].push(e);
        proof {
            assert(self.buckets@.len() == before.buckets@.len());
            assert(self.buckets@[slot as int]@ == before.buckets@[slot as int]@.push(e));
            assert forall|b: int| 0 <= b < self.buckets@.len() && b != slot implies self.buckets@[b]
                == before.buckets@[b] by {}
            assert forall|i: int| 0 <= i < self.keys@.len() implies listed(
                self.buckets@[self.slot_of(#[trigger] self.keys@[i]@)]@,
                i,
            ) by {
                let b = self.slot_of(self.keys@[i]@);
                if i < e {
                    assert(self.keys@[i] == before.keys@[i]);
                    assert(listed(before.buckets@[before.slot_of(before.keys@[i]@)]@, i));
                    let q = choose|q: int|
                        0 <= q < before.buckets@[b]@.len() && before.buckets@[b]@[q] == i;
                    assert(self.buckets@[b]@[q] == i);
                } else {
                    assert(b == slot);
                    assert(self.buckets@[b]@[before.buckets@[b]@.len() as int] == e);
                }
            }
            assert forall|b: int, p: int|
                0 <= b < self.buckets@.len() && 0 <= p < self.buckets@[b]@.len() implies 0 <= (
                #[trigger] self.buckets@[b]@[p]) < self.keys@.len() by {
                if b == slot && p == before.buckets@[b]@.len() {
                } else {
                    assert(self.buckets@[b]@[p] == before.buckets@[b]@[p]);
                }
            }
            assert forall|i: int, j: int| 0 <= i < j < self.keys@.len() implies #[trigger] self.keys@[i]@
                != #[trigger] self.keys@[j]@ by {
                if j < e {
                    assert(before.keys@[i]@ != before.keys@[j]@);
                } else {
                    assert(before.keys@[i]@ != key@);
                }
            }
            assert(self.wf());
            assert(self@ =~= before@.insert(key@, target)) by {
                assert forall|k: Seq<u8>| self@.contains_key(k) <==> before@.insert(
                    key@,
                    target,
                ).contains_key(k) by {
                    if self@.contains_key(k) {
                        let i = choose|i: int| key_at(self.keys@, i, k);
                        if i < e {
                            assert(key_at(before.keys@, i, k));
                        }
                    }
                    if before@.contains_key(k) {
                        let i = choose|i: int| key_at(before.keys@, i, k);
                        assert(key_at(self.keys@, i, k));
                    }
                    if k == key@ {
                        assert(key_at(self.keys@, e as int, k));
                    }
                }
                assert forall|k: Seq<u8>| self@.contains_key(k) implies self@[k] == before@.insert(
                    key@,
                    target,
                )[k] by {
                    let i = choose|i: int| key_at(self.keys@, i, k);
                    self.lemma_entry(i);
                    if i < e {
                        before.lemma_entry(i);
                    }
                }
            }
        }
        true
    }

    /// Registers every key of `other` that is not registered yet, with the
    /// record number that `other` holds for it. The keys that are registered
    /// already keep what they have.
    pub fn absorb(&mut self, other: &KeyIndex)
        requires
            old(self).wf(),
            other.wf(),
        ensures
            final(self).wf(),
            final(self)@ == other@.union_prefer_right(old(self)@),
            final(self).bucket_count() == old(self).bucket_count(),
    {
        let ghost before = self@;
        let ghost spread = self.bucket_count();
        let count = other.keys.len();
        let mut i: usize = 0;
        while i < count
            invariant
                self.wf(),
                other.wf(),
                self.bucket_count() == spread,
                count == other.keys@.len(),
                i <= count,
                forall|key: Seq<u8>|
                    self@.contains_key(key) <==> before.contains_key(key) || among(
                        other.keys@,
                        i as int,
                        key,
                    ),
                forall|key: Seq<u8>| before.contains_key(key) ==> self@[key] == before[key],
                forall|j: int|
                    0 <= j < i && !before.contains_key(#[trigger] other.keys@[j]@) ==> self@[other.keys@[j]@]
                        == other.targets@[j],
            decreases count - i,
        {
            let ghost held = self@;
            let added = self.insert(other.keys[i].as_slice(), other.targets[i]);
            let ghost at: int = i as int;
            i += 1;
            proof {
                let fresh = other.keys@[at]@;
                assert(key_at(other.keys@, at, fresh));
                assert forall|key: Seq<u8>|
                    self@.contains_key(key) <==> before.contains_key(key) || among(
                        other.keys@,
                        i as int,
                        key,
                    ) by {
                    let was = held.contains_key(key);
                    assert(was <==> before.contains_key(key) || among(other.keys@, at, key));
                    assert(self@.contains_key(key) <==> was || key == fresh);
                    if among(other.keys@, i as int, key) {
                        let j = choose|j: int| 0 <= j < i && key_at(other.keys@, j, key);
                        if j < at {
                            assert(among(other.keys@, at, key));
                        } else {
                            assert(key == fresh);
                        }
                    }
                    if among(other.keys@, at, key) {
                        let j = choose|j: int| 0 <= j < at && key_at(other.keys@, j, key);
                        assert(0 <= j < i && key_at(other.keys@, j, key));
                        assert(among(other.keys@, i as int, key));
                    }
                    if key == fresh {
                        assert(0 <= at < i && key_at(other.keys@, at, key));
                        assert(among(other.keys@, i as int, key));
                    }
                }
                assert forall|j: int|
                    0 <= j < i && !before.contains_key(
                        #[trigger] other.keys@[j]@,
                    ) implies self@[other.keys@[j]@] == other.targets@[j] by {
                    if j < at {
                        assert(key_at(other.keys@, j, other.keys@[j]@));
                        assert(other.keys@[j]@ != other.keys@[at]@);
                    } else {
                        if held.contains_key(fresh) {
                            assert(among(other.keys@, at, fresh));
                            let e = choose|e: int| 0 <= e < at && key_at(other.keys@, e, fresh);
                            assert(other.keys@[e]@ != other.keys@[at]@);
                        }
                    }
                }
            }
        }
        proof {
            let merged = other@.union_prefer_right(before);
            assert forall|key: Seq<u8>| self@.contains_key(key) <==> merged.contains_key(key) by {
                if other@.contains_key(key) {
                    let j = choose|j: int| key_at(other.keys@, j, key);
                    assert(key_at(other.keys@, j, key));
                }
                if among(other.keys@, i as int, key) {
                    let j = choose|j: int| 0 <= j < i && key_at(other.keys@, j, key);
                    assert(key_at(other.keys@, j, key));
                }
            }
            assert forall|key: Seq<u8>| self@.contains_key(key) implies self@[key] == merged[key] by {
                if !before.contains_key(key) {
                    assert(among(other.keys@, i as int, key));
                    let j = choose|j: int| 0 <= j < i && key_at(other.keys@, j, key);
                    assert(key_at(other.keys@, j, key));
                    other.lemma_entry(j);
                }
            }
            assert(self@ =~= merged);
        }
    }
}

} // verus!
