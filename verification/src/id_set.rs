//! A set of byte strings, in buckets keyed by their leading bytes.

use std::collections::HashMap;

use vstd::prelude::*;

use crate::types::bytes_equal;

verus! {

/// The first `n` bytes of the id as a number; bytes beyond the last eight are shifted out.
pub open spec fn leading_bytes(id: Seq<u8>, n: nat) -> u64
    decreases n,
{
    if n == 0 {
        0
    } else {
        (leading_bytes(id, (n - 1) as nat) << 8u64) | (id[n - 1] as u64)
    }
}

/// The key of the bucket that holds an id.
pub open spec fn bucket_key(id: Seq<u8>) -> u64 {
    leading_bytes(
        id,
        if id.len() < 8 {
            id.len()
        } else {
            8
        },
    )
}

/// The bytes of the given slices, in order.
pub open spec fn slice_bytes(slices: Seq<&[u8]>) -> Seq<Seq<u8>> {
    Seq::new(slices.len(), |i: int| slices[i]@)
}

fn key_of(id: &[u8]) -> (r: u64)
    ensures
        r == bucket_key(id@),
{
    let n: usize = if id.len() < 8 {
        id.len()
    } else {
        8
    };
    let mut key: u64 = 0;
    let mut i: usize = 0;
    while i < n
        invariant
            i <= n <= id@.len(),
            key == leading_bytes(id@, i as nat),
        decreases n - i,
    {
        key = (key << 8u64) | (id[i] as u64);
        i = i + 1;
    }
    key
}

/// A set of ids that grows.
///
/// The table is keyed by integers, since those are the keys for which its model is known to hold;
/// the ids themselves stand in the buckets.
pub struct IdSet<'a> {
    buckets: HashMap<u64, Vec<&'a [u8]>>,
}

impl<'a> View for IdSet<'a> {
    type V = Set<Seq<u8>>;

    closed spec fn view(&self) -> Set<Seq<u8>> {
        Set::new(
            |id: Seq<u8>|
                self.buckets@.contains_key(bucket_key(id)) && slice_bytes(
                    self.buckets@[bucket_key(id)]@,
                ).contains(id),
        )
    }
}

impl<'a> IdSet<'a> {
    /// The empty set.
    pub fn new() -> (r: IdSet<'a>)
        ensures
            r@ == Set::<Seq<u8>>::empty(),
    {
        let r = IdSet { buckets: HashMap::new() };
        assert(r@ =~= Set::<Seq<u8>>::empty());
        r
    }

    /// Adds the id, and says whether it was not there before.
    pub fn insert(&mut self, id: &'a [u8]) -> (r: bool)
        ensures
            final(self)@ == old(self)@.insert(id@),
            r == !old(self)@.contains(id@),
    {
        broadcast use vstd::std_specs::hash::group_hash_axioms;

        let key = key_of(id);
        let mut bucket: Vec<&'a [u8]> = match self.buckets.remove(&key) {
            Some(bucket) => bucket,
            None => Vec::new(),
        };
        let ghost before = bucket@;
        let mut found = false;
        let mut i: usize = 0;
        while i < bucket.len()
            invariant
                i <= bucket@.len(),
                found == exists|j: int| 0 <= j < i && bucket@[j]@ == id@,
            decreases bucket@.len() - i,
        {
            if bytes_equal(bucket[i], id) {
                found = true;
                assert(bucket@[i as int]@ == id@);
            }
            i = i + 1;
        }
        if !found {
            bucket.push(id);
        }
        let ghost after = bucket@;
        self.buckets.insert(key, bucket);
        proof {
            assert(slice_bytes(before).contains(id@) == found) by {
                if found {
                    let j = choose|j: int| 0 <= j < before.len() && before[j]@ == id@;
                    assert(slice_bytes(before)[j] == id@);
                } else if slice_bytes(before).contains(id@) {
                    let j = choose|j: int| 0 <= j < before.len() && slice_bytes(before)[j] == id@;
                    assert(before[j]@ == id@);
                }
            }
            assert forall|other: Seq<u8>|
                slice_bytes(after).contains(other) == (slice_bytes(before).contains(other) || other
                    == id@) by {
                if slice_bytes(after).contains(other) {
                    let j = choose|j: int| 0 <= j < after.len() && slice_bytes(after)[j] == other;
                    if j < before.len() {
                        assert(slice_bytes(before)[j] == other);
                    }
                }
                if slice_bytes(before).contains(other) {
                    let j = choose|j: int|
                        0 <= j < before.len() && slice_bytes(before)[j] == other;
                    assert(slice_bytes(after)[j] == other);
                }
                if !found {
                    assert(slice_bytes(after)[before.len() as int] == id@);
                }
            }
            assert(self@ =~= old(self)@.insert(id@));
        }
        !found
    }
}

} // verus!
