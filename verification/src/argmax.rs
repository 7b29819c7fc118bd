//! First-occurrence maximum selection.
//!
//! Both distribution variants reduce their queries to this scan: the
//! categorical mode query picks the first index of the largest logit, the
//! Gumbel-max sampler picks the first index of the largest perturbed logit,
//! and the log-density's stabilizing term is the largest logit itself.  The
//! caller supplies the values as order-preserving integer keys; the scan
//! seeds a running maximum with the first key and replaces it only on a
//! strictly greater key, so ties are broken toward the smallest index.

use vstd::prelude::*;

verus! {

/// Whether `r` is the first index of a largest element of `keys`: no element
/// exceeds `keys[r]`, and every element before `r` is strictly smaller.
pub open spec fn is_first_max(keys: Seq<u32>, r: int) -> bool {
    &&& 0 <= r < keys.len()
    &&& forall|j: int| 0 <= j < keys.len() ==> keys[j] <= keys[r]
    &&& forall|j: int| 0 <= j < r ==> keys[j] < keys[r]
}

/// The index of the first largest key, or 0 for an empty sequence: a
/// degenerate choice set still yields index 0 rather than a failure.
pub fn get_max(keys: &Vec<u32>) -> (r: usize)
    ensures
        keys@.len() == 0 ==> r == 0,
        keys@.len() > 0 ==> is_first_max(keys@, r as int),
{
    if keys.len() == 0 {
        return 0;
    }
    let mut index: usize = 0;
    let mut score: u32 = keys[0];
    let mut i: usize = 1;
    while i < keys.len()
        invariant
            1 <= i <= keys@.len(),
            index < i,
            score == keys@[index as int],
            forall|j: int| 0 <= j < i ==> keys@[j] <= score,
            forall|j: int| 0 <= j < index ==> keys@[j] < score,
        decreases keys@.len() - i,
    {
        if keys[i] > score {
            score = keys[i];
            index = i;
        }
        i = i + 1;
    }
    index
}

/// The first-occurrence maximum is unique: any two indices that both satisfy
/// `is_first_max` are equal, so the mode query is a function of the keys.
pub proof fn lemma_first_max_unique(keys: Seq<u32>, r1: int, r2: int)
    requires
        is_first_max(keys, r1),
        is_first_max(keys, r2),
    ensures
        r1 == r2,
{
    if r1 < r2 {
        assert(keys[r1] < keys[r2]);
        assert(keys[r2] <= keys[r1]);
    }
    if r2 < r1 {
        assert(keys[r2] < keys[r1]);
        assert(keys[r1] <= keys[r2]);
    }
}

/// Selection is invariant under any strictly monotone re-keying: scoring the
/// same choice set through two key encodings that order the elements alike
/// picks the same index.  A monotone embedding of the logits therefore never
/// changes which category the scan selects.
pub proof fn lemma_first_max_monotone(keys1: Seq<u32>, keys2: Seq<u32>, r1: int, r2: int)
    requires
        keys1.len() == keys2.len(),
        forall|i: int, j: int|
            0 <= i < keys1.len() && 0 <= j < keys1.len() ==> ((keys1[i] < keys1[j]) <==> (
            keys2[i] < keys2[j])),
        is_first_max(keys1, r1),
        is_first_max(keys2, r2),
    ensures
        r1 == r2,
{
    if r1 < r2 {
        assert(keys2[r1] < keys2[r2]);
        assert(keys1[r1] < keys1[r2]);
        assert(keys1[r2] <= keys1[r1]);
    }
    if r2 < r1 {
        assert(keys1[r2] < keys1[r1]);
        assert(keys2[r2] < keys2[r1]);
        assert(keys2[r1] <= keys2[r2]);
    }
}

} // verus!
