//! Helpers shared by the sequencers.

use vstd::prelude::*;

verus! {

use std::sync::Arc;
use crate::sequence::Sequence;

/// The smallest current value among `sequences`, or 0 when the list is
/// empty. Each counter is floored at -1, so the minimum is too.
pub(crate) fn minimum_sequence(sequences: &Vec<Arc<Sequence>>) -> (r: i64)
    ensures
        r >= -1,
        sequences@.len() == 0 ==> r == 0,
{
    if sequences.len() == 0 {
        return 0;
    }
    let mut min: i64 = sequences[0].get();
    let mut k: usize = 1;
    while k < sequences.len()
        invariant
            1 <= k <= sequences@.len(),
            min >= -1,
        decreases sequences@.len() - k,
    {
        let v = sequences[k].get();
        if v < min {
            min = v;
        }
        k = k + 1;
    }
    min
}

/// A fresh list of handles to the same counters, in the same order.
pub(crate) fn clone_sequence_list(sequences: &Vec<Arc<Sequence>>) -> (r: Vec<Arc<Sequence>>)
    ensures
        r@ == sequences@,
{
    let mut cloned: Vec<Arc<Sequence>> = Vec::new();
    let mut k: usize = 0;
    while k < sequences.len()
        invariant
            k <= sequences@.len(),
            cloned@ == sequences@.subrange(0, k as int),
        decreases sequences@.len() - k,
    {
        cloned.push(sequences[k].clone());
        k = k + 1;
    }
    proof {
        assert(cloned@ =~= sequences@);
    }
    cloned
}

} // verus!
