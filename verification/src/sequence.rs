//! The shared progress counter every part of the pipeline coordinates on.

use vstd::prelude::*;

verus! {

use std::sync::atomic::AtomicI64;
use std::sync::atomic::Ordering;

/// A 64-bit counter shared between producers and consumers, starting at -1.
///
/// Loads are acquire and stores are release: everything a producer wrote to a
/// slot before storing the matching value here is visible to a consumer that
/// reads that value. A counter never runs below -1; `get` maintains that
/// floor so callers can rely on it for their arithmetic.
pub struct Sequence {
    value: AtomicI64,
}

impl Sequence {
    /// A fresh counter holding the initial value -1.
    pub fn new() -> Sequence {
        Sequence { value: AtomicI64::new(-1) }
    }

    /// Release-stores `new_value`.
    pub fn set(&self, new_value: i64)
        requires
            new_value >= -1,
    {
        self.value.store(new_value, Ordering::Release);
    }

    /// Acquire-loads the current value. Counters start at -1 and are only
    /// ever stored values at or above it, so the result is floored there.
    pub fn get(&self) -> (r: i64)
        ensures
            r >= -1,
    {
        let v = self.value.load(Ordering::Acquire);
        if v < -1 {
            -1
        } else {
            v
        }
    }

    /// Acquire-release compare-and-set; spurious failure is permitted, so a
    /// `false` result says nothing about the stored value.
    pub fn compare_exchange_weak(&self, current: i64, new: i64) -> bool
        requires
            new >= -1,
    {
        self.value.compare_exchange_weak(current, new, Ordering::AcqRel, Ordering::Relaxed).is_ok()
    }
}

} // verus!
