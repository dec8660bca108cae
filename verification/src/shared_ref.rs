//! A counted shared handle used to hand one sequencer or processor to several
//! parts of the pipeline.

use vstd::prelude::*;

verus! {

use std::sync::atomic::AtomicUsize;
use std::sync::atomic::Ordering;
use std::sync::Arc;

/// The shared cell: the value together with a count of the handles that
/// were made for it.
pub struct Counter<T> {
    c: T,
    count: AtomicUsize,
}

/// A cheaply cloneable handle to a shared value. Cloning bumps the handle
/// count; the value itself is reachable only by shared reference, and is
/// freed when the last handle goes away.
pub struct SharedRef<T> {
    counter: Arc<Counter<T>>,
}

impl<T> View for Counter<T> {
    type V = T;

    closed spec fn view(&self) -> T {
        self.c
    }
}

impl<T> View for SharedRef<T> {
    type V = T;

    closed spec fn view(&self) -> T {
        self.counter@
    }
}

impl<T> SharedRef<T> {
    /// Wraps `c` in a fresh shared cell with one live handle.
    pub fn new(c: T) -> (r: SharedRef<T>)
        ensures
            r@ == c,
    {
        SharedRef { counter: Arc::new(Counter { c, count: AtomicUsize::new(1) }) }
    }

    /// Borrows the shared value.
    pub fn borrow(&self) -> (r: &T)
        ensures
            *r == self@,
    {
        &self.counter.c
    }
}

impl<T> Clone for SharedRef<T> {
    /// A new handle to the same cell.
    fn clone(&self) -> (r: Self)
        ensures
            r@ == self@,
    {
        self.counter.count.fetch_add(1, Ordering::Relaxed);
        SharedRef { counter: self.counter.clone() }
    }
}

} // verus!
