//! Claim a slot, fill the event in place, publish.

use vstd::prelude::*;

verus! {

use std::sync::Arc;
use crate::adapters::SequencerAdapter;
use crate::ringbuffer::RingBuffer;
use crate::Sequencer;

/// The publishing side of a pipeline: a sequencer handle and the ring the
/// claimed slots live in.
pub struct Publisher<E, S>
where
    E: Send + Sync + 'static,
    S: Sequencer,
{
    sequencer: SequencerAdapter<S>,
    ringbuffer: Arc<RingBuffer<E>>,
}

impl<E, S> Publisher<E, S>
where
    E: Send + Sync + 'static,
    S: Sequencer,
{
    /// The sequencer this publisher claims through.
    pub closed spec fn spec_sequencer(&self) -> S {
        self.sequencer@
    }

    /// A publisher over `ringbuffer` whose claims go through `sequencer`.
    pub fn new(sequencer: SequencerAdapter<S>, ringbuffer: Arc<RingBuffer<E>>) -> (r: Publisher<
        E,
        S,
    >)
        ensures
            r.spec_sequencer() == sequencer@,
    {
        Publisher { sequencer, ringbuffer }
    }

    /// Access to the underlying sequencer. The sequencer coordinates through
    /// shared references, so exclusive access to the publisher yields a
    /// shared borrow of it.
    pub fn mut_sequencer(&mut self) -> (r: &S)
        ensures
            *r == old(self).spec_sequencer(),
    {
        self.sequencer.borrow()
    }

    /// Shared access to the underlying sequencer.
    pub fn sequencer_ref(&self) -> (r: &S)
        ensures
            *r == self.spec_sequencer(),
    {
        self.sequencer.borrow()
    }

    /// Claims one sequence, rewrites the event in its slot with `f`, and
    /// publishes it. Returns false only when the claim never became safe
    /// within the retry bound, in which case nothing was written.
    pub fn publish<F: FnOnce(E) -> E>(&self, f: F) -> (r: bool)
        requires
            forall|e: E| f.requires((e,)),
    {
        match self.sequencer.next(1) {
            Some(sequence) => {
                let ringbuffer: &RingBuffer<E> = &self.ringbuffer;
                let (event, guard) = ringbuffer.acquire_slot(sequence);
                proof {
                    // The slot rewritten and released here is the one the
                    // claimed sequence maps to: its ring index modulo the
                    // capacity.
                    assert(guard.spec_lock() == ringbuffer.spec_slot(
                        sequence as int % ringbuffer.spec_capacity(),
                    ));
                }
                let event = f(event);
                guard.release(event);
                self.sequencer.publish(sequence);
                true
            },
            None => false,
        }
    }

    /// Claims `n` contiguous sequences, rewrites each claimed slot in order
    /// with `f` — which receives the sequence it is filling — and publishes
    /// the whole range. Returns false only when the claim never became safe
    /// within the retry bound, in which case nothing was written.
    pub fn batch_publish<F: Fn(i64, E) -> E>(&self, n: i64, f: F) -> (r: bool)
        requires
            n >= 1,
            forall|s: i64, e: E| f.requires((s, e)),
    {
        match self.sequencer.next(n) {
            Some(high) => {
                let low = high - n + 1;
                let ringbuffer: &RingBuffer<E> = &self.ringbuffer;
                let mut sequence = low;
                loop
                    invariant
                        0 <= low <= sequence <= high,
                        forall|s: i64, e: E| f.requires((s, e)),
                    decreases high - sequence,
                {
                    let (event, guard) = ringbuffer.acquire_slot(sequence);
                    let event = f(sequence, event);
                    guard.release(event);
                    if sequence == high {
                        break ;
                    }
                    sequence = sequence + 1;
                }
                self.sequencer.batch_publish(low, high);
                true
            },
            None => false,
        }
    }
}

} // verus!
