//! Shared handles that let one sequencer or processor be held by several
//! parts of the pipeline at once.

use vstd::prelude::*;

verus! {

use std::sync::Arc;
use crate::sequence::Sequence;
use crate::shared_ref::SharedRef;
use crate::EventProcessor;
use crate::Runnable;
use crate::Sequencer;

/// A cloneable handle to one event processor, stored by the consumer
/// registry and handed to the executor.
pub struct EventProcessorAdapter {
    processor: SharedRef<Box<dyn EventProcessor>>,
}

impl EventProcessorAdapter {
    /// Wraps `processor` in a shared handle.
    pub fn new(processor: Box<dyn EventProcessor>) -> EventProcessorAdapter {
        EventProcessorAdapter { processor: SharedRef::new(processor) }
    }

    /// The progress counter of the wrapped processor.
    pub fn sequence(&self) -> Arc<Sequence> {
        self.processor.borrow().sequence()
    }

    /// Whether the wrapped processor's loop is currently executing.
    pub fn running(&self) -> bool {
        self.processor.borrow().running()
    }

    /// Asks the wrapped processor to stop.
    pub fn halt(&self) {
        self.processor.borrow().halt();
    }
}

impl Runnable for EventProcessorAdapter {
    fn run(&mut self) {
        self.processor.borrow().run();
    }
}

impl Clone for EventProcessorAdapter {
    /// A second handle to the same processor.
    fn clone(&self) -> (r: Self) {
        EventProcessorAdapter { processor: self.processor.clone() }
    }
}

/// A cloneable handle to one sequencer, shared between the producer facade,
/// the barriers and the coordinator. Every sequencer operation goes through a
/// shared borrow.
pub struct SequencerAdapter<S>
where
    S: Sequencer,
{
    sequencer: SharedRef<S>,
}

impl<S> View for SequencerAdapter<S>
where
    S: Sequencer,
{
    type V = S;

    closed spec fn view(&self) -> S {
        self.sequencer@
    }
}

impl<S> SequencerAdapter<S>
where
    S: Sequencer,
{
    /// Wraps `sequencer` in a shared handle.
    pub fn new(sequencer: S) -> (r: SequencerAdapter<S>)
        ensures
            r@ == sequencer,
    {
        SequencerAdapter { sequencer: SharedRef::new(sequencer) }
    }

    /// Borrows the wrapped sequencer.
    pub fn borrow(&self) -> (r: &S)
        ensures
            *r == self@,
    {
        self.sequencer.borrow()
    }

    /// Forwards to [`Sequencer::next`].
    pub fn next(&self, n: i64) -> (r: Option<i64>)
        requires
            n >= 1,
        ensures
            r is Some ==> r->Some_0 >= n - 1,
    {
        self.sequencer.borrow().next(n)
    }

    /// Forwards to [`Sequencer::publish`].
    pub fn publish(&self, sequence: i64)
        requires
            sequence >= 0,
    {
        self.sequencer.borrow().publish(sequence);
    }

    /// Forwards to [`Sequencer::batch_publish`].
    pub fn batch_publish(&self, low: i64, high: i64)
        requires
            0 <= low <= high,
    {
        self.sequencer.borrow().batch_publish(low, high);
    }

    /// Forwards to [`Sequencer::highest_published`].
    pub fn highest_published(&self, next_sequence: i64, available_sequence: i64) -> (r: i64)
        requires
            next_sequence >= 0,
            next_sequence - 1 <= available_sequence,
        ensures
            next_sequence - 1 <= r <= available_sequence,
    {
        self.sequencer.borrow().highest_published(next_sequence, available_sequence)
    }

    /// Forwards to [`Sequencer::available`].
    pub fn available(&self, sequence: i64) -> bool
        requires
            sequence >= 0,
    {
        self.sequencer.borrow().available(sequence)
    }

    /// Forwards to [`Sequencer::cursor`].
    pub fn cursor(&self) -> (r: Arc<Sequence>)
        ensures
            r == self@.spec_cursor(),
    {
        self.sequencer.borrow().cursor()
    }

    /// Forwards to [`Sequencer::add_gating_sequence`].
    pub fn add_gating_sequence(&self, gating_sequence: Arc<Sequence>) {
        self.sequencer.borrow().add_gating_sequence(gating_sequence);
    }

    /// Forwards to [`Sequencer::buffer_size`].
    pub fn buffer_size(&self) -> (r: i64)
        ensures
            r == self@.spec_buffer_size(),
    {
        self.sequencer.borrow().buffer_size()
    }
}

impl<S> Clone for SequencerAdapter<S>
where
    S: Sequencer,
{
    /// A second handle to the same sequencer.
    fn clone(&self) -> (r: Self)
        ensures
            r@ == self@,
    {
        SequencerAdapter { sequencer: self.sequencer.clone() }
    }
}

} // verus!
