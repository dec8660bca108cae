//! The coordinator: holds the built pipeline and starts, stops and observes
//! its processors.

use vstd::prelude::*;

verus! {

use std::sync::Arc;
use crate::adapters::SequencerAdapter;
use crate::consumer_repository::ConsumerRepository;
use crate::ringbuffer::RingBuffer;
use crate::Executor;
use crate::Runnable;
use crate::Sequencer;

/// A built pipeline: the ring, the sequencer handle, the processor registry
/// and the executor the processors run on. Shutdown synchronization is the
/// caller's responsibility: stop publishing, then `stop`.
pub struct Disruptor<E, Exe, S>
where
    E: Send + Sync + 'static,
    Exe: Executor,
    S: Sequencer,
{
    executor: Exe,
    ringbuffer: Arc<RingBuffer<E>>,
    repository: ConsumerRepository,
    sequencer: SequencerAdapter<S>,
}

impl<E, Exe, S> Disruptor<E, Exe, S>
where
    E: Send + Sync + 'static,
    Exe: Executor,
    S: Sequencer,
{
    /// How many processors this coordinator holds.
    pub closed spec fn spec_consumer_count(&self) -> int {
        self.repository.spec_processors().len() as int
    }

    /// The executor the processors run on.
    pub closed spec fn spec_executor(&self) -> Exe {
        self.executor
    }

    /// A coordinator over an already-wired pipeline.
    pub fn new(
        executor: Exe,
        ringbuffer: Arc<RingBuffer<E>>,
        repository: ConsumerRepository,
        sequencer: SequencerAdapter<S>,
    ) -> (r: Disruptor<E, Exe, S>)
        ensures
            r.spec_consumer_count() == repository.spec_processors().len(),
            r.spec_ringbuffer() == ringbuffer,
            r.spec_executor() == executor,
    {
        Disruptor { executor, ringbuffer, repository, sequencer }
    }

    /// Hands every registered processor to the executor as a unit of work;
    /// the wiring itself does not change.
    pub fn start(&mut self)
        ensures
            *final(self) == *old(self),
    {
        let processors = self.repository.get_processors();
        let mut k: usize = 0;
        while k < processors.len()
            decreases processors@.len() - k,
        {
            let processor = processors[k].clone();
            let runnable: Box<dyn Runnable> = Box::new(processor);
            self.executor.execute(runnable);
            k = k + 1;
        }
    }

    /// Asks every registered processor to stop and interrupts their waits;
    /// the wiring itself does not change.
    pub fn stop(&mut self)
        ensures
            *final(self) == *old(self),
    {
        let processors = self.repository.get_processors();
        let mut k: usize = 0;
        while k < processors.len()
            decreases processors@.len() - k,
        {
            processors[k].halt();
            k = k + 1;
        }
    }

    /// The ring the pipeline runs over.
    pub closed spec fn spec_ringbuffer(&self) -> Arc<RingBuffer<E>> {
        self.ringbuffer
    }

    /// A shared handle to the ring the pipeline runs over.
    pub fn ringbuffer(&self) -> (r: Arc<RingBuffer<E>>)
        ensures
            r == self.spec_ringbuffer(),
    {
        self.ringbuffer.clone()
    }

    /// The executor the processors were (or will be) spawned on.
    pub fn executor(&self) -> (r: &Exe)
        ensures
            *r == self.spec_executor(),
    {
        &self.executor
    }

    /// Whether any processor still trails the publication cursor: true iff
    /// some registered processor's sequence was seen behind it. Observing
    /// changes nothing in the wiring.
    pub fn has_backlog(&mut self) -> (r: bool)
        ensures
            *final(self) == *old(self),
    {
        let cursor = self.sequencer.cursor().get();
        let processors = self.repository.get_processors();
        let mut k: usize = 0;
        while k < processors.len()
            decreases processors@.len() - k,
        {
            if cursor > processors[k].sequence().get() {
                return true;
            }
            k = k + 1;
        }
        false
    }
}

} // verus!
