//! The fluent constructor that wires handlers into a DAG of barriers.
//!
//! Three operators compose the DAG: `handler` starts a new parallel chain at
//! the head of the ring, `and` adds a peer to the current parallel group, and
//! `then` adds a sequential stage that fans in on the whole current group.

use vstd::prelude::*;

verus! {

use std::sync::Arc;
use crate::adapters::EventProcessorAdapter;
use crate::adapters::SequencerAdapter;
use crate::barrier::ProcessingSequenceBarrier;
use crate::batch_event_processor::BatchEventProcessor;
use crate::consumer_repository::ConsumerRepository;
use crate::disruptor::Disruptor;
use crate::multi_producer::MultiProducer;
use crate::multi_producer::MultiProducerSequencer;
use crate::protocol::is_power_of_two;
use crate::ringbuffer::RingBuffer;
use crate::sequence::Sequence;
use crate::single_producer::SingleProducer;
use crate::single_producer::SingleProducerSequencer;
use crate::util::clone_sequence_list;
use crate::EventFactory;
use crate::EventProcessor;
use crate::EventHandler;
use crate::Executor;
use crate::Producer;
use crate::Sequencer;
use crate::WaitStrategy;

/// The in-progress wiring of a pipeline: the barrier the next stage would
/// wait on, the sequences of the handlers most recently added (the fan-in
/// set of a following `then`), the registry, and the shared handles
/// everything is built around.
pub struct DisruptorBuilder<E, Exe, W, S, P>
where
    E: Send + Sync + 'static,
    Exe: Executor + 'static,
    W: WaitStrategy + 'static,
    S: Sequencer,
    P: Producer<E, S>,
{
    executor: Exe,
    wait_strategy: Arc<W>,
    ringbuffer: Arc<RingBuffer<E>>,
    repository: ConsumerRepository,
    sequences: Vec<Arc<Sequence>>,
    sequence_barrier: Arc<ProcessingSequenceBarrier<W, S>>,
    producer: P,
    sequencer: SequencerAdapter<S>,
}

impl<E, Exe, W, S, P> DisruptorBuilder<E, Exe, W, S, P>
where
    E: Send + Sync + 'static,
    Exe: Executor + 'static,
    W: WaitStrategy + 'static,
    S: Sequencer,
    P: Producer<E, S>,
{
    /// The sequences of the most recently added parallel group: what a
    /// following `then` stage will fan in on.
    pub closed spec fn spec_sequences(&self) -> Seq<Arc<Sequence>> {
        self.sequences@
    }

    /// The dependent set of the barrier the next `and` stage would share.
    pub closed spec fn spec_barrier_dependents(&self) -> Seq<Arc<Sequence>> {
        self.sequence_barrier.spec_dependents()
    }

    /// How many processors have been attached so far.
    pub closed spec fn spec_consumer_count(&self) -> int {
        self.repository.spec_processors().len() as int
    }

    /// The sequencer everything is wired around.
    pub closed spec fn spec_sequencer(&self) -> S {
        self.sequencer@
    }

    /// The ring every attached processor reads from.
    pub closed spec fn spec_ringbuffer(&self) -> Arc<RingBuffer<E>> {
        self.ringbuffer
    }

    /// How many slots that ring holds.
    pub closed spec fn spec_ring_capacity(&self) -> int {
        self.ringbuffer@.len() as int
    }
}

impl<E, Exe, W>
    DisruptorBuilder<E, Exe, W, SingleProducerSequencer, SingleProducer<E, SingleProducerSequencer>>
where
    E: Send + Sync + 'static,
    Exe: Executor + 'static,
    W: WaitStrategy + 'static,
{
    /// A builder around a single-producer sequencer over a fresh ring of
    /// `buffer_size` slots. The head barrier depends on the cursor alone; no
    /// handlers are attached yet.
    pub fn new_single_producer<F: EventFactory<E> + 'static>(
        buffer_size: i64,
        event_factory: F,
        executor: Exe,
        wait_strategy: W,
    ) -> (r: Self)
        requires
            is_power_of_two(buffer_size),
        ensures
            r.spec_sequences().len() == 0,
            r.spec_consumer_count() == 0,
            r.spec_barrier_dependents() == seq![r.spec_sequencer().spec_cursor()],
            r.spec_sequencer().spec_buffer_size() == buffer_size,
            r.spec_ring_capacity() == buffer_size,
    {
        let sequencer = SingleProducerSequencer::new(buffer_size);
        let sequencer_adapter = SequencerAdapter::new(sequencer);
        let ringbuffer = Arc::new(RingBuffer::new(buffer_size, event_factory));
        let producer = SingleProducer::new(sequencer_adapter.clone(), ringbuffer.clone());
        let cursor = sequencer_adapter.cursor();
        let wait_strategy_arc = Arc::new(wait_strategy);
        let sequence_barrier = Arc::new(
            ProcessingSequenceBarrier::new(
                wait_strategy_arc.clone(),
                sequencer_adapter.clone(),
                vec![cursor],
            ),
        );
        DisruptorBuilder {
            executor,
            wait_strategy: wait_strategy_arc,
            ringbuffer,
            repository: ConsumerRepository::new(),
            sequences: Vec::new(),
            sequence_barrier,
            producer,
            sequencer: sequencer_adapter,
        }
    }

    /// Finishes the wiring and hands out the coordinator together with the
    /// producer.
    pub fn build_with_producer(self) -> (r: (
        Disruptor<E, Exe, SingleProducerSequencer>,
        SingleProducer<E, SingleProducerSequencer>,
    ))
        ensures
            r.0.spec_consumer_count() == self.spec_consumer_count(),
            r.0.spec_ringbuffer() == self.spec_ringbuffer(),
    {
        (
            Disruptor::new(self.executor, self.ringbuffer, self.repository, self.sequencer),
            self.producer,
        )
    }
}

impl<E, Exe, W>
    DisruptorBuilder<E, Exe, W, MultiProducerSequencer, MultiProducer<E, MultiProducerSequencer>>
where
    E: Send + Sync + 'static,
    Exe: Executor + 'static,
    W: WaitStrategy + 'static,
{
    /// A builder around a multi-producer sequencer over a fresh ring of
    /// `buffer_size` slots. The head barrier depends on the cursor alone; no
    /// handlers are attached yet.
    pub fn new_multi_producer<F: EventFactory<E> + 'static>(
        buffer_size: i64,
        event_factory: F,
        executor: Exe,
        wait_strategy: W,
    ) -> (r: DisruptorBuilder<
        E,
        Exe,
        W,
        MultiProducerSequencer,
        MultiProducer<E, MultiProducerSequencer>,
    >)
        requires
            is_power_of_two(buffer_size),
        ensures
            r.spec_sequences().len() == 0,
            r.spec_consumer_count() == 0,
            r.spec_barrier_dependents() == seq![r.spec_sequencer().spec_cursor()],
            r.spec_sequencer().spec_buffer_size() == buffer_size,
            r.spec_ring_capacity() == buffer_size,
    {
        let sequencer = MultiProducerSequencer::new(buffer_size);
        let sequencer_adapter = SequencerAdapter::new(sequencer);
        let ringbuffer = Arc::new(RingBuffer::new(buffer_size, event_factory));
        let producer = MultiProducer::new(sequencer_adapter.clone(), ringbuffer.clone());
        let cursor = sequencer_adapter.cursor();
        let wait_strategy_arc = Arc::new(wait_strategy);
        let sequence_barrier = Arc::new(
            ProcessingSequenceBarrier::new(
                wait_strategy_arc.clone(),
                sequencer_adapter.clone(),
                vec![cursor],
            ),
        );
        DisruptorBuilder {
            executor,
            wait_strategy: wait_strategy_arc,
            ringbuffer,
            repository: ConsumerRepository::new(),
            sequences: Vec::new(),
            sequence_barrier,
            producer,
            sequencer: sequencer_adapter,
        }
    }

    /// Finishes the wiring and hands out the coordinator together with a
    /// cloneable producer.
    pub fn build_with_producer(self) -> (r: (
        Disruptor<E, Exe, MultiProducerSequencer>,
        MultiProducer<E, MultiProducerSequencer>,
    ))
        ensures
            r.0.spec_consumer_count() == self.spec_consumer_count(),
            r.0.spec_ringbuffer() == self.spec_ringbuffer(),
    {
        (
            Disruptor::new(self.executor, self.ringbuffer, self.repository, self.sequencer),
            self.producer,
        )
    }

    /// Another handle to the shared producer, usable before the build is
    /// finished.
    pub fn producer(&self) -> MultiProducer<E, MultiProducerSequencer> {
        self.producer.clone()
    }
}

/// A builder around a single-producer sequencer; the common entry point.
pub fn builder<E, F, Exe, W>(
    buffer_size: i64,
    event_factory: F,
    executor: Exe,
    wait_strategy: W,
) -> (r: DisruptorBuilder<
    E,
    Exe,
    W,
    SingleProducerSequencer,
    SingleProducer<E, SingleProducerSequencer>,
>) where
    E: Send + Sync + 'static,
    F: EventFactory<E> + 'static,
    Exe: Executor + 'static,
    W: WaitStrategy + 'static,

    requires
        is_power_of_two(buffer_size),
    ensures
        r.spec_sequences().len() == 0,
        r.spec_consumer_count() == 0,
        r.spec_barrier_dependents() == seq![r.spec_sequencer().spec_cursor()],
        r.spec_sequencer().spec_buffer_size() == buffer_size,
        r.spec_ring_capacity() == buffer_size,
{
    DisruptorBuilder::new_single_producer(buffer_size, event_factory, executor, wait_strategy)
}

impl<E, Exe, W, S, P> DisruptorBuilder<E, Exe, W, S, P>
where
    E: Send + Sync + 'static,
    Exe: Executor + 'static,
    W: WaitStrategy + 'static,
    S: Sequencer,
    P: Producer<E, S>,
{
    /// Starts a new parallel chain at the head of the ring: the handler's
    /// processor waits on the cursor alone, and the fan-in set is reset to
    /// exactly this handler, so a following `then` applies to it only.
    /// Chains added before keep gating the producers but are no longer
    /// fan-in dependencies.
    pub fn handler<H: EventHandler<E> + 'static>(self, handler: H) -> (r: Self)
        ensures
            r.spec_sequences().len() == 1,
            r.spec_consumer_count() == self.spec_consumer_count() + 1,
            r.spec_barrier_dependents() == seq![self.spec_sequencer().spec_cursor()],
            r.spec_sequencer() == self.spec_sequencer(),
    {
        let mut this = self;
        let sequence_barrier = Arc::new(
            ProcessingSequenceBarrier::new(
                this.wait_strategy.clone(),
                this.sequencer.clone(),
                vec![this.sequencer.cursor()],
            ),
        );
        let processor = BatchEventProcessor::new(
            handler,
            Arc::clone(&this.ringbuffer),
            Arc::clone(&sequence_barrier),
        );
        let sequence = processor.sequence();
        this.sequences.clear();
        this.sequences.push(sequence.clone());
        this.repository.add(EventProcessorAdapter::new(Box::new(processor)));
        this.sequencer.add_gating_sequence(sequence);
        this.sequence_barrier = sequence_barrier;
        this
    }

    /// Adds a peer to the current parallel group: the handler's processor
    /// shares the group's barrier, and its sequence joins the fan-in set.
    pub fn and<H: EventHandler<E> + 'static>(self, handler: H) -> (r: Self)
        ensures
            r.spec_sequences().len() == self.spec_sequences().len() + 1,
            r.spec_sequences().subrange(0, self.spec_sequences().len() as int)
                == self.spec_sequences(),
            r.spec_barrier_dependents() == self.spec_barrier_dependents(),
            r.spec_consumer_count() == self.spec_consumer_count() + 1,
            r.spec_sequencer() == self.spec_sequencer(),
    {
        let mut this = self;
        let processor = BatchEventProcessor::new(
            handler,
            Arc::clone(&this.ringbuffer),
            Arc::clone(&this.sequence_barrier),
        );
        let sequence = processor.sequence();
        this.sequences.push(sequence.clone());
        this.repository.add(EventProcessorAdapter::new(Box::new(processor)));
        this.sequencer.add_gating_sequence(sequence);
        proof {
            assert(this.sequences@.subrange(0, self.sequences@.len() as int)
                =~= self.sequences@);
        }
        this
    }

    /// Adds a sequential stage after the current parallel group: the
    /// handler's processor waits on every sequence of the group (fan-in),
    /// and the fan-in set is reset to exactly this handler. A `then` with no
    /// preceding group falls back to the cursor.
    pub fn then<H: EventHandler<E> + 'static>(self, handler: H) -> (r: Self)
        ensures
            self.spec_sequences().len() > 0 ==> r.spec_barrier_dependents()
                == self.spec_sequences(),
            self.spec_sequences().len() == 0 ==> r.spec_barrier_dependents() == seq![
                self.spec_sequencer().spec_cursor(),
            ],
            r.spec_sequences().len() == 1,
            r.spec_consumer_count() == self.spec_consumer_count() + 1,
            r.spec_sequencer() == self.spec_sequencer(),
    {
        let mut this = self;
        let sequence_barrier = Arc::new(
            ProcessingSequenceBarrier::new(
                this.wait_strategy.clone(),
                this.sequencer.clone(),
                clone_sequence_list(&this.sequences),
            ),
        );
        let processor = BatchEventProcessor::new(
            handler,
            Arc::clone(&this.ringbuffer),
            Arc::clone(&sequence_barrier),
        );
        let sequence = processor.sequence();
        this.sequences.clear();
        this.sequences.push(sequence.clone());
        this.repository.add(EventProcessorAdapter::new(Box::new(processor)));
        this.sequencer.add_gating_sequence(sequence);
        this.sequence_barrier = sequence_barrier;
        this
    }
}

} // verus!
