//! A low-latency in-process event pipeline built around a pre-allocated ring
//! buffer whose slots are coordinated by monotonically increasing sequence
//! counters.
//!
//! Producers claim slots through a [`Sequencer`], write the event in place and
//! publish; consumers drain contiguous runs of published slots through a
//! [`SequenceBarrier`] and hand each event to an [`EventHandler`]. The
//! [`builder::DisruptorBuilder`] wires handlers into parallel groups and
//! sequential stages, yielding a DAG of barriers.

pub mod adapters;
pub mod barrier;
pub mod batch_event_processor;
pub mod builder;
pub mod consumer_repository;
pub mod disruptor;
pub mod multi_producer;
pub mod protocol;
pub mod publisher;
pub mod ringbuffer;
pub mod sequence;
pub mod shared_ref;
pub mod single_producer;
pub mod util;
pub mod wait_strategy;
mod work_processor;

pub use adapters::{EventProcessorAdapter, SequencerAdapter};
pub use barrier::ProcessingSequenceBarrier;
pub use batch_event_processor::BatchEventProcessor;
pub use builder::DisruptorBuilder;
pub use consumer_repository::ConsumerRepository;
pub use disruptor::Disruptor;
pub use multi_producer::MultiProducer;
pub use multi_producer::MultiProducerSequencer;
pub use publisher::Publisher;
pub use ringbuffer::RingBuffer;
pub use sequence::Sequence;
pub use shared_ref::SharedRef;
pub use single_producer::SingleProducer;
pub use single_producer::SingleProducerSequencer;
pub use work_processor::WorkProcessor;

use vstd::prelude::*;

verus! {

use std::sync::Arc;
use vstd::rwlock::RwLockPredicate;

/// Lifecycle state of a processor that has been built but not started.
pub const STATE_IDLE: u8 = 0;

/// Lifecycle state requested by `halt`; the running loop re-normalizes to
/// `STATE_IDLE` on exit.
pub const STATE_HALTED: u8 = 1;

/// Lifecycle state of a processor whose consumer loop is executing.
pub const STATE_RUNNING: u8 = 2;

/// How many times a claim or wait loop retries before giving up. The bound
/// exists so that every loop provably terminates; it is far beyond what any
/// real workload can exhaust.
pub const SPIN_LIMIT: u64 = 0xffff_ffff_ffff_ffff;

/// Relies on std::hint::spin_loop: emits a CPU pause hint and returns; it has
/// no observable effect on any value.
pub assume_specification[ std::hint::spin_loop ]();

/// A lock predicate that admits every value; used for cells whose contents
/// carry no invariant of their own (event slots, user handlers).
pub struct AnyValue;

impl<V> RwLockPredicate<V> for AnyValue {
    open spec fn inv(self, v: V) -> bool {
        true
    }
}

/// The slot-ownership protocol: claim a range of sequences, publish them, and
/// answer which published prefix a consumer may safely read.
pub trait Sequencer: Send + Sync + 'static {
    /// The capacity of the ring this sequencer guards.
    spec fn spec_buffer_size(&self) -> i64;

    /// Reserves `n` contiguous sequences and returns the highest one, spinning
    /// while the claim would overwrite a slot some gating sequence has not
    /// passed. `None` only after the retry bound is exhausted; callers treat
    /// that as the claim never becoming safe.
    fn next(&self, n: i64) -> (r: Option<i64>)
        requires
            n >= 1,
        ensures
            r is Some ==> r->Some_0 >= n - 1,
    ;

    /// Marks `sequence` as visible to consumers.
    fn publish(&self, sequence: i64)
        requires
            sequence >= 0,
    ;

    /// Marks every sequence in `[low, high]` as visible to consumers.
    fn batch_publish(&self, low: i64, high: i64)
        requires
            0 <= low <= high,
    ;

    /// Given the contiguous range `[next_sequence, available_sequence]`,
    /// returns the largest `h` such that every sequence up to `h` was seen
    /// published, or `next_sequence - 1` if `next_sequence` itself was not.
    fn highest_published(&self, next_sequence: i64, available_sequence: i64) -> (r: i64)
        requires
            next_sequence >= 0,
            next_sequence - 1 <= available_sequence,
        ensures
            next_sequence - 1 <= r <= available_sequence,
    ;

    /// Whether slot `sequence` is currently visible to consumers.
    fn available(&self, sequence: i64) -> bool
        requires
            sequence >= 0,
    ;

    /// The publication front a head-of-chain consumer waits on.
    spec fn spec_cursor(&self) -> Arc<Sequence>;

    /// A shared handle to the publication front.
    fn cursor(&self) -> (r: Arc<Sequence>)
        ensures
            r == self.spec_cursor(),
    ;

    /// Registers a downstream sequence whose value caps producer advance.
    fn add_gating_sequence(&self, gating_sequence: Arc<Sequence>);

    /// The capacity of the ring this sequencer guards.
    fn buffer_size(&self) -> (r: i64)
        ensures
            r == self.spec_buffer_size(),
    ;
}

/// A consumer's view of how far it may read: dependent sequences, a wait
/// strategy, and a sticky alert flag.
pub trait SequenceBarrier: Send + Sync {
    /// Waits until `sequence` is reachable and returns the highest sequence
    /// the caller may process, or `None` on alert (or when the retry bound of
    /// the wait strategy is exhausted, which a caller treats the same way).
    fn wait_for(&self, sequence: i64) -> (r: Option<i64>)
        requires
            sequence >= 0,
        ensures
            r is Some ==> r->Some_0 >= sequence - 1,
    ;

    /// Raises the alert flag and wakes any blocked waiter.
    fn alert(&self);

    /// Lowers the alert flag.
    fn clear_alert(&self);
}

/// Policy for how a consumer waits until the minimum of its dependent
/// sequences reaches a target.
pub trait WaitStrategy: Send + Sync + 'static {
    /// Returns `Some(v)` with `v >= sequence` once the dependents have passed
    /// `sequence`, or `None` if `check_alert` returned true during the wait or
    /// the retry bound ran out.
    fn wait_for<F: Fn() -> bool>(
        &self,
        sequence: i64,
        cursor: Arc<Sequence>,
        dependent_sequence: &Vec<Arc<Sequence>>,
        check_alert: F,
    ) -> (r: Option<i64>)
        requires
            sequence >= 0,
            forall|a: ()| check_alert.requires(a),
        ensures
            r is Some ==> r->Some_0 >= sequence,
    ;

    /// Wakes blocked waiters; a no-op for spinning strategies.
    fn signal_all_when_blocking(&self);
}

/// Builds one event; invoked once per slot when a ring buffer is constructed.
pub trait EventFactory<E> {
    fn new(&self) -> E;
}

/// User callback driven by a batch event processor.
pub trait EventHandler<E>: Send + Sync + 'static {
    fn on_event(&mut self, event: &mut E, sequence: i64, end_of_batch: bool);
}

/// User callback driven by a work processor; peers in a pool compete for
/// events, so no sequence or batch information is passed.
pub trait WorkHandler<E>: Send + Sync + 'static {
    fn on_event(&mut self, event: &mut E);
}

/// A long-lived unit of work an executor drives to completion on some thread.
pub trait Runnable: Send {
    fn run(&mut self);
}

/// A consumer loop together with its progress counter and lifecycle controls.
/// Every method takes a shared reference so the processor can be driven
/// through a shared handle while another holder halts it.
pub trait EventProcessor: Send + Sync {
    /// Runs the consumer loop until halted (or until the retry bound of the
    /// loop is exhausted).
    fn run(&self);

    /// This processor's own progress counter.
    fn sequence(&self) -> Arc<Sequence>;

    /// Whether the consumer loop is currently executing.
    fn running(&self) -> bool;

    /// Asks the consumer loop to stop and interrupts its current wait.
    fn halt(&self);
}

/// The seam to the task-spawning runtime: anything that can take ownership of
/// a unit of work and drive it to completion on some thread.
pub trait Executor {
    fn execute(&self, runnable: Box<dyn Runnable>);
}

/// A handle through which events are published into the ring.
pub trait Producer<E: Send + Sync + 'static, S>: Sized where S: Sequencer {
    /// The sequencer this producer claims through.
    spec fn spec_sequencer(&self) -> S;

    /// Access to the underlying sequencer. The sequencer coordinates through
    /// shared references, so exclusive access to the producer yields a shared
    /// borrow of it.
    fn mut_sequencer(&mut self) -> (r: &S)
        ensures
            *r == old(self).spec_sequencer(),
    ;
}

} // verus!
