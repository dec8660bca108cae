//! The consumer loop that drains contiguous runs of published slots and
//! advances its own sequence once per drained run.

use vstd::prelude::*;

verus! {

use std::sync::atomic::AtomicU8;
use std::sync::atomic::Ordering;
use std::sync::Arc;
use vstd::rwlock::RwLock;
use crate::ringbuffer::RingBuffer;
use crate::sequence::Sequence;
use crate::protocol::end_of_batch as end_of_batch_spec;
use crate::AnyValue;
use crate::EventHandler;
use crate::EventProcessor;
use crate::SequenceBarrier;
use crate::STATE_HALTED;
use crate::STATE_IDLE;
use crate::STATE_RUNNING;
use crate::SPIN_LIMIT;

/// A consumer that owns one handler and one barrier. Its `sequence` is the
/// last event the handler has fully processed; it moves once per drained
/// batch, so downstream stages observe batches, not single events.
pub struct BatchEventProcessor<E, B, H>
where
    E: Send + Sync + 'static,
    B: SequenceBarrier,
    H: EventHandler<E>,
{
    sequence: Arc<Sequence>,
    event_handler: RwLock<H, AnyValue>,
    ringbuffer: Arc<RingBuffer<E>>,
    sequence_barrier: Arc<B>,
    state: AtomicU8,
}

impl<E, B, H> BatchEventProcessor<E, B, H>
where
    E: Send + Sync + 'static,
    B: SequenceBarrier,
    H: EventHandler<E>,
{
    /// The ring this processor reads its events from.
    pub closed spec fn spec_ringbuffer(&self) -> Arc<RingBuffer<E>> {
        self.ringbuffer
    }

    /// The barrier this processor waits on.
    pub closed spec fn spec_barrier(&self) -> Arc<B> {
        self.sequence_barrier
    }

    /// A processor in the idle state with its own progress counter at -1,
    /// reading from the given ring behind the given barrier.
    pub fn new(
        event_handler: H,
        ringbuffer: Arc<RingBuffer<E>>,
        sequence_barrier: Arc<B>,
    ) -> (r: BatchEventProcessor<E, B, H>)
        ensures
            r.spec_ringbuffer() == ringbuffer,
            r.spec_barrier() == sequence_barrier,
    {
        BatchEventProcessor {
            sequence: Arc::new(Sequence::new()),
            event_handler: RwLock::new(event_handler, Ghost(AnyValue)),
            ringbuffer,
            sequence_barrier,
            state: AtomicU8::new(STATE_IDLE),
        }
    }

    /// One pass of the consumer loop: wait until the next sequence is
    /// reachable, then hand every event of the drained run to the handler,
    /// flagging exactly the last one as the end of the batch, and advance
    /// the progress counter once.
    fn process_events(&self) {
        let current = self.sequence.get();
        if current == i64::MAX {
            // The progress counter is exhausted; no further sequence exists.
            return ;
        }
        let next_sequence = current + 1;
        let available_sequence = self.sequence_barrier.wait_for(next_sequence);
        if let Some(available) = available_sequence {
            if available >= next_sequence {
                let (mut handler, handler_guard) = self.event_handler.acquire_write();
                let mut sequence = next_sequence;
                loop
                    invariant
                        0 <= next_sequence <= sequence <= available,
                    decreases available - sequence,
                {
                    let (mut event, slot) = self.ringbuffer.acquire_slot(sequence);
                    let end_of_batch = sequence == available;
                    proof {
                        // The flag handed to the handler is the one the
                        // batch end-flag law speaks about.
                        assert(end_of_batch == end_of_batch_spec(sequence as int, available as int));
                    }
                    handler.on_event(&mut event, sequence, end_of_batch);
                    slot.release(event);
                    if sequence == available {
                        break ;
                    }
                    sequence = sequence + 1;
                }
                handler_guard.release_write(handler);
                self.sequence.set(available);
            }
        }
    }
}

impl<E, B, H> EventProcessor for BatchEventProcessor<E, B, H>
where
    E: Send + Sync + 'static,
    B: SequenceBarrier,
    H: EventHandler<E>,
{
    fn run(&self) {
        let started = self.state.compare_exchange(
            STATE_IDLE,
            STATE_RUNNING,
            Ordering::AcqRel,
            Ordering::Relaxed,
        );
        if started.is_ok() {
            self.sequence_barrier.clear_alert();
            let mut fuel: u64 = SPIN_LIMIT;
            while self.state.load(Ordering::Acquire) == STATE_RUNNING
                decreases fuel,
            {
                self.process_events();
                if fuel == 0 {
                    break ;
                }
                fuel = fuel - 1;
            }
            self.state.store(STATE_IDLE, Ordering::Release);
        }
    }

    fn sequence(&self) -> Arc<Sequence> {
        self.sequence.clone()
    }

    fn running(&self) -> bool {
        self.state.load(Ordering::Acquire) == STATE_RUNNING
    }

    fn halt(&self) {
        self.state.store(STATE_HALTED, Ordering::Release);
        self.sequence_barrier.alert();
    }
}

} // verus!
