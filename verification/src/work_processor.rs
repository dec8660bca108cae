//! The competing-consumer loop: peers share one work sequence and each
//! published event is handled by exactly one peer.

use vstd::prelude::*;

verus! {

use std::sync::atomic::AtomicU8;
use std::sync::atomic::Ordering;
use std::sync::Arc;
use vstd::rwlock::RwLock;
use crate::ringbuffer::RingBuffer;
use crate::sequence::Sequence;
use crate::AnyValue;
use crate::EventProcessor;
use crate::SequenceBarrier;
use crate::WorkHandler;
use crate::STATE_HALTED;
use crate::STATE_IDLE;
use crate::STATE_RUNNING;
use crate::SPIN_LIMIT;

/// One member of a work pool. All peers share `work_sequence`, the claim
/// counter of the pool; each peer's own `sequence` announces the claim it is
/// working on, so producers gate on every in-flight event of the group.
pub struct WorkProcessor<E, B, H>
where
    E: Send + Sync + 'static,
    B: SequenceBarrier,
    H: WorkHandler<E>,
{
    sequence: Arc<Sequence>,
    work_sequence: Arc<Sequence>,
    work_handler: RwLock<H, AnyValue>,
    ringbuffer: Arc<RingBuffer<E>>,
    sequence_barrier: Arc<B>,
    state: AtomicU8,
}

impl<E, B, H> WorkProcessor<E, B, H>
where
    E: Send + Sync + 'static,
    B: SequenceBarrier,
    H: WorkHandler<E>,
{
    /// The claim counter this pool member shares with its peers.
    pub closed spec fn spec_work_sequence(&self) -> Arc<Sequence> {
        self.work_sequence
    }

    /// The ring this pool member reads its events from.
    pub closed spec fn spec_ringbuffer(&self) -> Arc<RingBuffer<E>> {
        self.ringbuffer
    }

    /// The barrier this pool member waits on.
    pub closed spec fn spec_barrier(&self) -> Arc<B> {
        self.sequence_barrier
    }

    /// A pool member in the idle state with its own progress counter at -1.
    /// It holds the given `work_sequence` handle itself — not a copy — so
    /// every peer built with that handle contends on one claim counter.
    pub fn new(
        work_sequence: Arc<Sequence>,
        work_handler: H,
        ringbuffer: Arc<RingBuffer<E>>,
        sequence_barrier: Arc<B>,
    ) -> (r: WorkProcessor<E, B, H>)
        ensures
            r.spec_work_sequence() == work_sequence,
            r.spec_ringbuffer() == ringbuffer,
            r.spec_barrier() == sequence_barrier,
    {
        WorkProcessor {
            sequence: Arc::new(Sequence::new()),
            work_sequence,
            work_handler: RwLock::new(work_handler, Ghost(AnyValue)),
            ringbuffer,
            sequence_barrier,
            state: AtomicU8::new(STATE_IDLE),
        }
    }

    /// Wins the next claim from the shared work sequence. Before the
    /// compare-and-set the peer moves its own sequence up to one below the
    /// claim it is after: everything below the claim is someone else's
    /// finished work, while the claim's own slot stays protected from
    /// producers until this peer (or, if the race is lost, a faster one) has
    /// handled it.
    fn claim_next(&self) -> (r: Option<i64>)
        ensures
            r is Some ==> r->Some_0 >= 0,
    {
        let mut fuel: u64 = SPIN_LIMIT;
        loop
            decreases fuel,
        {
            let current = self.work_sequence.get();
            if current == i64::MAX {
                // The shared claim counter is exhausted.
                return None;
            }
            let next_sequence = current + 1;
            self.sequence.set(next_sequence - 1);
            if self.work_sequence.compare_exchange_weak(next_sequence - 1, next_sequence) {
                return Some(next_sequence);
            }
            if fuel == 0 {
                return None;
            }
            fuel = fuel - 1;
            std::hint::spin_loop();
        }
    }
}

impl<E, B, H> EventProcessor for WorkProcessor<E, B, H>
where
    E: Send + Sync + 'static,
    B: SequenceBarrier,
    H: WorkHandler<E>,
{
    fn run(&self) {
        let started = self.state.compare_exchange(
            STATE_IDLE,
            STATE_RUNNING,
            Ordering::AcqRel,
            Ordering::Relaxed,
        );
        if started.is_ok() {
            self.sequence_barrier.clear_alert();
            let mut processed_sequence = true;
            let mut cached_available_sequence: i64 = -1;
            let mut next_sequence: i64 = self.sequence.get();
            let mut fuel: u64 = SPIN_LIMIT;
            while self.state.load(Ordering::Acquire) == STATE_RUNNING
                invariant
                    processed_sequence || next_sequence >= 0,
                decreases fuel,
            {
                if processed_sequence {
                    match self.claim_next() {
                        Some(claim) => {
                            next_sequence = claim;
                        },
                        None => {
                            break ;
                        },
                    }
                    processed_sequence = false;
                }
                if cached_available_sequence >= next_sequence {
                    let (mut event, slot) = self.ringbuffer.acquire_slot(next_sequence);
                    let (mut handler, handler_guard) = self.work_handler.acquire_write();
                    handler.on_event(&mut event);
                    handler_guard.release_write(handler);
                    slot.release(event);
                    processed_sequence = true;
                } else {
                    match self.sequence_barrier.wait_for(next_sequence) {
                        Some(s) => {
                            cached_available_sequence = s;
                        },
                        None => {
                            break ;
                        },
                    }
                }
                if fuel == 0 {
                    break ;
                }
                fuel = fuel - 1;
            }
            self.state.store(STATE_IDLE, Ordering::Release);
        }
    }

    fn sequence(&self) -> Arc<Sequence> {
        self.sequence.clone()
    }

    fn running(&self) -> bool {
        self.state.load(Ordering::Acquire) == STATE_RUNNING
    }

    fn halt(&self) {
        self.state.store(STATE_HALTED, Ordering::Release);
        self.sequence_barrier.alert();
    }
}

} // verus!
