//! The sequencer variant for exactly one publishing thread, and its producer
//! facade.

use vstd::prelude::*;

verus! {

use std::sync::Arc;
use vstd::rwlock::RwLock;
use vstd::rwlock::RwLockPredicate;
use crate::adapters::SequencerAdapter;
use crate::protocol::gate_open;
use crate::protocol::lemma_gate_prevents_overrun;
use crate::protocol::wrap_point_of;
use crate::publisher::Publisher;
use crate::ringbuffer::RingBuffer;
use crate::sequence::Sequence;
use crate::util::minimum_sequence;
use crate::AnyValue;
use crate::Producer;
use crate::Sequencer;
use crate::SPIN_LIMIT;

/// The producer-private pace of a single-producer sequencer: the last claimed
/// sequence and the last observed minimum gating sequence.
pub struct ProducerPace {
    pub next_value: i64,
    pub cached_value: i64,
}

/// Both pace counters start at -1 and never run below it.
pub struct PaceInv;

impl RwLockPredicate<ProducerPace> for PaceInv {
    open spec fn inv(self, pace: ProducerPace) -> bool {
        pace.next_value >= -1 && pace.cached_value >= -1
    }
}

/// A sequencer for a single publishing thread. With one producer there is no
/// claim contention: the pace is private, the cursor is the publication
/// front, and published sequences are contiguous by construction.
pub struct SingleProducerSequencer {
    buffer_size: i64,
    pace: RwLock<ProducerPace, PaceInv>,
    cursor: Arc<Sequence>,
    gating_sequences: RwLock<Vec<Arc<Sequence>>, AnyValue>,
}

impl SingleProducerSequencer {
    #[verifier::type_invariant]
    closed spec fn wf(&self) -> bool {
        self.buffer_size >= 1
    }

    /// A fresh sequencer over a ring of `buffer_size` slots, with cursor and
    /// pace at the initial value -1 and no gating sequences yet.
    pub fn new(buffer_size: i64) -> (r: SingleProducerSequencer)
        requires
            buffer_size >= 1,
        ensures
            r.spec_buffer_size() == buffer_size,
    {
        SingleProducerSequencer {
            buffer_size,
            pace: RwLock::new(ProducerPace { next_value: -1, cached_value: -1 }, Ghost(PaceInv)),
            cursor: Arc::new(Sequence::new()),
            gating_sequences: RwLock::new(Vec::new(), Ghost(AnyValue)),
        }
    }

    /// The smallest current value among the registered gating sequences, or
    /// 0 when none are registered.
    fn min_gating_sequence(&self) -> (r: i64)
        ensures
            r >= -1,
    {
        let handle = self.gating_sequences.acquire_read();
        let min = minimum_sequence(handle.borrow());
        handle.release_read();
        min
    }
}

impl Sequencer for SingleProducerSequencer {
    closed spec fn spec_buffer_size(&self) -> i64 {
        self.buffer_size
    }

    closed spec fn spec_cursor(&self) -> Arc<Sequence> {
        self.cursor
    }

    fn next(&self, n: i64) -> (r: Option<i64>)
        ensures
            r is Some ==> r->Some_0 >= n - 1,
    {
        proof {
            use_type_invariant(self);
        }
        let mut fuel: u64 = SPIN_LIMIT;
        loop
            invariant
                n >= 1,
                self.wf(),
            decreases fuel,
        {
            let (mut pace, pace_handle) = self.pace.acquire_write();
            match pace.next_value.checked_add(n) {
                Some(next_sequence) => {
                    let wrap_point = next_sequence - self.buffer_size;
                    let cached_gate = pace.cached_value;
                    if wrap_point > cached_gate || cached_gate > pace.next_value {
                        // Let downstream see the claimed-and-published front
                        // while this producer waits for space.
                        self.cursor.set(pace.next_value);
                        let min_sequence = self.min_gating_sequence();
                        if wrap_point > min_sequence {
                            pace_handle.release_write(pace);
                            if fuel == 0 {
                                return None;
                            }
                            fuel = fuel - 1;
                            std::hint::spin_loop();
                            continue ;
                        }
                        pace.cached_value = min_sequence;
                    }
                    proof {
                        // Here the producer gate admits the claim, which
                        // trails every gating sequence by at most one lap.
                        assert(gate_open(
                            wrap_point_of(next_sequence as int, self.buffer_size as int),
                            pace.cached_value as int,
                        ));
                        lemma_gate_prevents_overrun(
                            next_sequence as int,
                            self.buffer_size as int,
                            pace.cached_value as int,
                        );
                    }
                    pace.next_value = next_sequence;
                    pace_handle.release_write(pace);
                    return Some(next_sequence);
                },
                None => {
                    // The claim target would exceed the counter range.
                    pace_handle.release_write(pace);
                    return None;
                },
            }
        }
    }

    fn publish(&self, sequence: i64) {
        self.cursor.set(sequence);
    }

    fn batch_publish(&self, low: i64, high: i64) {
        self.publish(high);
    }

    fn highest_published(&self, next_sequence: i64, available_sequence: i64) -> (r: i64)
        ensures
            r == available_sequence,
    {
        // A single producer publishes in order, so the whole range is
        // contiguous already.
        available_sequence
    }

    fn available(&self, sequence: i64) -> bool {
        sequence <= self.cursor.get()
    }

    fn cursor(&self) -> (r: Arc<Sequence>) {
        self.cursor.clone()
    }

    fn add_gating_sequence(&self, gating_sequence: Arc<Sequence>) {
        let (mut sequences, handle) = self.gating_sequences.acquire_write();
        sequences.push(gating_sequence);
        handle.release_write(sequences);
    }

    fn buffer_size(&self) -> (r: i64)
        ensures
            r == self.spec_buffer_size(),
    {
        self.buffer_size
    }
}

/// The producer facade for a single publishing thread; it owns its publisher
/// and is deliberately not cloneable.
pub struct SingleProducer<E, S>
where
    E: Send + Sync + 'static,
    S: Sequencer,
{
    publisher: Publisher<E, S>,
}

impl<E, S> SingleProducer<E, S>
where
    E: Send + Sync + 'static,
    S: Sequencer,
{
    /// A producer publishing into `ringbuffer` through `sequencer`.
    pub fn new(
        sequencer: SequencerAdapter<S>,
        ringbuffer: Arc<RingBuffer<E>>,
    ) -> SingleProducer<E, S> {
        SingleProducer { publisher: Publisher::new(sequencer, ringbuffer) }
    }

    /// Claims one sequence, rewrites the event in its slot with `f`, and
    /// publishes it. Returns false only when the claim never became safe
    /// within the retry bound, in which case nothing was written.
    pub fn publish<F: FnOnce(E) -> E>(&self, f: F) -> (r: bool)
        requires
            forall|e: E| f.requires((e,)),
    {
        self.publisher.publish(f)
    }

    /// Claims `n` contiguous sequences, rewrites each claimed slot in order
    /// with `f` — which receives the sequence it is filling — and publishes
    /// the whole range. Returns false only when the claim never became safe
    /// within the retry bound, in which case nothing was written.
    pub fn batch_publish<F: Fn(i64, E) -> E>(&self, n: i64, f: F) -> (r: bool)
        requires
            n >= 1,
            forall|s: i64, e: E| f.requires((s, e)),
    {
        self.publisher.batch_publish(n, f)
    }
}

impl<E, S> Producer<E, S> for SingleProducer<E, S>
where
    E: Send + Sync + 'static,
    S: Sequencer,
{
    closed spec fn spec_sequencer(&self) -> S {
        self.publisher.spec_sequencer()
    }

    fn mut_sequencer(&mut self) -> (r: &S) {
        self.publisher.mut_sequencer()
    }
}

} // verus!
