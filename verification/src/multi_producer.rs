//! The sequencer variant for concurrent publishing threads, and its cloneable
//! producer facade.

use vstd::prelude::*;

verus! {

use std::sync::Arc;
use vstd::rwlock::RwLock;
use crate::adapters::SequencerAdapter;
use crate::protocol::gate_open;
use crate::protocol::is_power_of_two;
use crate::protocol::lemma_gate_prevents_overrun;
use crate::protocol::lemma_mask_index_in_bounds;
use crate::protocol::wrap_point_of;
use crate::publisher::Publisher;
use crate::ringbuffer::RingBuffer;
use crate::sequence::Sequence;
use crate::shared_ref::SharedRef;
use crate::util::minimum_sequence;
use crate::AnyValue;
use crate::Producer;
use crate::Sequencer;
use crate::SPIN_LIMIT;

/// A sequencer for several publishing threads. The cursor is a
/// compare-and-set claim counter, not the publication front: each claimed
/// sequence becomes visible only when its lap flag, `sequence` shifted right
/// by `log2(buffer_size)`, lands in the availability cell of its slot. The
/// initial cell value -1 is below the lap flag 0 of sequence 0, so an
/// untouched cell never passes for a published one.
pub struct MultiProducerSequencer {
    buffer_size: i64,
    index_mask: i64,
    index_shift: u32,
    cursor: Arc<Sequence>,
    gating_sequence_cache: Sequence,
    gating_sequences: RwLock<Vec<Arc<Sequence>>, AnyValue>,
    available_buffer: Vec<Sequence>,
}

impl MultiProducerSequencer {
    #[verifier::type_invariant]
    closed spec fn wf(&self) -> bool {
        &&& is_power_of_two(self.buffer_size)
        &&& self.index_mask == self.buffer_size - 1
        &&& self.index_shift <= 62
        &&& (1i64 << self.index_shift) == self.buffer_size
        &&& self.available_buffer@.len() == self.buffer_size
    }

    /// A fresh sequencer over a ring of `buffer_size` slots: cursor at -1,
    /// every availability cell at -1, and no gating sequences yet.
    pub fn new(buffer_size: i64) -> (r: MultiProducerSequencer)
        requires
            is_power_of_two(buffer_size),
        ensures
            r.spec_buffer_size() == buffer_size,
    {
        let mut available_buffer: Vec<Sequence> = Vec::new();
        let mut i: i64 = 0;
        while i < buffer_size
            invariant
                0 <= i <= buffer_size,
                available_buffer@.len() == i,
            decreases buffer_size - i,
        {
            available_buffer.push(Sequence::new());
            i = i + 1;
        }
        let index_shift = log2_of_power_of_two(buffer_size);
        MultiProducerSequencer {
            buffer_size,
            index_mask: buffer_size - 1,
            index_shift,
            cursor: Arc::new(Sequence::new()),
            gating_sequence_cache: Sequence::new(),
            gating_sequences: RwLock::new(Vec::new(), Ghost(AnyValue)),
            available_buffer,
        }
    }

    /// Writes the lap flag of `sequence` into the availability cell of its
    /// slot, making the sequence visible to consumers.
    fn set_available(&self, sequence: i64)
        requires
            sequence >= 0,
    {
        let index = self.calc_index(sequence);
        let flag = self.calc_availability_flag(sequence);
        self.available_buffer[index].set(flag);
    }

    /// The lap flag of `sequence`: which trip around the ring it belongs to.
    fn calc_availability_flag(&self, sequence: i64) -> (r: i64)
        requires
            sequence >= 0,
        ensures
            r >= 0,
    {
        proof {
            use_type_invariant(self);
            let shift = self.index_shift;
            assert(sequence >> shift >= 0) by (bit_vector)
                requires
                    sequence >= 0,
            ;
        }
        sequence >> self.index_shift
    }

    /// The slot of `sequence` inside the availability buffer.
    fn calc_index(&self, sequence: i64) -> (r: usize)
        requires
            sequence >= 0,
        ensures
            r < self.available_buffer@.len(),
    {
        proof {
            use_type_invariant(self);
            lemma_mask_index_in_bounds(self.buffer_size, self.index_mask, sequence);
        }
        (sequence & self.index_mask) as usize
    }

    /// The smallest current value among the registered gating sequences, or
    /// 0 when none are registered.
    fn min_gating_sequence(&self) -> (r: i64)
        ensures
            r >= -1,
    {
        let handle = self.gating_sequences.acquire_read();
        let min = minimum_sequence(handle.borrow());
        handle.release_read();
        min
    }
}

impl Sequencer for MultiProducerSequencer {
    closed spec fn spec_buffer_size(&self) -> i64 {
        self.buffer_size
    }

    closed spec fn spec_cursor(&self) -> Arc<Sequence> {
        self.cursor
    }

    fn next(&self, n: i64) -> (r: Option<i64>)
        ensures
            r is Some ==> r->Some_0 >= n - 1,
    {
        proof {
            use_type_invariant(self);
        }
        let buffer_size = self.buffer_size;
        let mut fuel: u64 = SPIN_LIMIT;
        loop
            invariant
                n >= 1,
                buffer_size >= 1,
            decreases fuel,
        {
            let current = self.cursor.get();
            match current.checked_add(n) {
                Some(next) => {
                    let wrap_point = next - buffer_size;
                    let cached_gating_sequence = self.gating_sequence_cache.get();
                    let mut gate_known_open = true;
                    if wrap_point > cached_gating_sequence || cached_gating_sequence > current {
                        let gating_sequence = self.min_gating_sequence();
                        if wrap_point > gating_sequence {
                            gate_known_open = false;
                        } else {
                            self.gating_sequence_cache.set(gating_sequence);
                            proof {
                                // Here the producer gate admits the claim,
                                // which trails every gating sequence by at
                                // most one lap.
                                assert(gate_open(
                                    wrap_point_of(next as int, buffer_size as int),
                                    gating_sequence as int,
                                ));
                                lemma_gate_prevents_overrun(
                                    next as int,
                                    buffer_size as int,
                                    gating_sequence as int,
                                );
                            }
                        }
                    }
                    if gate_known_open {
                        if self.cursor.compare_exchange_weak(current, next) {
                            return Some(next);
                        }
                    }
                },
                None => {
                    // The claim target would exceed the counter range, and
                    // the cursor never moves down, so no retry can help.
                    return None;
                },
            }
            if fuel == 0 {
                return None;
            }
            fuel = fuel - 1;
            std::hint::spin_loop();
        }
    }

    fn publish(&self, sequence: i64) {
        self.set_available(sequence);
    }

    fn batch_publish(&self, low: i64, high: i64) {
        let mut idx = low;
        loop
            invariant
                0 <= low <= idx <= high,
            decreases high - idx,
        {
            self.set_available(idx);
            if idx == high {
                break ;
            }
            idx = idx + 1;
        }
    }

    fn highest_published(&self, next_sequence: i64, available_sequence: i64) -> (r: i64)
        ensures
            next_sequence - 1 <= r <= available_sequence,
    {
        // Producers may publish their individually claimed sequences out of
        // order; stop at the first gap so consumers only ever see a
        // contiguous prefix.
        if next_sequence > available_sequence {
            return available_sequence;
        }
        let mut sequence = next_sequence;
        loop
            invariant
                0 <= next_sequence <= sequence <= available_sequence,
            decreases available_sequence - sequence,
        {
            if !self.available(sequence) {
                return sequence - 1;
            }
            if sequence == available_sequence {
                return sequence;
            }
            sequence = sequence + 1;
        }
    }

    fn available(&self, sequence: i64) -> bool {
        let index = self.calc_index(sequence);
        let flag = self.calc_availability_flag(sequence);
        self.available_buffer[index].get() == flag
    }

    fn cursor(&self) -> (r: Arc<Sequence>) {
        self.cursor.clone()
    }

    fn add_gating_sequence(&self, gating_sequence: Arc<Sequence>) {
        let (mut sequences, handle) = self.gating_sequences.acquire_write();
        sequences.push(gating_sequence);
        handle.release_write(sequences);
    }

    fn buffer_size(&self) -> (r: i64)
        ensures
            r == self.spec_buffer_size(),
    {
        self.buffer_size
    }
}

/// The base-two logarithm of a power of two.
fn log2_of_power_of_two(size: i64) -> (r: u32)
    requires
        is_power_of_two(size),
    ensures
        r <= 62,
        (1i64 << r) == size,
{
    proof {
        let mask: i64 = (size - 1) as i64;
        assert(size <= 1i64 << 62u32) by (bit_vector)
            requires
                size > 0,
                size & mask == 0,
                mask == (size - 1) as i64,
        ;
    }
    proof {
        assert(1i64 << 0u32 == 1) by (bit_vector);
    }
    let mut shift: u32 = 0;
    while (1i64 << shift) < size
        invariant
            shift <= 62,
            (1i64 << shift) <= size,
            is_power_of_two(size),
            size <= (1i64 << 62u32),
        decreases 62 - shift,
    {
        proof {
            let s = shift;
            let mask: i64 = (size - 1) as i64;
            assert(s <= 62 && (1i64 << s) < size && size <= 1i64 << 62u32 ==> s < 62)
                by (bit_vector);
            assert((1i64 << ((s + 1) as u32)) <= size) by (bit_vector)
                requires
                    size > 0,
                    size & mask == 0,
                    mask == (size - 1) as i64,
                    (1i64 << s) < size,
                    s < 62,
            ;
        }
        shift = shift + 1;
    }
    shift
}

/// The cloneable producer facade for concurrent publishing threads; all
/// clones share one underlying publisher.
pub struct MultiProducer<E, S>
where
    E: Send + Sync + 'static,
    S: Sequencer,
{
    publisher: SharedRef<Publisher<E, S>>,
}

impl<E, S> MultiProducer<E, S>
where
    E: Send + Sync + 'static,
    S: Sequencer,
{
    /// A producer publishing into `ringbuffer` through `sequencer`.
    pub fn new(sequencer: SequencerAdapter<S>, ringbuffer: Arc<RingBuffer<E>>) -> MultiProducer<
        E,
        S,
    > {
        MultiProducer { publisher: SharedRef::new(Publisher::new(sequencer, ringbuffer)) }
    }

    /// Claims one sequence, rewrites the event in its slot with `f`, and
    /// publishes it. Returns false only when the claim never became safe
    /// within the retry bound, in which case nothing was written.
    pub fn publish<F: FnOnce(E) -> E>(&self, f: F) -> (r: bool)
        requires
            forall|e: E| f.requires((e,)),
    {
        self.publisher.borrow().publish(f)
    }

    /// Claims `n` contiguous sequences, rewrites each claimed slot in order
    /// with `f` — which receives the sequence it is filling — and publishes
    /// the whole range. Returns false only when the claim never became safe
    /// within the retry bound, in which case nothing was written.
    pub fn batch_publish<F: Fn(i64, E) -> E>(&self, n: i64, f: F) -> (r: bool)
        requires
            n >= 1,
            forall|s: i64, e: E| f.requires((s, e)),
    {
        self.publisher.borrow().batch_publish(n, f)
    }
}

impl<E, S> Producer<E, S> for MultiProducer<E, S>
where
    E: Send + Sync + 'static,
    S: Sequencer,
{
    closed spec fn spec_sequencer(&self) -> S {
        self.publisher@.spec_sequencer()
    }

    fn mut_sequencer(&mut self) -> (r: &S) {
        self.publisher.borrow().sequencer_ref()
    }
}

impl<E, S> Clone for MultiProducer<E, S>
where
    E: Send + Sync + 'static,
    S: Sequencer,
{
    /// A second handle to the same publisher.
    fn clone(&self) -> (r: Self) {
        MultiProducer { publisher: self.publisher.clone() }
    }
}

} // verus!
