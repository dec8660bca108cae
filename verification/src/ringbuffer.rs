//! The pre-allocated slot storage events live in for the lifetime of the
//! pipeline.

use vstd::prelude::*;

verus! {

use vstd::rwlock::RwLock;
use vstd::rwlock::WriteHandle;
use crate::AnyValue;
use crate::EventFactory;
use crate::protocol::is_power_of_two;
use crate::protocol::lemma_mask_index_in_bounds;
use crate::protocol::lemma_mask_is_mod;

/// A fixed power-of-two array of event slots, indexed by `sequence & mask`.
///
/// Slots are built once, by the event factory, and mutated in place from then
/// on. Which slot a party may touch at which time is decided by the
/// sequencer protocol; each slot additionally carries its own lock so that
/// access stays safe even for a caller that steps outside that protocol.
pub struct RingBuffer<E: Send + Sync> {
    slots: Vec<RwLock<E, AnyValue>>,
    mask: i64,
}

/// Exclusive access to one slot, returned together with the event taken from
/// it; the event (or its replacement) must be handed back to `release`.
pub struct SlotGuard<'a, E: Send + Sync> {
    handle: WriteHandle<'a, E, AnyValue>,
}

impl<'a, E: Send + Sync> SlotGuard<'a, E> {
    /// The slot this guard holds.
    pub closed spec fn spec_lock(&self) -> RwLock<E, AnyValue> {
        self.handle.rwlock()
    }

    /// Puts `event` back into the slot this guard was taken from and
    /// releases it.
    pub fn release(self, event: E) {
        self.handle.release_write(event);
    }
}

impl<E: Send + Sync> View for RingBuffer<E> {
    type V = Seq<RwLock<E, AnyValue>>;

    closed spec fn view(&self) -> Seq<RwLock<E, AnyValue>> {
        self.slots@
    }
}

impl<E: Send + Sync> RingBuffer<E> {
    /// How many slots the ring holds.
    pub open spec fn spec_capacity(&self) -> int {
        self@.len() as int
    }

    /// The slot at ring index `index`.
    pub open spec fn spec_slot(&self, index: int) -> RwLock<E, AnyValue> {
        self@[index]
    }

    #[verifier::type_invariant]
    closed spec fn wf(&self) -> bool {
        &&& 0 <= self.mask < i64::MAX
        &&& is_power_of_two((self.mask + 1) as i64)
        &&& self.slots@.len() == self.mask + 1
    }

    /// Builds `buffer_size` slots, one factory call each. The capacity must
    /// be a strictly positive power of two so that `sequence & mask` is the
    /// slot of a sequence.
    pub fn new<F: EventFactory<E>>(buffer_size: i64, event_factory: F) -> (r: RingBuffer<E>)
        requires
            is_power_of_two(buffer_size),
        ensures
            r.spec_capacity() == buffer_size,
    {
        let mut slots: Vec<RwLock<E, AnyValue>> = Vec::new();
        let mut i: i64 = 0;
        while i < buffer_size
            invariant
                0 <= i <= buffer_size,
                slots@.len() == i,
            decreases buffer_size - i,
        {
            slots.push(RwLock::new(event_factory.new(), Ghost(AnyValue)));
            i = i + 1;
        }
        RingBuffer { slots, mask: buffer_size - 1 }
    }

    /// Takes exclusive hold of the slot of `sequence` and hands out the event
    /// currently living there: the guard is exactly the slot at ring index
    /// `sequence` modulo the capacity, and stays held until it is released.
    pub fn acquire_slot(&self, sequence: i64) -> (r: (E, SlotGuard<'_, E>))
        requires
            sequence >= 0,
        ensures
            self.spec_capacity() > 0,
            r.1.spec_lock() == self.spec_slot(sequence as int % self.spec_capacity()),
    {
        proof {
            use_type_invariant(self);
            let size: i64 = (self.mask + 1) as i64;
            lemma_mask_index_in_bounds(size, self.mask, sequence);
            lemma_mask_is_mod(size, self.mask, sequence);
            assert(self.spec_capacity() == size);
            assert(sequence % size == sequence as int % self.spec_capacity());
            assert((sequence & self.mask) as int == sequence as int % self.spec_capacity());
        }
        let masked: i64 = sequence & self.mask;
        let slot_count: usize = self.slots.len();
        proof {
            assert(0 <= masked < slot_count);
        }
        let index: usize = masked as usize;
        let (event, handle) = self.slots[index].acquire_write();
        (event, SlotGuard { handle })
    }
}

} // verus!
