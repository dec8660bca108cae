//! The arithmetic heart of the slot-ownership protocol, stated once and
//! proved, so that both sequencer variants and the consumer loops share it.

use vstd::prelude::*;

verus! {

use vstd::arithmetic::power2::pow2;
use vstd::bits::low_bits_mask;

/// A strictly positive power of two, which is what every ring capacity must
/// be: indexing then reduces to a mask and the lap flag to a shift.
pub open spec fn is_power_of_two(size: i64) -> bool {
    size > 0 && size & ((size - 1) as i64) == 0
}

/// The wrap point of a claim: the sequence that would be overwritten if the
/// claim went through, one full lap behind its target.
pub open spec fn wrap_point_of(target: int, buffer_size: int) -> int {
    target - buffer_size
}

/// The producer gate: a claim may go through only when its wrap point has
/// been passed by every gating (downstream) sequence, i.e. by their minimum.
pub open spec fn gate_open(wrap_point: int, min_gating: int) -> bool {
    wrap_point <= min_gating
}

/// A drained run `[first, last]` flags exactly its final event.
pub open spec fn end_of_batch(sequence: int, batch_end: int) -> bool {
    sequence == batch_end
}

/// Once the producer gate admits a claim, the claim trails the minimum
/// gating sequence by at most the ring capacity.
pub proof fn lemma_gate_prevents_overrun(target: int, buffer_size: int, min_gating: int)
    requires
        gate_open(wrap_point_of(target, buffer_size), min_gating),
    ensures
        target - min_gating <= buffer_size,
{
}

/// Batch end-flag: within one drained run the flag is raised exactly once,
/// namely on the last event of the run.
pub proof fn lemma_end_of_batch_exactly_once(first: int, last: int)
    requires
        first <= last,
    ensures
        forall|s: int| first <= s <= last ==> (end_of_batch(s, last) <==> s == last),
        exists|s: int| first <= s <= last && end_of_batch(s, last),
{
    assert(end_of_batch(last, last));
}

/// Masking a non-negative sequence with `size - 1` lands inside the ring
/// whenever `size` is a power of two.
pub proof fn lemma_mask_index_in_bounds(size: i64, mask: i64, s: i64)
    requires
        is_power_of_two(size),
        mask == size - 1,
        s >= 0,
    ensures
        0 <= s & mask < size,
{
    assert(s & mask >= 0 && s & mask < size) by (bit_vector)
        requires
            size > 0,
            size & mask == 0,
            mask == (size - 1) as i64,
            s >= 0,
    ;
}

/// For a power-of-two `size`, masking with `size - 1` is reduction modulo
/// `size`: the mask picks the ring slot of a sequence.
/// Every power of two in the counter range is an exact left shift of one.
pub proof fn lemma_pow2_exponent(size: i64) -> (k: u32)
    requires
        is_power_of_two(size),
    ensures
        k <= 62,
        size == 1i64 << k,
    decreases size,
{
    if size == 1 {
        assert(1i64 << 0u32 == 1) by (bit_vector);
        0u32
    } else {
        let half = size >> 1u32;
        assert(half >= 1 && half < size && half & ((half - 1) as i64) == 0 && size == 2 * half)
            by (bit_vector)
            requires
                size > 1,
                size & ((size - 1) as i64) == 0,
                half == size >> 1u32,
        ;
        let k1 = lemma_pow2_exponent(half);
        assert(k1 <= 61) by (bit_vector)
            requires
                1i64 << k1 == half,
                k1 <= 62,
                size == 2 * half,
                size > 1,
        ;
        assert(1i64 << ((k1 + 1) as u32) == 2 * (1i64 << k1)) by (bit_vector)
            requires
                k1 <= 61,
        ;
        (k1 + 1) as u32
    }
}

/// For a power-of-two `size`, masking with `size - 1` is reduction modulo
/// `size`: the mask picks the ring slot of a sequence.
pub proof fn lemma_mask_is_mod(size: i64, mask: i64, s: i64)
    requires
        is_power_of_two(size),
        mask == size - 1,
        s >= 0,
    ensures
        s & mask == s % size,
{
    let k = lemma_pow2_exponent(size);
    let k64 = k as u64;
    let su = s as u64;
    let masku = mask as u64;
    let sizeu = size as u64;
    assert((1u64 << k64 == sizeu) && ((s & mask) as u64 == su & masku) && (s & mask >= 0)
        && (masku == (sizeu - 1) as u64) && (sizeu >= 1)) by (bit_vector)
        requires
            size == 1i64 << k,
            k <= 62,
            k64 == k as u64,
            mask == (size - 1) as i64,
            s >= 0,
            su == s as u64,
            masku == mask as u64,
            sizeu == size as u64,
    ;
    vstd::bits::lemma_u64_pow2_no_overflow(k as nat);
    vstd::bits::lemma_u64_shl_is_mul(1u64, k64);
    assert(pow2(k as nat) == sizeu);
    assert(low_bits_mask(k as nat) == masku);
    vstd::bits::lemma_u64_low_bits_mask_is_mod(su, k as nat);
    assert(su & masku == su % sizeu);
    assert(su % sizeu == s % size);
}

/// Slot index and lap flag together identify a sequence: two non-negative
/// sequences that share both the masked index and the shifted flag are equal.
/// This is why one flag cell per slot suffices to tell a freshly published
/// occupant from a stale one across wraparound.
pub proof fn lemma_flag_and_index_identify_sequence(s1: i64, s2: i64, shift: u32, mask: i64)
    requires
        shift <= 62,
        mask == ((1i64 << shift) - 1) as i64,
        s1 >= 0,
        s2 >= 0,
        s1 & mask == s2 & mask,
        s1 >> shift == s2 >> shift,
    ensures
        s1 == s2,
{
    assert(s1 == s2) by (bit_vector)
        requires
            shift <= 62,
            mask == ((1i64 << shift) - 1) as i64,
            s1 >= 0,
            s2 >= 0,
            s1 & mask == s2 & mask,
            s1 >> shift == s2 >> shift,
    ;
}

} // verus!
