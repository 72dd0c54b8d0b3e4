//! Layout of the packed state word.
//!
//! From the low end: bit 0 is the logical state (1 = high), bit 1 is the
//! initialized flag, and the bits from 2 up hold the integrator, so that one
//! integrator count is worth 4 in the word.
use vstd::prelude::*;

verus! {

/// The logical-state flag of a packed word.
pub open spec fn state_bit(word: u64) -> bool {
    word & 1 != 0
}

/// The initialized flag of a packed word.
pub open spec fn init_bit(word: u64) -> bool {
    word & 2 != 0
}

/// The integrator held in a packed word, in counts.
pub open spec fn integrator_of(word: u64) -> nat {
    (word >> 2) as nat
}

/// The largest integrator that leaves its scaled value within 64 bits.
pub open spec fn integrator_limit() -> nat {
    0x3fff_ffff_ffff_ffff
}

/// The word of an engine that was never initialized, or was released.
pub fn zero() -> (r: u64)
    ensures
        r == 0,
        !state_bit(r),
        !init_bit(r),
        integrator_of(r) == 0,
{
    assert(!(0u64 & 1 != 0) && !(0u64 & 2 != 0) && (0u64 >> 2) == 0) by (bit_vector);
    0
}

/// The mask of the logical-state flag.
pub fn state_mask() -> (r: u64)
    ensures
        r == 1,
{
    1
}

/// The mask of the initialized flag.
pub fn init_mask() -> (r: u64)
    ensures
        r == 2,
{
    assert(1u64 << 1u64 == 2) by (bit_vector);
    1u64 << 1u64
}

/// The word value of one integrator count.
pub fn integrator_one() -> (r: u64)
    ensures
        r == 4,
{
    assert(1u64 << 2u64 == 4) by (bit_vector);
    1u64 << 2u64
}

/// The mask of the integrator field: every bit from 2 up.
pub fn integrator_mask() -> (r: u64)
    ensures
        r == !3u64,
{
    let mut mask = integrator_one();
    mask -= 1;
    !mask
}

/// The word value of a saturated integrator, `max_count` counts.
pub fn integrator_max(max_count: u64) -> (r: u64)
    requires
        max_count <= integrator_limit(),
    ensures
        r == max_count * 4,
        r >> 2 == max_count,
        r & 3 == 0,
{
    assert(max_count << 2 == max_count * 4 && (max_count << 2) >> 2 == max_count
        && (max_count << 2) & 3 == 0) by (bit_vector)
        requires
            max_count <= 0x3fff_ffff_ffff_ffffu64,
    ;
    max_count << 2
}

/// Testing the integrator field against zero, or against a scaled count,
/// reads the integrator.
pub proof fn lemma_integrator_field(word: u64, count: u64)
    requires
        count <= integrator_limit(),
    ensures
        (word & !3u64 == 0) == (integrator_of(word) == 0),
        (word & !3u64 == count * 4) == (integrator_of(word) == count),
{
    assert((word & !3u64 == 0u64) == (word >> 2u64 == 0u64)) by (bit_vector);
    assert((word & !3u64 == count * 4) == (word >> 2u64 == count)) by (bit_vector)
        requires
            count <= 0x3fff_ffff_ffff_ffffu64,
    ;
}

/// Adding one count to the word raises the integrator by one and keeps both
/// flags.
pub proof fn lemma_add_count(word: u64)
    requires
        integrator_of(word) < integrator_limit(),
    ensures
        word + 4 <= u64::MAX,
        state_bit((word + 4) as u64) == state_bit(word),
        init_bit((word + 4) as u64) == init_bit(word),
        integrator_of((word + 4) as u64) == integrator_of(word) + 1,
{
    assert(word <= 0xffff_ffff_ffff_fffbu64 && ((word + 4) as u64 & 1u64 != 0) == (word & 1u64
        != 0) && ((word + 4) as u64 & 2u64 != 0) == (word & 2u64 != 0) && ((word + 4) as u64
        >> 2u64) == (word >> 2u64) + 1) by (bit_vector)
        requires
            (word >> 2u64) < 0x3fff_ffff_ffff_ffffu64,
    ;
}

/// Taking one count from the word lowers the integrator by one and keeps
/// both flags.
pub proof fn lemma_take_count(word: u64)
    requires
        integrator_of(word) > 0,
    ensures
        word >= 4,
        state_bit((word - 4) as u64) == state_bit(word),
        init_bit((word - 4) as u64) == init_bit(word),
        integrator_of((word - 4) as u64) == integrator_of(word) - 1,
{
    assert(word >= 4u64 && ((word - 4) as u64 & 1u64 != 0) == (word & 1u64 != 0) && ((word
        - 4) as u64 & 2u64 != 0) == (word & 2u64 != 0) && ((word - 4) as u64 >> 2u64) == (word
        >> 2u64) - 1) by (bit_vector)
        requires
            (word >> 2u64) != 0u64,
    ;
}

/// Setting bit 0 raises the logical state and keeps the rest.
pub proof fn lemma_set_state(word: u64)
    ensures
        state_bit(word | 1),
        init_bit(word | 1) == init_bit(word),
        integrator_of(word | 1) == integrator_of(word),
{
    assert((word | 1u64) & 1u64 != 0 && (((word | 1u64) & 2u64 != 0) == (word & 2u64 != 0)) && (
    (word | 1u64) >> 2u64) == (word >> 2u64)) by (bit_vector);
}

/// Clearing bit 0 lowers the logical state and keeps the rest.
pub proof fn lemma_clear_state(word: u64)
    ensures
        !state_bit(word & !1u64),
        init_bit(word & !1u64) == init_bit(word),
        integrator_of(word & !1u64) == integrator_of(word),
{
    assert(!((word & !1u64) & 1u64 != 0) && (((word & !1u64) & 2u64 != 0) == (word & 2u64 != 0))
        && ((word & !1u64) >> 2u64) == (word >> 2u64)) by (bit_vector);
}

/// Setting bit 1 raises the initialized flag and keeps the rest.
pub proof fn lemma_set_init(word: u64)
    ensures
        state_bit(word | 2) == state_bit(word),
        init_bit(word | 2),
        integrator_of(word | 2) == integrator_of(word),
{
    assert((((word | 2u64) & 1u64 != 0) == (word & 1u64 != 0)) && (word | 2u64) & 2u64 != 0 && (
    (word | 2u64) >> 2u64) == (word >> 2u64)) by (bit_vector);
}

/// A scaled count with the logical-state flag set.
pub proof fn lemma_scaled_high(count: u64)
    requires
        count <= integrator_limit(),
    ensures
        state_bit(1u64 | (count * 4) as u64),
        !init_bit(1u64 | (count * 4) as u64),
        integrator_of(1u64 | (count * 4) as u64) == count,
{
    assert((1u64 | (count * 4) as u64) & 1u64 != 0 && !((1u64 | (count * 4) as u64) & 2u64 != 0)
        && ((1u64 | (count * 4) as u64) >> 2u64) == count) by (bit_vector)
        requires
            count <= 0x3fff_ffff_ffff_ffffu64,
    ;
}

/// The two flags and the integrator determine the whole word.
pub proof fn lemma_word_determined(a: u64, b: u64)
    requires
        state_bit(a) == state_bit(b),
        init_bit(a) == init_bit(b),
        integrator_of(a) == integrator_of(b),
    ensures
        a == b,
{
    assert(a == b) by (bit_vector)
        requires
            (a & 1u64 != 0) == (b & 1u64 != 0),
            (a & 2u64 != 0) == (b & 2u64 != 0),
            (a >> 2u64) == (b >> 2u64),
    ;
}

} // verus!
