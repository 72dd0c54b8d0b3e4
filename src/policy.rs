//! Debounce policies: storage width, saturation count and initial state.
use vstd::arithmetic::power2::{
    lemma2_to64, lemma2_to64_rest, lemma_pow2_adds, lemma_pow2_pos, lemma_pow2_strictly_increases,
    pow2,
};
use vstd::bits::lemma_u64_shr_is_div;
use vstd::prelude::*;

verus! {

/// Fixed configuration of the debounce algorithm.
pub trait Debounce {
    /// The width in bits of the packed state word, at most 64.
    const STORAGE_BITS: u32;

    /// The number of samples required to mark a state change; more than 1,
    /// and small enough to fit the width after a shift by two bits.
    ///
    /// If in `n + k` samples `n` are of the new state and `k` of the old
    /// one, a transition is marked once `n - k` reaches this count.
    const MAX_COUNT: u64;

    /// The initial logical state: high waits for a first falling edge, low
    /// for a first rising edge.
    const INIT_HIGH: bool;
}

/// The saturated integrator, `max_count` counts scaled by 4, fits in a word
/// of `bits` bits.
pub open spec fn count_fits(bits: nat, max_count: nat) -> bool {
    max_count * 4 < pow2(bits)
}

/// A policy whose width and count the engine can run with.
pub open spec fn policy_valid(bits: nat, max_count: nat) -> bool {
    &&& 2 <= bits <= 64
    &&& 1 < max_count
    &&& count_fits(bits, max_count)
}

/// Whether `max_count`, shifted past the two flag bits, still fits in a word
/// of `bits` bits.
pub fn max_count_fits(bits: u32, max_count: u64) -> (r: bool)
    requires
        2 <= bits <= 64,
    ensures
        r == count_fits(bits as nat, max_count as nat),
{
    let shift: u64 = (bits - 2) as u64;
    let r = (max_count >> shift) == 0;
    proof {
        lemma_u64_shr_is_div(max_count, shift);
        lemma_pow2_adds(shift as nat, 2);
        lemma_pow2_pos(shift as nat);
        lemma2_to64();
        let p = pow2(shift as nat);
        if max_count < p {
            assert(max_count as nat / p == 0) by (nonlinear_arith)
                requires
                    max_count < p,
            ;
        } else {
            assert(max_count as nat / p >= 1) by (nonlinear_arith)
                requires
                    max_count >= p,
                    p > 0,
            ;
        }
        assert((max_count < p) == (max_count * 4 < p * 4));
    }
    r
}

/// Whether the engine can run with a word of `bits` bits and saturation
/// count `max_count`.
pub fn policy_fits(bits: u32, max_count: u64) -> (r: bool)
    ensures
        r == policy_valid(bits as nat, max_count as nat),
{
    2 <= bits && bits <= 64 && 1 < max_count && max_count_fits(bits, max_count)
}

/// A count that fits a word of at most 64 bits leaves room for the scaling.
pub proof fn lemma_fits_limit(bits: nat, max_count: nat)
    requires
        bits <= 64,
        count_fits(bits, max_count),
    ensures
        max_count <= 0x3fff_ffff_ffff_ffff,
{
    lemma2_to64_rest();
    if bits < 64 {
        lemma_pow2_strictly_increases(bits, 64);
    }
}

/// A reasonable active-high configuration: polled every 10 ms, the minimum
/// debounce delay is 40 ms.
#[derive(Debug)]
pub struct ActiveHigh;

impl Debounce for ActiveHigh {
    const STORAGE_BITS: u32 = 8;
    const MAX_COUNT: u64 = 4;
    const INIT_HIGH: bool = false;
}

/// A reasonable active-low configuration: polled every 10 ms, the minimum
/// debounce delay is 40 ms.
#[derive(Debug)]
pub struct ActiveLow;

impl Debounce for ActiveLow {
    const STORAGE_BITS: u32 = 8;
    const MAX_COUNT: u64 = 4;
    const INIT_HIGH: bool = true;
}

/// The settings of Kenneth A. Kuhn's code fragment: polled every 100 ms,
/// the minimum delay is 300 ms.
#[derive(Debug)]
pub struct OriginalKuhn;

impl Debounce for OriginalKuhn {
    const STORAGE_BITS: u32 = 8;
    const MAX_COUNT: u64 = 3;
    const INIT_HIGH: bool = false;
}

} // verus!
