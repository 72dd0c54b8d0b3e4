//! The debounce algorithm on plain values: an integrator in `[0, max]` and
//! the logical state it has settled on.
use vstd::prelude::*;

verus! {

/// One sample applied to (integrator, logical state).
///
/// A low sample takes one count unless the integrator is empty, and clears
/// the state once it is; any other sample adds one count unless the
/// integrator is full, and sets the state once it is.
pub open spec fn step(integrator: nat, high: bool, sample_low: bool, max: nat) -> (nat, bool) {
    if sample_low {
        let i: nat = if integrator == 0 {
            0
        } else {
            (integrator - 1) as nat
        };
        (i, if i == 0 {
            false
        } else {
            high
        })
    } else {
        let i: nat = if integrator == max {
            max
        } else {
            integrator + 1
        };
        (i, if i == max {
            true
        } else {
            high
        })
    }
}

/// A sequence of samples (true = low) applied one after another.
pub open spec fn run(integrator: nat, high: bool, samples: Seq<bool>, max: nat) -> (nat, bool)
    decreases samples.len(),
{
    if samples.len() == 0 {
        (integrator, high)
    } else {
        let next = step(integrator, high, samples[0], max);
        run(next.0, next.1, samples.drop_first(), max)
    }
}

/// `n` samples that each add a count.
pub open spec fn rising(n: nat) -> Seq<bool> {
    Seq::new(n, |i: int| false)
}

/// `n` samples that each take a count.
pub open spec fn falling(n: nat) -> Seq<bool> {
    Seq::new(n, |i: int| true)
}

/// The state that initialization starts from.
pub open spec fn initial(init_high: bool, max: nat) -> (nat, bool) {
    if init_high {
        (max, true)
    } else {
        (0, false)
    }
}

/// The integrator is within bounds, and the state agrees with it at both
/// ends.
pub open spec fn settled(integrator: nat, high: bool, max: nat) -> bool {
    &&& integrator <= max
    &&& integrator == 0 ==> !high
    &&& integrator == max ==> high
}

} // verus!
