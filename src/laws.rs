//! Properties of the integration algorithm over whole runs of samples.
use crate::model::{falling, initial, rising, run, settled, step};
use vstd::prelude::*;

verus! {

/// Running two sequences of samples one after the other is running their
/// concatenation.
pub proof fn lemma_run_append(integrator: nat, high: bool, a: Seq<bool>, b: Seq<bool>, max: nat)
    ensures
        run(integrator, high, a + b, max) == run(
            run(integrator, high, a, max).0,
            run(integrator, high, a, max).1,
            b,
            max,
        ),
    decreases a.len(),
{
    if a.len() > 0 {
        let next = step(integrator, high, a[0], max);
        assert((a + b).drop_first() =~= a.drop_first() + b);
        lemma_run_append(next.0, next.1, a.drop_first(), b, max);
    } else {
        assert(a + b =~= b);
    }
}

/// Once saturated, the integrator stays at the maximum and the state high
/// whatever number of further rising samples; once empty, it stays at zero
/// and the state low whatever number of further falling samples.
pub proof fn lemma_saturates(n: nat, max: nat)
    ensures
        run(max, true, rising(n), max) == (max, true),
        run(0, false, falling(n), max) == (0nat, false),
    decreases n,
{
    if n > 0 {
        assert(rising(n).drop_first() =~= rising((n - 1) as nat));
        assert(falling(n).drop_first() =~= falling((n - 1) as nat));
        lemma_saturates((n - 1) as nat, max);
    }
}

/// From a low state with integrator `i` below the maximum, `n` rising
/// samples reach the high state exactly when `i + n` reaches the maximum.
pub proof fn lemma_rising_from(i: nat, n: nat, max: nat)
    requires
        i < max,
    ensures
        run(i, false, rising(n), max) == if i + n >= max {
            (max, true)
        } else {
            (i + n, false)
        },
    decreases n,
{
    if n > 0 {
        assert(rising(n).drop_first() =~= rising((n - 1) as nat));
        if i + 1 == max {
            lemma_saturates((n - 1) as nat, max);
        } else {
            lemma_rising_from(i + 1, (n - 1) as nat, max);
        }
    }
}

/// Starting low, `max` rising samples make the state high, and `max - 1`
/// leave it low.
pub proof fn lemma_rises_after_max_count(max: nat)
    requires
        max > 1,
    ensures
        run(initial(false, max).0, initial(false, max).1, rising(max), max).1,
        !run(initial(false, max).0, initial(false, max).1, rising((max - 1) as nat), max).1,
{
    lemma_rising_from(0, max, max);
    lemma_rising_from(0, (max - 1) as nat, max);
}

/// Starting low, `k < max` rising samples, one falling sample and `n` more
/// rising samples end high exactly when the net count of rising samples
/// reaches `max`: the integrator is a signed count clamped to `[0, max]`.
/// With `k > 0` and `n = max - k + j`, that is when `j > 0`.
pub proof fn lemma_interrupted_rise(k: nat, n: nat, max: nat)
    requires
        k < max,
    ensures
        ({
            let net: nat = if k == 0 {
                0
            } else {
                (k - 1) as nat
            };
            run(0, false, rising(k) + seq![true] + rising(n), max) == if net + n >= max {
                (max, true)
            } else {
                (net + n, false)
            }
        }),
{
    let net: nat = if k == 0 {
        0
    } else {
        (k - 1) as nat
    };
    lemma_run_append(0, false, rising(k) + seq![true], rising(n), max);
    lemma_run_append(0, false, rising(k), seq![true], max);
    lemma_rising_from(0, k, max);
    let dropped = seq![true].drop_first();
    assert(dropped =~= Seq::<bool>::empty());
    let after = step(k, false, true, max);
    assert(after == (net, false));
    assert(run(after.0, after.1, dropped, max) == after);
    assert(run(k, false, seq![true], max) == run(after.0, after.1, dropped, max));
    assert(run(0, false, rising(k) + seq![true], max) == (net, false));
    lemma_rising_from(net, n, max);
}

/// From a settled state, the integrator stays within `[0, max]` and the
/// state settled, whatever samples follow.
pub proof fn lemma_stays_settled(integrator: nat, high: bool, samples: Seq<bool>, max: nat)
    requires
        max > 0,
        settled(integrator, high, max),
    ensures
        settled(run(integrator, high, samples, max).0, run(integrator, high, samples, max).1, max),
        run(integrator, high, samples, max).0 <= max,
    decreases samples.len(),
{
    if samples.len() > 0 {
        let next = step(integrator, high, samples[0], max);
        lemma_stays_settled(next.0, next.1, samples.drop_first(), max);
    }
}

} // verus!
