//! The busy-wait delay primitive.
//!
//! On the device, the delay executes one non-elidable operation (a volatile
//! read of an otherwise-unused address) per iteration; its only observable
//! effect is the wall-clock time it consumes. This model therefore reduces
//! the delay to the one quantity that matters: the number of core clock
//! cycles a busy-wait of `n` iterations takes, which is deterministic,
//! proportional to `n`, and nonzero for `n > 0`.

use vstd::arithmetic::mul::lemma_mul_inequality;
use vstd::prelude::*;

verus! {

/// Nominal cost, in core clock cycles, of one iteration of the busy-wait
/// loop: the dummy read plus the loop branch. The exact figure is
/// hardware-dependent; correctness only needs it to be a fixed nonzero
/// constant, so the whole model is calibrated against this one number.
pub const CYCLES_PER_ITER: u64 = 2;

/// Cycles consumed by a busy-wait of `n` iterations.
pub open spec fn delay_cycles(n: nat) -> nat {
    n * (CYCLES_PER_ITER as nat)
}

/// A longer busy-wait never takes fewer cycles: the delay is monotonically
/// increasing in the iteration count.
pub proof fn lemma_delay_monotonic(n1: nat, n2: nat)
    requires
        n1 <= n2,
    ensures
        delay_cycles(n1) <= delay_cycles(n2),
{
    lemma_mul_inequality(n1 as int, n2 as int, CYCLES_PER_ITER as int);
}

/// A busy-wait of at least one iteration consumes at least one cycle: the
/// delay cannot be compiled away to nothing.
pub proof fn lemma_delay_cycles_positive(n: nat)
    requires
        n > 0,
    ensures
        delay_cycles(n) >= n,
        delay_cycles(n) > 0,
{
    lemma_mul_inequality(1, CYCLES_PER_ITER as int, n as int);
}

/// Busy-wait for `n` iterations and report the cycles consumed.
///
/// The device's delay loop performs a dummy volatile read each iteration;
/// nothing about the value read matters, so the model performs the
/// bookkeeping those iterations amount to: it accumulates, iteration by
/// iteration, exactly `delay_cycles(n)` cycles — the same count on every
/// call with the same `n`.
pub fn delay(n: usize) -> (cycles: u64)
    requires
        delay_cycles(n as nat) <= u64::MAX,
    ensures
        cycles == delay_cycles(n as nat),
{
    let mut cycles: u64 = 0;
    let mut i: usize = 0;
    while i < n
        invariant
            i <= n,
            cycles == delay_cycles(i as nat),
            delay_cycles(n as nat) <= u64::MAX,
        decreases n - i,
    {
        proof {
            lemma_delay_monotonic((i + 1) as nat, n as nat);
        }
        cycles = cycles + CYCLES_PER_ITER;
        i = i + 1;
    }
    cycles
}

} // verus!
