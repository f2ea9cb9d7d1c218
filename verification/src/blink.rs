//! The blink loop: the device's one component.
//!
//! Forever, the device writes `1` to the GPO register (LED on), busy-waits a
//! fixed number of iterations, writes `0` (LED off), and busy-waits again.
//! [`BlinkState`] is the ghost model of that loop — the write trace, the next
//! value to write, the cycles consumed, and whether an unrecoverable fault
//! has halted the device — and [`spec_step`] is its transition function, one
//! half-period at a time. [`Blinker`] is the executable counterpart against a
//! mocked register; every method is refined against the ghost model, and the
//! proof functions below state the loop's laws: the trace alternates, writes
//! cost a fixed nonzero number of cycles each, the loop never stops writing
//! on its own, and a fault stops it for good.

use crate::delay::{delay, delay_cycles, lemma_delay_cycles_positive};
use crate::gpo::{alternates, led_lit, Gpo};
use vstd::arithmetic::mul::lemma_mul_inequality;
use vstd::prelude::*;

verus! {

/// The ghost state of the blink loop.
#[verifier::ext_equal]
pub struct BlinkState {
    /// Every word written to the GPO register so far, in order.
    pub trace: Seq<u32>,
    /// Whether the next write turns the LED on (writes `1`) or off (writes `0`).
    pub next_on: bool,
    /// Core clock cycles consumed by the busy-waits so far.
    pub clock: nat,
    /// Busy-wait iterations between writes; fixed for the life of the loop.
    pub iters: nat,
    /// Whether the fault handler has run and halted the device.
    pub faulted: bool,
}

/// The state right after reset: nothing written, the first write will turn
/// the LED on, no cycles consumed, no fault.
pub open spec fn initial_state(iters: nat) -> BlinkState {
    BlinkState { trace: Seq::empty(), next_on: true, clock: 0, iters, faulted: false }
}

/// One half-period of the loop: write the next value, then busy-wait. A
/// faulted device does nothing at all — the halt loop touches neither the
/// register nor the model's clock.
pub open spec fn spec_step(s: BlinkState) -> BlinkState {
    if s.faulted {
        s
    } else {
        BlinkState {
            trace: s.trace.push(if s.next_on { 1u32 } else { 0u32 }),
            next_on: !s.next_on,
            clock: s.clock + delay_cycles(s.iters),
            ..s
        }
    }
}

/// The unrecoverable fault: the handler halts the device in place. The trace
/// keeps whatever was last written.
pub open spec fn spec_fault(s: BlinkState) -> BlinkState {
    BlinkState { faulted: true, ..s }
}

/// `k` half-periods in a row.
pub open spec fn run_steps(s: BlinkState, k: nat) -> BlinkState
    decreases k,
{
    if k == 0 {
        s
    } else {
        run_steps(spec_step(s), (k - 1) as nat)
    }
}

/// The word the `i`-th write must carry: the loop starts with the LED on and
/// alternates, so even positions write `1` and odd positions write `0`.
pub open spec fn expected_write(i: int) -> u32 {
    if i % 2 == 0 {
        1u32
    } else {
        0u32
    }
}

/// What always holds of the loop's state: the trace is exactly the
/// alternating on/off prefix, the next write continues it, and the clock
/// counts one full busy-wait per write.
pub open spec fn wf_state(s: BlinkState) -> bool {
    &&& forall|i: int| 0 <= i < s.trace.len() ==> #[trigger] s.trace[i] == expected_write(i)
    &&& s.next_on == (s.trace.len() % 2 == 0)
    &&& s.clock == s.trace.len() * delay_cycles(s.iters)
}

/// The state after reset is well-formed.
pub proof fn lemma_initial_wf(iters: nat)
    ensures
        wf_state(initial_state(iters)),
{
    assert(initial_state(iters).trace.len() == 0);
}

/// One half-period keeps the state well-formed.
pub proof fn lemma_step_preserves_wf(s: BlinkState)
    requires
        wf_state(s),
    ensures
        wf_state(spec_step(s)),
{
    if !s.faulted {
        let t = spec_step(s);
        let n = s.trace.len() as int;
        assert forall|i: int| 0 <= i < t.trace.len() implies #[trigger] t.trace[i]
            == expected_write(i) by {
            if i < n {
                assert(t.trace[i] == s.trace[i]);
            } else {
                assert(t.trace[i] == (if s.next_on { 1u32 } else { 0u32 }));
            }
        }
        assert((n + 1) * delay_cycles(s.iters) == n * delay_cycles(s.iters) + delay_cycles(
            s.iters,
        )) by (nonlinear_arith);
    }
}

/// Any number of half-periods keeps the state well-formed.
pub proof fn lemma_run_preserves_wf(s: BlinkState, k: nat)
    requires
        wf_state(s),
    ensures
        wf_state(run_steps(s, k)),
    decreases k,
{
    if k > 0 {
        lemma_step_preserves_wf(s);
        lemma_run_preserves_wf(spec_step(s), (k - 1) as nat);
    }
}

/// Running one more half-period is one more step at the end of the run.
pub proof fn lemma_run_steps_snoc(s: BlinkState, k: nat)
    ensures
        run_steps(s, k + 1) == spec_step(run_steps(s, k)),
    decreases k,
{
    if k == 0 {
        assert(run_steps(s, 1) == run_steps(spec_step(s), 0));
    } else {
        lemma_run_steps_snoc(spec_step(s), (k - 1) as nat);
        assert(run_steps(s, k + 1) == run_steps(spec_step(s), ((k - 1) as nat) + 1));
        assert(run_steps(s, k) == run_steps(spec_step(s), (k - 1) as nat));
    }
}

/// What any run of the loop does to the state, faulted or not: the iteration
/// count and the fault flag never change, the old trace stays as a prefix,
/// and the clock advances by exactly one busy-wait per write — the write rate
/// in any window is pinned to the delay. A device that is not faulted writes
/// exactly once per half-period, so the trace grows without bound; a faulted
/// one never changes at all.
pub proof fn lemma_run_steps_props(s: BlinkState, k: nat)
    ensures
        run_steps(s, k).iters == s.iters,
        run_steps(s, k).faulted == s.faulted,
        run_steps(s, k).trace.len() >= s.trace.len(),
        forall|i: int|
            0 <= i < s.trace.len() ==> #[trigger] run_steps(s, k).trace[i] == s.trace[i],
        run_steps(s, k).clock - s.clock == (run_steps(s, k).trace.len() - s.trace.len())
            * delay_cycles(s.iters),
        !s.faulted ==> run_steps(s, k).trace.len() == s.trace.len() + k,
        !s.faulted ==> run_steps(s, k).clock == s.clock + k * delay_cycles(s.iters),
        s.faulted ==> run_steps(s, k) == s,
    decreases k,
{
    if k > 0 {
        let t = spec_step(s);
        lemma_run_steps_props(t, (k - 1) as nat);
        if !s.faulted {
            let d = delay_cycles(s.iters) as int;
            let grown = run_steps(s, k).trace.len() - s.trace.len();
            assert(grown * d == (grown - 1) * d + d) by (nonlinear_arith);
            assert((k as int) * d == (k - 1) * d + d) by (nonlinear_arith);
        }
    }
}

/// The writes alternate strictly: no two consecutive words in the trace of a
/// well-formed state drive the LED the same way, and the first write, if any,
/// turns the LED on.
pub proof fn lemma_trace_alternates(s: BlinkState)
    requires
        wf_state(s),
    ensures
        alternates(s.trace),
        s.trace.len() > 0 ==> led_lit(s.trace[0]),
{
    assert forall|i: int| 0 <= i && i + 1 < s.trace.len() implies led_lit(#[trigger] s.trace[i])
        != led_lit(s.trace[i + 1]) by {
        assert(s.trace[i] == expected_write(i));
        assert(s.trace[i + 1] == expected_write(i + 1));
    }
}

/// The write rate is bounded by the delay: in a well-formed state the clock
/// shows exactly one full busy-wait per write, so with a nonzero iteration
/// count at most `clock / delay_cycles(iters)` writes can have happened —
/// the loop cannot spin faster than the delay allows.
pub proof fn lemma_write_rate_bounded(s: BlinkState)
    requires
        wf_state(s),
    ensures
        s.clock == s.trace.len() * delay_cycles(s.iters),
        s.iters > 0 ==> s.trace.len() <= s.clock,
{
    if s.iters > 0 {
        lemma_delay_cycles_positive(s.iters);
        lemma_mul_inequality(1, delay_cycles(s.iters) as int, s.trace.len() as int);
        assert(s.trace.len() * 1 == s.trace.len()) by (nonlinear_arith);
        assert(s.trace.len() * delay_cycles(s.iters) == delay_cycles(s.iters) * s.trace.len())
            by (nonlinear_arith);
    }
}

/// Once the fault handler has run, nothing more is ever written: however many
/// half-periods pass, the trace stays exactly what it was at the fault.
pub proof fn lemma_fault_stops_writes(s: BlinkState, k: nat)
    ensures
        run_steps(spec_fault(s), k) == spec_fault(s),
        run_steps(spec_fault(s), k).trace == s.trace,
    decreases k,
{
    if k > 0 {
        lemma_fault_stops_writes(s, (k - 1) as nat);
        assert(spec_step(spec_fault(s)) == spec_fault(s));
    }
}

/// Each half-period costs the same: one write plus one full busy-wait, for
/// the on-phase and the off-phase alike, and with a nonzero iteration count
/// the phase is never free.
pub proof fn lemma_phase_duration(s: BlinkState)
    requires
        !s.faulted,
    ensures
        spec_step(s).clock - s.clock == delay_cycles(s.iters),
        spec_step(spec_step(s)).clock - spec_step(s).clock == delay_cycles(s.iters),
        s.iters > 0 ==> delay_cycles(s.iters) > 0,
{
    if s.iters > 0 {
        lemma_delay_cycles_positive(s.iters);
    }
}

/// The executable blink loop, run against the mocked register. Its whole
/// behaviour is the ghost model's: every method's contract relates `self@`
/// to [`initial_state`], [`spec_step`], [`run_steps`] or [`spec_fault`].
pub struct Blinker {
    gpo: Gpo,
    next_on: bool,
    clock: u64,
    iters: usize,
    faulted: bool,
}

impl View for Blinker {
    type V = BlinkState;

    closed spec fn view(&self) -> BlinkState {
        BlinkState {
            trace: self.gpo@,
            next_on: self.next_on,
            clock: self.clock as nat,
            iters: self.iters as nat,
            faulted: self.faulted,
        }
    }
}

impl Blinker {
    /// A blinker right after reset, with `iters` busy-wait iterations
    /// between writes.
    pub fn new(iters: usize) -> (b: Blinker)
        ensures
            b@ == initial_state(iters as nat),
            wf_state(b@),
    {
        let b = Blinker { gpo: Gpo::new(), next_on: true, clock: 0, iters, faulted: false };
        proof {
            assert(b@ =~= initial_state(iters as nat));
            lemma_initial_wf(iters as nat);
        }
        b
    }

    /// One half-period: write the next value to the register, then busy-wait.
    /// On a faulted blinker this does nothing, as the halted device does.
    pub fn step(&mut self)
        requires
            !old(self)@.faulted ==> old(self)@.clock + delay_cycles(old(self)@.iters)
                <= u64::MAX,
        ensures
            final(self)@ == spec_step(old(self)@),
    {
        let ghost s0 = self@;
        if self.faulted {
            return ;
        }
        let v: u32 = if self.next_on {
            1
        } else {
            0
        };
        self.gpo.write(v);
        self.next_on = !self.next_on;
        let cycles = delay(self.iters);
        self.clock = self.clock + cycles;
        proof {
            assert(self@ =~= spec_step(s0));
        }
    }

    /// `k` half-periods in a row.
    pub fn run(&mut self, k: usize)
        requires
            !old(self)@.faulted ==> old(self)@.clock + k as nat * delay_cycles(old(self)@.iters)
                <= u64::MAX,
        ensures
            final(self)@ == run_steps(old(self)@, k as nat),
    {
        let ghost s0 = self@;
        let mut j: usize = 0;
        while j < k
            invariant
                j <= k,
                self@ == run_steps(s0, j as nat),
                !s0.faulted ==> s0.clock + k as nat * delay_cycles(s0.iters) <= u64::MAX,
            decreases k - j,
        {
            proof {
                lemma_run_steps_props(s0, j as nat);
                if !s0.faulted {
                    lemma_mul_inequality(
                        j as int + 1,
                        k as int,
                        delay_cycles(s0.iters) as int,
                    );
                    assert((j as int + 1) * delay_cycles(s0.iters) == j as int * delay_cycles(
                        s0.iters,
                    ) + delay_cycles(s0.iters)) by (nonlinear_arith);
                }
            }
            self.step();
            proof {
                lemma_run_steps_snoc(s0, j as nat);
            }
            j = j + 1;
        }
    }

    /// The unrecoverable fault: the handler halts the device; the register
    /// keeps its last value and nothing more is ever written.
    pub fn fault(&mut self)
        ensures
            final(self)@ == spec_fault(old(self)@),
    {
        let ghost s0 = self@;
        self.faulted = true;
        proof {
            assert(self@ =~= spec_fault(s0));
        }
    }

    /// How many words have been written to the register.
    pub fn write_count(&self) -> (n: usize)
        ensures
            n == self@.trace.len(),
    {
        self.gpo.write_count()
    }

    /// The `i`-th word written.
    pub fn write_at(&self, i: usize) -> (v: u32)
        requires
            i < self@.trace.len(),
        ensures
            v == self@.trace[i as int],
    {
        self.gpo.value_at(i)
    }

    /// The word the register currently holds: the last one written, or
    /// `None` before the first write (the state after reset is unspecified).
    pub fn last_write(&self) -> (v: Option<u32>)
        ensures
            self@.trace.len() == 0 ==> v is None,
            self@.trace.len() > 0 ==> v == Some(self@.trace.last()),
    {
        self.gpo.last_write()
    }

    /// Core clock cycles the busy-waits have consumed so far.
    pub fn clock(&self) -> (c: u64)
        ensures
            c == self@.clock,
    {
        self.clock
    }

    /// The fixed busy-wait iteration count between writes.
    pub fn iters(&self) -> (n: usize)
        ensures
            n == self@.iters,
    {
        self.iters
    }

    /// Whether the fault handler has halted the device.
    pub fn is_faulted(&self) -> (f: bool)
        ensures
            f == self@.faulted,
    {
        self.faulted
    }
}

} // verus!
