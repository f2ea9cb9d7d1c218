//! A mocked general-purpose output (GPO) register.
//!
//! The hardware register is a single 32-bit word at a fixed physical address,
//! write-only from the program's point of view; bit 0 drives the LED and the
//! other bits are don't-care. Since the only thing the program ever does to
//! it is write, the register is modelled by the sequence of words written:
//! every property of interest (alternation, write rate, silence after a
//! fault) is a property of that trace.

use vstd::prelude::*;

verus! {

/// Physical address of the 32-bit GPO register on the target device. The
/// library never dereferences it — the host or firmware side performs the
/// volatile stores — but it is part of the register's description.
pub const GPO_ADDR: u64 = 0x2000_0000;

/// Whether a word written to the register turns the LED on: the LED is
/// driven by bit 0 alone.
pub open spec fn led_lit(v: u32) -> bool {
    v % 2 == 1
}

/// A write trace alternates: no two consecutive writes drive the LED the
/// same way.
pub open spec fn alternates(s: Seq<u32>) -> bool {
    forall|i: int| 0 <= i && i + 1 < s.len() ==> led_lit(#[trigger] s[i]) != led_lit(s[i + 1])
}

/// The mocked register: it remembers every word written to it, in order.
pub struct Gpo {
    writes: Vec<u32>,
}

impl View for Gpo {
    type V = Seq<u32>;

    closed spec fn view(&self) -> Seq<u32> {
        self.writes@
    }
}

impl Gpo {
    /// A fresh register with nothing written yet.
    pub fn new() -> (g: Gpo)
        ensures
            g@ == Seq::<u32>::empty(),
    {
        Gpo { writes: Vec::new() }
    }

    /// Record one write of the full word `v`. On the device this is the
    /// volatile store to [`GPO_ADDR`]; here it appends to the trace.
    pub fn write(&mut self, v: u32)
        ensures
            final(self)@ == old(self)@.push(v),
    {
        self.writes.push(v);
    }

    /// How many writes the register has seen.
    pub fn write_count(&self) -> (n: usize)
        ensures
            n == self@.len(),
    {
        self.writes.len()
    }

    /// The `i`-th word written, counting from the first.
    pub fn value_at(&self, i: usize) -> (v: u32)
        requires
            i < self@.len(),
        ensures
            v == self@[i as int],
    {
        self.writes[i]
    }

    /// The most recent word written, or `None` before the first write.
    pub fn last_write(&self) -> (v: Option<u32>)
        ensures
            self@.len() == 0 ==> v is None,
            self@.len() > 0 ==> v == Some(self@.last()),
    {
        if self.writes.len() == 0 {
            None
        } else {
            Some(self.writes[self.writes.len() - 1])
        }
    }
}

} // verus!
