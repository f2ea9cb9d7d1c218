//! A verified model of a minimal LED blinker for a memory-mapped
//! general-purpose output (GPO) register.
//!
//! The device drives an LED on bit 0 of a single 32-bit register by writing
//! the full word `1`, busy-waiting a fixed number of iterations, writing `0`,
//! and busy-waiting again, forever. This crate verifies that logic against a
//! mocked register: [`delay`] counts the cycles a busy-wait consumes,
//! [`gpo::Gpo`] records the sequence of words written, and [`blink::Blinker`]
//! runs the toggle loop one half-period at a time, refined against the ghost
//! transition function [`blink::spec_step`]. The hardware itself — the
//! volatile stores, the runtime entry point, the halting fault handler — is
//! outside the library; a host program performs them and drives the loop.
//!
//! [`delay`]: delay::delay

pub mod blink;
pub mod delay;
pub mod gpo;
