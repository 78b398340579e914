//! Delay durations for a shell that sleeps.
//!
//! Sleeping itself blocks or suspends, so a shell performs it; the unit
//! conversions down to the nanosecond sleep entry point are verified
//! here.

use vstd::prelude::*;

verus! {

/// Empty struct that stands for delay capability; a shell sleeps for the
/// durations computed here.
#[derive(Clone, Copy, Debug)]
pub struct Delay;

impl Delay {
    /// Nanoseconds of `n` microseconds.
    pub fn us_to_ns(n: u32) -> (r: u64)
        ensures
            r == n * 1000,
    {
        (n as u64) * 1000
    }

    /// Nanoseconds of `n` milliseconds.
    pub fn ms_to_ns(n: u32) -> (r: u64)
        ensures
            r == n * 1000000,
    {
        (n as u64) * 1000000
    }
}

} // verus!
