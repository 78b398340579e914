//! Error type and delay capping for an SPI device.
//!
//! The bus transfers themselves are performed by an unverified shell;
//! this module holds the error it reports and the microsecond cap that
//! in-transaction delay operations are subject to.

use vstd::prelude::*;

verus! {

/// Declares `std::io::Error`, the error of the SPI device I/O.
#[verifier::external_type_specification]
#[verifier::external_body]
pub struct ExIoError(std::io::Error);

/// Error wrapping the [`std::io::Error`] of a failed SPI operation.
#[derive(Debug)]
pub struct SPIError {
    /// The failed operation's error.
    pub err: std::io::Error,
}

impl SPIError {
    /// Wraps the error of a failed SPI operation.
    pub fn new(err: std::io::Error) -> (e: SPIError)
        ensures
            e.err == err,
    {
        SPIError { err }
    }

    /// Fetch inner (concrete) [`std::io::Error`].
    pub fn inner(&self) -> (r: &std::io::Error)
        ensures
            r == &self.err,
    {
        &self.err
    }
}

/// The microseconds an in-transaction delay of `ns` nanoseconds is capped
/// to: zero stays zero, any other delay lasts at least one microsecond,
/// and the value saturates at the largest expressible delay.
pub open spec fn spec_delay_us(ns: u32) -> u16 {
    if ns == 0 {
        0u16
    } else if ns < 1000 {
        1u16
    } else if ns / 1000 > 65535 {
        65535u16
    } else {
        (ns / 1000) as u16
    }
}

/// Caps an in-transaction delay to the microsecond granularity and range
/// the device transfer supports.
pub fn delay_ns_to_us(ns: u32) -> (us: u16)
    ensures
        us == spec_delay_us(ns),
{
    if ns == 0 {
        0
    } else {
        let whole_us: u32 = ns / 1000;
        if whole_us == 0 {
            1
        } else if whole_us > 65535 {
            65535
        } else {
            whole_us as u16
        }
    }
}

} // verus!
