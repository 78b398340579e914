//! Error type and read framing for a byte-stream serial port.
//!
//! The port itself is opened and read by an unverified shell; this module
//! holds the error category it reports and the framing decision of a
//! single-byte non-blocking read.

use vstd::prelude::*;

verus! {

/// Declares `std::io::ErrorKind`, the category of a failed I/O operation.
#[verifier::external_type_specification]
#[verifier::external_body]
pub struct ExIoErrorKind(std::io::ErrorKind);

/// Error wrapping the [`std::io::ErrorKind`] of a failed serial
/// operation.
#[derive(Clone, Copy, Debug)]
pub struct SerialError {
    /// Category of the failed operation.
    pub err: std::io::ErrorKind,
}

impl SerialError {
    /// Wraps the category of a failed serial operation.
    pub fn new(err: std::io::ErrorKind) -> (e: SerialError)
        ensures
            e.err == err,
    {
        SerialError { err }
    }

    /// Fetch inner (concrete) [`std::io::ErrorKind`].
    pub fn inner(&self) -> (r: &std::io::ErrorKind)
        ensures
            r == &self.err,
    {
        &self.err
    }
}

/// What one non-blocking read attempt yields: the byte, when exactly one
/// was read into the buffer, and nothing when the port had none to give.
pub fn read_outcome(bytes_read: usize, byte: u8) -> (r: Option<u8>)
    ensures
        bytes_read == 1 ==> r == Some(byte),
        bytes_read != 1 ==> r is None,
{
    if bytes_read == 1 {
        Some(byte)
    } else {
        None
    }
}

} // verus!
