//! The error taxonomy shared by every driver in the crate.

use vstd::prelude::*;

verus! {

/// The three failure causes a DMA engine can report through its status
/// register, decoded bit by bit rather than collapsed into one kind.
#[derive(Clone, Copy, Debug, PartialEq, Eq, Structural)]
pub enum DmaFault {
    /// Internal error, e.g. a transfer of length zero.
    Internal,
    /// Slave error: the memory-map interface could not be accessed.
    Slave,
    /// Decode error: the programmed address is invalid.
    Decode,
}

/// Every failure a driver operation can return.
#[derive(Clone, Copy, Debug, PartialEq, Eq, Structural)]
pub enum Error {
    /// A topology or parameter field is malformed or missing.
    Configuration,
    /// The identity tag of the hardware block does not match the driver.
    UnsupportedIp,
    /// A register window or buffer is too small or could not be acquired.
    Resource,
    /// An operation was invoked in the wrong state: not idle, wrong
    /// direction, format not set, or a size above the advertised maximum.
    Protocol,
    /// The hardware reported an error condition.
    Hardware(DmaFault),
    /// The configured pixel format is not enabled in the synthesized IP.
    UnsupportedFormat,
    /// The hardware had not reached the awaited state when the register
    /// image was last refreshed; the caller may refresh it and retry.
    Timeout,
    /// No entry with the requested name or path exists.
    NotFound,
    /// A numeric literal could not be parsed in its declared radix.
    Parse,
}

impl Error {
    /// A short human-readable description of the failure.
    pub fn describe(&self) -> (r: &'static str)
        ensures
            r@.len() > 0,
    {
        let s: &'static str = match self {
            Error::Configuration => "malformed or missing configuration field",
            Error::UnsupportedIp => "hardware identity tag does not match this driver",
            Error::Resource => "register window or buffer unavailable or too small",
            Error::Protocol => "operation invoked in the wrong state",
            Error::Hardware(DmaFault::Internal) => "DMA internal error (transfer length zero?)",
            Error::Hardware(DmaFault::Slave) => "DMA slave error (cannot access memory map)",
            Error::Hardware(DmaFault::Decode) => "DMA decode error (invalid address)",
            Error::UnsupportedFormat => "pixel format not enabled in this IP",
            Error::Timeout => "hardware not yet in the awaited state",
            Error::NotFound => "no entry with the requested name",
            Error::Parse => "numeric literal could not be parsed",
        };
        proof {
            reveal_strlit("malformed or missing configuration field");
            reveal_strlit("hardware identity tag does not match this driver");
            reveal_strlit("register window or buffer unavailable or too small");
            reveal_strlit("operation invoked in the wrong state");
            reveal_strlit("DMA internal error (transfer length zero?)");
            reveal_strlit("DMA slave error (cannot access memory map)");
            reveal_strlit("DMA decode error (invalid address)");
            reveal_strlit("pixel format not enabled in this IP");
            reveal_strlit("hardware not yet in the awaited state");
            reveal_strlit("no entry with the requested name");
            reveal_strlit("numeric literal could not be parsed");
        }
        s
    }
}

} // verus!
