//! Error kinds reported by the driver.

use vstd::prelude::*;

verus! {

/// Failure of a single USB transaction, as reported by the host's USB stack.
#[derive(Debug, Clone, Copy, PartialEq, Eq, Structural)]
pub enum UsbError {
    /// Input/output error.
    Io,
    /// Invalid parameter.
    InvalidParam,
    /// Access denied (insufficient permissions).
    Access,
    /// No such device (it may have been disconnected).
    NoDevice,
    /// Entity not found.
    NotFound,
    /// Resource busy.
    Busy,
    /// Operation timed out.
    Timeout,
    /// Overflow.
    Overflow,
    /// Pipe error.
    Pipe,
    /// System call interrupted.
    Interrupted,
    /// Insufficient memory.
    NoMem,
    /// Operation not supported on this platform.
    NotSupported,
    /// The device returned a malformed descriptor.
    BadDescriptor,
    /// Other error.
    Other,
}

/// Everything that can go wrong when driving a dongle.
#[derive(Debug, Clone, Copy, PartialEq, Eq, Structural)]
pub enum Error {
    /// The USB exchange itself failed.
    UsbError(UsbError),
    /// No matching dongle is connected.
    NotFound,
    /// A parameter is outside the range the radio accepts.
    InvalidArgument,
    /// The dongle's firmware is older than what the driver needs.
    DongleVersionNotSupported,
}

} // verus!
