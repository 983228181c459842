//! The failure taxonomy shared by every decoder and by the transaction engine.

use vstd::prelude::*;

verus! {

/// Why a PTP operation failed.
///
/// Every decode and transaction operation returns one of these rather than
/// panicking; the caller owns retry and reconnect policy.
#[derive(Debug)]
pub enum Error {
    /// The device answered with a response code other than Ok (0x2001).
    Response(u16),
    /// A framing or decode invariant was violated: a bad container kind,
    /// a transaction-id mismatch, an inconsistent length, leftover bytes
    /// after a structured decode, or an unexpected end of buffer.
    Malformed(String),
    /// The underlying bulk transfer failed or timed out, or an operation
    /// was attempted in the wrong lifecycle state.
    USB(String),
    /// An expected resource (device, interface, endpoint) did not appear.
    NotFound(String),
}

impl From<String> for Error {
    fn from(e: String) -> (r: Error) {
        Error::USB(e)
    }
}

impl vstd::std_specs::convert::FromSpecImpl<String> for Error {
    open spec fn obeys_from_spec() -> bool {
        true
    }

    open spec fn from_spec(e: String) -> Error {
        Error::USB(e)
    }
}

} // verus!
