//! Errors of the display server and of the protocol around it.

use vstd::prelude::*;

verus! {

/// The code triple of an error reply from the server.
#[derive(Clone, Copy, Debug, PartialEq, Eq, Structural)]
pub struct ProtocolErrorCode {
    pub error_code: u8,
    pub major_code: u8,
    pub minor_code: u16,
}

/// What can go wrong while talking to the display server.
#[derive(Debug)]
pub enum XcbError {
    /// The server answered a request with an error reply.
    ProtoError(ProtocolErrorCode),
    /// An extension, a version or some other expectation is not met.
    LogicError(String),
    /// The connection was lost while waiting for an event.
    IOError,
}

impl From<ProtocolErrorCode> for XcbError {
    fn from(err: ProtocolErrorCode) -> (r: XcbError) {
        XcbError::ProtoError(err)
    }
}

impl vstd::std_specs::convert::FromSpecImpl<ProtocolErrorCode> for XcbError {
    open spec fn obeys_from_spec() -> bool {
        true
    }

    open spec fn from_spec(err: ProtocolErrorCode) -> XcbError {
        XcbError::ProtoError(err)
    }
}

} // verus!
