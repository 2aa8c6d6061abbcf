//! The failures that the client reports to its caller.

use vstd::prelude::*;

verus! {

/// A frame or a payload whose size the protocol cannot carry.
pub const ISO_INVALID_DATA_SIZE: i32 = 0x0004_0000;

/// The controller's answer to the PDU negotiation was malformed.
pub const CLI_NEGOTIATING_PDU: i32 = 0x0010_0000;

/// Every failure is a value handed to the caller; nothing is retried.
#[derive(Debug, Clone, PartialEq, Eq)]
pub enum Error {
    /// The socket could not be opened, or the ISO connection request got no answer.
    Connect(String),
    /// Reading or writing on an established socket failed or timed out.
    Io(String),
    /// The lock around the socket could not be taken.
    Lock,
    /// The controller did not confirm the ISO connection.
    Iso,
    /// A frame length outside the protocol's bounds, or an unusable negotiated PDU length.
    PduLength(u16),
    /// A malformed negotiation answer or a data size that cannot be transferred.
    Response { code: i32 },
    /// The controller rejected the request; the code is the one it sent.
    CPU { code: i32 },
    /// A bit offset above 7.
    InvalidBitAddr(u16),
    /// A status byte that names no controller state.
    InvalidCpuStatus(u8),
}

} // verus!
