//! What the client needs from the connection to a controller.

use crate::error::Error;
use crate::telegram::framed;
use vstd::prelude::*;

verus! {

/// The PDU type of a COTP frame that confirms a connection.
pub const CONFIRM_CONNECTION: u8 = 0xD0;

/// The kind of connection asked of the controller, from the highest
/// priority to the lowest. Basic connections are the first to be closed
/// when the controller runs out of resources.
#[derive(Debug, Copy, Clone, PartialEq, Eq)]
pub enum Connection {
    /// A programming console.
    PG,
    /// An operator panel.
    OP,
    /// A generic data transfer connection.
    Basic,
}

impl Connection {
    pub open spec fn spec_code(&self) -> u16 {
        match self {
            Connection::PG => 1,
            Connection::OP => 2,
            Connection::Basic => 3,
        }
    }

    /// The number that stands for the connection type in a remote TSAP.
    #[verifier::when_used_as_spec(spec_code)]
    pub fn code(&self) -> (c: u16)
        ensures
            c == self.spec_code(),
    {
        match self {
            Connection::PG => 1,
            Connection::OP => 2,
            Connection::Basic => 3,
        }
    }
}

/// A connection to a controller. The client hands it complete request
/// telegrams and takes back complete response frames; everything below that
/// (sockets, timeouts, locking) is the implementor's business.
///
/// Nothing is promised about what an implementation returns: the client is
/// verified for every answer. What an implementation may rely on is that
/// every request it is handed is a frame that states its own length.
pub trait Transport {
    /// Sends one request and returns the frame that answers it.
    fn send(&mut self, request: &[u8]) -> Result<Vec<u8>, Error>
        requires
            framed(request@),
    ;

    /// The PDU length agreed with the controller; 0 while none was negotiated.
    fn pdu_length(&self) -> u16;

    /// Performs the ISO connection and the PDU negotiation.
    fn negotiate(&mut self) -> Result<(), Error>;

    /// The connection type in use.
    fn connection_type(&self) -> Connection;
}

} // verus!
