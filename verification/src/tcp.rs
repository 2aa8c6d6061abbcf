//! The protocol side of the TCP transport: the options of a connection
//! with the state that the handshake negotiates, the telegrams of the
//! handshake, and the reassembly of a response frame from the pieces that
//! are read off the socket. The socket itself is the caller's.

use crate::config::{tsap_bytes, CollectParam};
use crate::error::{Error, CLI_NEGOTIATING_PDU};
use crate::telegram::{
    framed, ISO_CONNECTION_REQUEST_TELEGRAM, OFFSET_FRAME_LENGTH, OFFSET_LOCAL_TSAP,
    OFFSET_NEGOTIATION_ERROR, OFFSET_PDU_NEGOTIATED, OFFSET_PDU_REQUESTED, OFFSET_PDU_TYPE,
    OFFSET_REMOTE_TSAP, PDU_NEGOTIATION_TELEGRAM, SIZE_NEGOTIATION_REPLY, TPKT_HEADER_SIZE,
};
use crate::transport::{Connection, CONFIRM_CONNECTION};
use crate::wire::{be16_bytes, be16_value, patch, read_u16_at, write_u16_at};
use std::time::Duration;
use vstd::prelude::*;
use vstd::slice::slice_to_vec;

verus! {

/// The PDU length that the client asks the controller for.
pub const PDU_SIZE_REQUESTED: u16 = 480;

/// The size of the TPKT and COTP headers together. A frame of this
/// length carries no payload.
pub const ISO_HEADER_SIZE: u16 = 7;

/// The shortest frame that can carry a PDU.
pub const MIN_PDU_SIZE: u16 = 16;

/// The options of one connection, with what the handshake negotiated.
#[derive(Debug)]
pub struct Options {
    pub read_timeout: Duration,
    pub write_timeout: Duration,
    address: [u8; 4],
    port: u16,
    pub conn_type: Connection,
    local_tsap_high: u8,
    local_tsap_low: u8,
    remote_tsap_high: u8,
    remote_tsap_low: u8,
    last_pdu_type: u8,
    pdu_length: u16,
}

/// The ISO connection request between the two TSAPs.
pub open spec fn iso_connection_request_bytes(local_tsap: [u8; 2], remote_tsap: [u8; 2]) -> Seq<u8> {
    patch(
        patch(ISO_CONNECTION_REQUEST_TELEGRAM@, OFFSET_LOCAL_TSAP as int, local_tsap@),
        OFFSET_REMOTE_TSAP as int,
        remote_tsap@,
    )
}

/// The PDU negotiation request that asks for a PDU length of 480.
pub open spec fn pdu_negotiation_request_bytes() -> Seq<u8> {
    patch(PDU_NEGOTIATION_TELEGRAM@, OFFSET_PDU_REQUESTED as int, be16_bytes(PDU_SIZE_REQUESTED))
}

/// The PDU length that a negotiation reply carries, if the reply is well
/// formed: exactly 27 bytes, with bytes 17 and 18 zero.
pub open spec fn negotiated_pdu_length(response: Seq<u8>) -> Option<u16> {
    if response.len() == SIZE_NEGOTIATION_REPLY && response[OFFSET_NEGOTIATION_ERROR as int] == 0
        && response[OFFSET_NEGOTIATION_ERROR + 1] == 0 {
        Some(
            be16_value(
                response[OFFSET_PDU_NEGOTIATED as int],
                response[OFFSET_PDU_NEGOTIATED + 1],
            ),
        )
    } else {
        None
    }
}

/// What the answer to the ISO connection request amounts to: a frame of
/// another length than the request is refused with its length (the low 16
/// bits of it), a frame of another PDU type than a confirmation is no
/// connection.
pub open spec fn connection_confirmed(reply_len: usize, pdu_type: u8) -> Result<(), Error> {
    if reply_len != ISO_CONNECTION_REQUEST_TELEGRAM@.len() {
        Err(Error::PduLength((reply_len % 0x1_0000) as u16))
    } else if pdu_type != CONFIRM_CONNECTION {
        Err(Error::Iso)
    } else {
        Ok(())
    }
}

/// The options as the contracts see them.
pub struct OptionsView {
    pub read_timeout: Duration,
    pub write_timeout: Duration,
    pub address: [u8; 4],
    pub port: u16,
    pub conn_type: Connection,
    pub local_tsap: [u8; 2],
    pub remote_tsap: [u8; 2],
    pub last_pdu_type: u8,
    pub pdu_length: u16,
}

impl View for Options {
    type V = OptionsView;

    closed spec fn view(&self) -> OptionsView {
        OptionsView {
            read_timeout: self.read_timeout,
            write_timeout: self.write_timeout,
            address: self.address,
            port: self.port,
            conn_type: self.conn_type,
            local_tsap: [self.local_tsap_high, self.local_tsap_low],
            remote_tsap: [self.remote_tsap_high, self.remote_tsap_low],
            last_pdu_type: self.last_pdu_type,
            pdu_length: self.pdu_length,
        }
    }
}

impl Clone for Options {
    fn clone(&self) -> (copy: Self)
        ensures
            copy@ == self@,
    {
        Options {
            read_timeout: self.read_timeout,
            write_timeout: self.write_timeout,
            address: self.address,
            port: self.port,
            conn_type: self.conn_type,
            local_tsap_high: self.local_tsap_high,
            local_tsap_low: self.local_tsap_low,
            remote_tsap_high: self.remote_tsap_high,
            remote_tsap_low: self.remote_tsap_low,
            last_pdu_type: self.last_pdu_type,
            pdu_length: self.pdu_length,
        }
    }
}

impl Options {
    /// The options of a connection that is not yet negotiated: address,
    /// port, connection type and TSAPs as configured, the one timeout for
    /// reads and for writes, no PDU type seen and a PDU length of 0.
    pub fn init_from_config(config: &CollectParam) -> (options: Options)
        ensures
            options@ == (OptionsView {
                read_timeout: config.timeout,
                write_timeout: config.timeout,
                address: config.address,
                port: config.port,
                conn_type: config.collect_mode.spec_conn_type(),
                local_tsap: tsap_bytes(config.collect_mode.local()),
                remote_tsap: tsap_bytes(config.collect_mode.remote()),
                last_pdu_type: 0,
                pdu_length: 0,
            }),
    {
        let remote_tsap = config.collect_mode.remote_tsap();
        let local_tsap = config.collect_mode.local_tsap();
        let options = Options {
            read_timeout: config.timeout,
            write_timeout: config.timeout,
            port: config.port,
            address: config.address,
            conn_type: *config.collect_mode.conn_type(),
            local_tsap_high: local_tsap[0],
            local_tsap_low: local_tsap[1],
            remote_tsap_high: remote_tsap[0],
            remote_tsap_low: remote_tsap[1],
            last_pdu_type: 0,
            pdu_length: 0,
        };
        assert(options@.local_tsap =~= local_tsap);
        assert(options@.remote_tsap =~= remote_tsap);
        options
    }

    /// The four octets of the controller's address.
    pub fn address(&self) -> (address: [u8; 4])
        ensures
            address == self@.address,
    {
        self.address
    }

    /// The port of the controller.
    pub fn port(&self) -> (port: u16)
        ensures
            port == self@.port,
    {
        self.port
    }

    /// The PDU type of the last response, 0 before the first.
    pub fn last_pdu_type(&self) -> (pdu_type: u8)
        ensures
            pdu_type == self@.last_pdu_type,
    {
        self.last_pdu_type
    }

    /// The negotiated PDU length, 0 while none is negotiated.
    pub fn pdu_length(&self) -> (pdu_length: u16)
        ensures
            pdu_length == self@.pdu_length,
    {
        self.pdu_length
    }

    /// Notes the PDU type of a response.
    pub fn record_pdu_type(&mut self, pdu_type: u8)
        ensures
            final(self)@ == (OptionsView { last_pdu_type: pdu_type, ..old(self)@ }),
    {
        self.last_pdu_type = pdu_type;
    }

    /// The ISO connection request of this connection: the template with
    /// the local TSAP in bytes 16 and 17 and the remote TSAP in bytes 20
    /// and 21.
    pub fn iso_connection_request(&self) -> (request: Vec<u8>)
        ensures
            request@ == iso_connection_request_bytes(self@.local_tsap, self@.remote_tsap),
            framed(request@),
    {
        let mut request = slice_to_vec(ISO_CONNECTION_REQUEST_TELEGRAM.as_slice());
        request[OFFSET_LOCAL_TSAP] = self.local_tsap_high;
        request[OFFSET_LOCAL_TSAP + 1] = self.local_tsap_low;
        request[OFFSET_REMOTE_TSAP] = self.remote_tsap_high;
        request[OFFSET_REMOTE_TSAP + 1] = self.remote_tsap_low;
        assert(request@ =~= iso_connection_request_bytes(self@.local_tsap, self@.remote_tsap));
        request
    }

    /// Judges the answer to the ISO connection request by its length and
    /// by the PDU type that was last recorded.
    pub fn confirm_connection(&self, reply_len: usize) -> (r: Result<(), Error>)
        ensures
            r == connection_confirmed(reply_len, self@.last_pdu_type),
    {
        if reply_len != ISO_CONNECTION_REQUEST_TELEGRAM.len() {
            return Err(Error::PduLength((reply_len % 0x1_0000) as u16));
        }
        if self.last_pdu_type != CONFIRM_CONNECTION {
            return Err(Error::Iso);
        }
        Ok(())
    }

    /// The PDU negotiation request: the template with the requested PDU
    /// length of 480 in bytes 23 and 24.
    pub fn pdu_negotiation_request() -> (request: Vec<u8>)
        ensures
            request@ == pdu_negotiation_request_bytes(),
            framed(request@),
    {
        let mut request = slice_to_vec(PDU_NEGOTIATION_TELEGRAM.as_slice());
        write_u16_at(&mut request, OFFSET_PDU_REQUESTED, PDU_SIZE_REQUESTED);
        request
    }

    /// Takes the answer to the PDU negotiation request.
    ///
    /// A well-formed answer sets the PDU length to what it carries, and is
    /// a success unless that is 0. Any other answer fails and changes
    /// nothing. Every failure is a response error with the negotiation
    /// code.
    pub fn accept_negotiation(&mut self, response: &[u8]) -> (r: Result<(), Error>)
        ensures
            match negotiated_pdu_length(response@) {
                Some(pdu_length) => {
                    &&& final(self)@ == (OptionsView { pdu_length, ..old(self)@ })
                    &&& pdu_length > 0 ==> r == Ok::<(), Error>(())
                    &&& pdu_length == 0 ==> r == Err::<(), Error>(
                        Error::Response { code: CLI_NEGOTIATING_PDU },
                    )
                },
                None => {
                    &&& final(self)@ == old(self)@
                    &&& r == Err::<(), Error>(Error::Response { code: CLI_NEGOTIATING_PDU })
                },
            },
    {
        if response.len() == SIZE_NEGOTIATION_REPLY && response[OFFSET_NEGOTIATION_ERROR] == 0
            && response[OFFSET_NEGOTIATION_ERROR + 1] == 0 {
            self.pdu_length = read_u16_at(response, OFFSET_PDU_NEGOTIATED);
            if self.pdu_length == 0 {
                return Err(Error::Response { code: CLI_NEGOTIATING_PDU });
            }
        } else {
            return Err(Error::Response { code: CLI_NEGOTIATING_PDU });
        }
        Ok(())
    }
}

/// What is read off the socket next.
#[derive(Debug, Copy, Clone, PartialEq, Eq)]
pub enum Phase {
    /// The four bytes of a TPKT header.
    Header,
    /// The three COTP bytes of a frame without payload, which is dropped.
    Fragment,
    /// The three COTP bytes of the response frame.
    Cotp,
    /// The payload of the response frame.
    Payload,
    /// Nothing: the response frame is complete.
    Complete,
}

/// A response frame in the making: what is read next, and the bytes of
/// the frame that were read so far.
#[derive(Debug)]
pub struct Receiver {
    pub phase: Phase,
    pub frame: Vec<u8>,
}

/// The length that the TPKT header of a frame states.
pub open spec fn frame_length(frame: Seq<u8>) -> u16 {
    be16_value(frame[OFFSET_FRAME_LENGTH as int], frame[OFFSET_FRAME_LENGTH + 1])
}

/// The frame lengths that the protocol allows for a response: from the
/// shortest frame with a PDU up to the requested PDU length plus the headers.
pub open spec fn acceptable_length(length: u16) -> bool {
    MIN_PDU_SIZE <= length <= PDU_SIZE_REQUESTED + ISO_HEADER_SIZE
}

/// How many bytes are read in a phase, given the frame so far.
pub open spec fn wanted_in(phase: Phase, frame: Seq<u8>) -> int {
    match phase {
        Phase::Header => TPKT_HEADER_SIZE as int,
        Phase::Fragment => ISO_HEADER_SIZE - TPKT_HEADER_SIZE,
        Phase::Cotp => ISO_HEADER_SIZE - TPKT_HEADER_SIZE,
        Phase::Payload => frame_length(frame) - ISO_HEADER_SIZE,
        Phase::Complete => 0,
    }
}

/// The phase and the frame after `bytes` were read in `phase`.
///
/// A header that states the length of the bare headers announces a frame
/// without payload: its remaining bytes are read and dropped, and a new
/// header is awaited. A header that states any other length outside the
/// protocol's bounds is refused with that length. Otherwise the COTP bytes
/// and then the payload are appended to the header.
pub open spec fn received(phase: Phase, frame: Seq<u8>, bytes: Seq<u8>) -> Result<
    (Phase, Seq<u8>),
    Error,
> {
    match phase {
        Phase::Header => if frame_length(bytes) == ISO_HEADER_SIZE {
            Ok((Phase::Fragment, Seq::empty()))
        } else if !acceptable_length(frame_length(bytes)) {
            Err(Error::PduLength(frame_length(bytes)))
        } else {
            Ok((Phase::Cotp, bytes))
        },
        Phase::Fragment => Ok((Phase::Header, Seq::empty())),
        Phase::Cotp => Ok((Phase::Payload, frame + bytes)),
        Phase::Payload => Ok((Phase::Complete, frame + bytes)),
        Phase::Complete => Ok((Phase::Complete, frame)),
    }
}

impl Receiver {
    /// The frame so far is as long as the phase says, and the length that
    /// its header states is one that the protocol allows.
    pub open spec fn wf(&self) -> bool {
        match self.phase {
            Phase::Header => self.frame@.len() == 0,
            Phase::Fragment => self.frame@.len() == 0,
            Phase::Cotp => self.frame@.len() == TPKT_HEADER_SIZE && acceptable_length(
                frame_length(self.frame@),
            ),
            Phase::Payload => self.frame@.len() == ISO_HEADER_SIZE && acceptable_length(
                frame_length(self.frame@),
            ),
            Phase::Complete => self.frame@.len() == frame_length(self.frame@) && acceptable_length(
                frame_length(self.frame@),
            ),
        }
    }

    /// A receiver that awaits the header of a frame.
    pub fn new() -> (receiver: Receiver)
        ensures
            receiver.phase == Phase::Header,
            receiver.frame@ == Seq::<u8>::empty(),
            receiver.wf(),
    {
        Receiver { phase: Phase::Header, frame: Vec::new() }
    }

    /// Whether the response frame is complete.
    pub fn is_complete(&self) -> (complete: bool)
        ensures
            complete == (self.phase == Phase::Complete),
    {
        match self.phase {
            Phase::Complete => true,
            _ => false,
        }
    }

    /// How many bytes are to be read next: 4 for a header, 3 for the COTP
    /// bytes, and for the payload what the header's length leaves.
    pub fn wanted(&self) -> (n: usize)
        requires
            self.wf(),
        ensures
            n == wanted_in(self.phase, self.frame@),
    {
        match self.phase {
            Phase::Header => TPKT_HEADER_SIZE,
            Phase::Fragment => ISO_HEADER_SIZE as usize - TPKT_HEADER_SIZE,
            Phase::Cotp => ISO_HEADER_SIZE as usize - TPKT_HEADER_SIZE,
            Phase::Payload => (read_u16_at(self.frame.as_slice(), OFFSET_FRAME_LENGTH)
                - ISO_HEADER_SIZE) as usize,
            Phase::Complete => 0,
        }
    }

    /// Takes the bytes that were read and moves on to the next phase. A
    /// header with a length that the protocol does not allow is an error
    /// and changes nothing.
    pub fn accept(&mut self, bytes: &[u8]) -> (r: Result<(), Error>)
        requires
            old(self).wf(),
            bytes@.len() == wanted_in(old(self).phase, old(self).frame@),
        ensures
            match received(old(self).phase, old(self).frame@, bytes@) {
                Ok((phase, frame)) => {
                    &&& r == Ok::<(), Error>(())
                    &&& final(self).phase == phase
                    &&& final(self).frame@ == frame
                    &&& final(self).wf()
                },
                Err(error) => r == Err::<(), Error>(error) && *final(self) == *old(self),
            },
    {
        match self.phase {
            Phase::Header => {
                let length = read_u16_at(bytes, OFFSET_FRAME_LENGTH);
                if length == ISO_HEADER_SIZE {
                    self.phase = Phase::Fragment;
                } else {
                    if length > PDU_SIZE_REQUESTED + ISO_HEADER_SIZE || length < MIN_PDU_SIZE {
                        return Err(Error::PduLength(length));
                    }
                    self.frame.extend_from_slice(bytes);
                    assert(self.frame@ =~= bytes@);
                    self.phase = Phase::Cotp;
                }
            },
            Phase::Fragment => {
                self.phase = Phase::Header;
            },
            Phase::Cotp => {
                self.frame.extend_from_slice(bytes);
                assert(self.frame@ =~= old(self).frame@ + bytes@);
                self.phase = Phase::Payload;
            },
            Phase::Payload => {
                self.frame.extend_from_slice(bytes);
                assert(self.frame@ =~= old(self).frame@ + bytes@);
                self.phase = Phase::Complete;
            },
            Phase::Complete => {},
        }
        Ok(())
    }

    /// The PDU type of the frame, which is known once its COTP bytes are read.
    pub fn pdu_type(&self) -> (pdu_type: u8)
        requires
            self.wf(),
            self.phase == Phase::Payload || self.phase == Phase::Complete,
        ensures
            pdu_type == self.frame@[OFFSET_PDU_TYPE as int],
    {
        self.frame[OFFSET_PDU_TYPE]
    }

    /// The frame that was received: TPKT header, COTP bytes and payload.
    pub fn into_frame(self) -> (frame: Vec<u8>)
        ensures
            frame@ == self.frame@,
    {
        self.frame
    }
}

/// A frame without payload is read and dropped: after its header and its
/// COTP bytes the receiver awaits a header again and holds nothing.
pub proof fn lemma_fragment_is_skipped(header: Seq<u8>, cotp: Seq<u8>)
    requires
        frame_length(header) == ISO_HEADER_SIZE,
    ensures
        received(Phase::Header, Seq::empty(), header) == Ok::<(Phase, Seq<u8>), Error>(
            (Phase::Fragment, Seq::empty()),
        ),
        received(Phase::Fragment, Seq::empty(), cotp) == Ok::<(Phase, Seq<u8>), Error>(
            (Phase::Header, Seq::empty()),
        ),
{
}

/// A frame of an allowed length that is read in three pieces, header, COTP
/// bytes and payload, comes out of the receiver as it went in.
pub proof fn lemma_frame_is_received(frame: Seq<u8>)
    requires
        frame.len() == frame_length(frame),
        acceptable_length(frame_length(frame)),
    ensures
        ({
            let header = frame.subrange(0, TPKT_HEADER_SIZE as int);
            let cotp = frame.subrange(TPKT_HEADER_SIZE as int, ISO_HEADER_SIZE as int);
            let payload = frame.subrange(ISO_HEADER_SIZE as int, frame.len() as int);
            &&& received(Phase::Header, Seq::empty(), header) == Ok::<(Phase, Seq<u8>), Error>(
                (Phase::Cotp, header),
            )
            &&& cotp.len() == wanted_in(Phase::Cotp, header)
            &&& received(Phase::Cotp, header, cotp) == Ok::<(Phase, Seq<u8>), Error>(
                (Phase::Payload, header + cotp),
            )
            &&& payload.len() == wanted_in(Phase::Payload, header + cotp)
            &&& received(Phase::Payload, header + cotp, payload) == Ok::<(Phase, Seq<u8>), Error>(
                (Phase::Complete, frame),
            )
        }),
{
    let header = frame.subrange(0, TPKT_HEADER_SIZE as int);
    let cotp = frame.subrange(TPKT_HEADER_SIZE as int, ISO_HEADER_SIZE as int);
    let payload = frame.subrange(ISO_HEADER_SIZE as int, frame.len() as int);
    assert(header + cotp + payload =~= frame);
}

} // verus!
