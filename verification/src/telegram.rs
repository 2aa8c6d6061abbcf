//! The telegrams of the protocol: fixed templates and the fields that each
//! request patches into them.
//!
//! Every telegram starts with a TPKT header (bytes 0 and 1 fixed, bytes 2
//! and 3 the big-endian length of the whole frame) followed by a COTP
//! header. The offsets below are the only places where the layout is
//! written down.

use crate::constant::{SIZE_HEADER_READ, SIZE_HEADER_WRITE};
use crate::error::{Error, ISO_INVALID_DATA_SIZE};
use crate::wire::{be16_bytes, be16_value, patch, write_u16_at};
use vstd::prelude::*;
use vstd::slice::{slice_subrange, slice_to_vec};

verus! {

/// The ISO connection request: TPKT header, then a COTP connection request
/// that carries the source and the destination TSAP.
pub const ISO_CONNECTION_REQUEST_TELEGRAM: [u8; 22] = [
    3,
    0,
    0,
    22,
    17,
    224,
    0,
    0,
    0,
    1,
    0,
    192,
    1,
    10,
    193,
    2,
    1,
    0,
    194,
    2,
    1,
    2,
];

/// The PDU negotiation request; its last two bytes are the requested PDU length.
pub const PDU_NEGOTIATION_TELEGRAM: [u8; 25] = [
    3,
    0,
    0,
    25,
    2,
    240,
    128,
    50,
    1,
    0,
    0,
    4,
    0,
    0,
    8,
    0,
    0,
    240,
    0,
    0,
    1,
    0,
    1,
    0,
    30,
];

/// The header shared by read and write requests. A read request is its
/// first 31 bytes; a write request is all 35, followed by the payload.
pub const READ_WRITE_TELEGRAM: [u8; 35] = [
    3,
    0,
    0,
    31,
    2,
    240,
    128,
    50,
    1,
    0,
    0,
    5,
    0,
    0,
    14,
    0,
    0,
    4,
    1,
    18,
    10,
    16,
    2,
    0,
    0,
    0,
    0,
    132,
    0,
    0,
    0,
    0,
    4,
    0,
    0,
];

/// Bytes 2 and 3: the length of the whole frame.
pub const OFFSET_FRAME_LENGTH: usize = 2;

/// Byte 5 of a received frame: the COTP PDU type.
pub const OFFSET_PDU_TYPE: usize = 5;

/// Bytes 16 and 17 of the ISO connection request: the local TSAP.
pub const OFFSET_LOCAL_TSAP: usize = 16;

/// Bytes 20 and 21 of the ISO connection request: the remote TSAP.
pub const OFFSET_REMOTE_TSAP: usize = 20;

/// Bytes 23 and 24 of the PDU negotiation request: the requested PDU length.
pub const OFFSET_PDU_REQUESTED: usize = 23;

/// Bytes 17 and 18 of the negotiation reply: the error class and code, zero on success.
pub const OFFSET_NEGOTIATION_ERROR: usize = 17;

/// Bytes 25 and 26 of the negotiation reply: the negotiated PDU length.
pub const OFFSET_PDU_NEGOTIATED: usize = 25;

/// The length of a well-formed negotiation reply.
pub const SIZE_NEGOTIATION_REPLY: usize = 27;

/// Bytes 15 and 16 of a write request: the payload length plus 4.
pub const OFFSET_DATA_LENGTH: usize = 15;

/// Byte 17 of a request: the function code, 4 to read and 5 to write.
pub const OFFSET_FUNCTION: usize = 17;

/// Byte 22 of a request: the word length code.
pub const OFFSET_WORD_LEN: usize = 22;

/// Bytes 23 and 24 of a request: the number of elements.
pub const OFFSET_COUNT: usize = 23;

/// Bytes 25 and 26 of a request: the data block number.
pub const OFFSET_DB_NUMBER: usize = 25;

/// Byte 27 of a request: the area code.
pub const OFFSET_AREA: usize = 27;

/// Bytes 28 to 30 of a request: the packed address.
pub const OFFSET_ADDRESS: usize = 28;

/// Byte 32 of a write request: the transport size code of the payload.
pub const OFFSET_TRANSPORT_SIZE: usize = 32;

/// Bytes 33 and 34 of a write request: the payload length, in bits unless
/// the elements are bits, counters or timers.
pub const OFFSET_PAYLOAD_LENGTH: usize = 33;

/// Byte 21 of a read reply: 0xFF on success, else the controller's error code.
pub const OFFSET_REPLY_STATUS: usize = 21;

/// Byte 25 of a read reply: where the payload starts.
pub const OFFSET_REPLY_PAYLOAD: usize = 25;

/// The function code of a write request.
pub const FUNCTION_WRITE: u8 = 0x05;

/// The status byte of a read reply that carries data.
pub const REPLY_SUCCESS: u8 = 0xFF;

/// The first byte of every frame: the version of the TPKT header.
pub const TPKT_VERSION: u8 = 3;

/// The size of the TPKT header.
pub const TPKT_HEADER_SIZE: usize = 4;

/// Whether a frame starts with a TPKT header that states the frame's own length.
pub open spec fn framed(frame: Seq<u8>) -> bool {
    &&& frame.len() >= TPKT_HEADER_SIZE
    &&& frame[0] == TPKT_VERSION
    &&& frame[1] == 0
    &&& be16_value(frame[OFFSET_FRAME_LENGTH as int], frame[OFFSET_FRAME_LENGTH + 1])
        == frame.len()
}

/// The addressed item of one request: where it lies and how many elements
/// of which granularity are meant.
#[derive(Debug, Copy, Clone, PartialEq, Eq)]
pub struct Item {
    /// The area code.
    pub area: u8,
    /// The data block number, 0 outside data blocks.
    pub db_number: u16,
    /// The word length code of the elements.
    pub word_len: u8,
    /// The number of elements.
    pub count: u16,
    /// The packed address, big-endian.
    pub address: [u8; 3],
}

/// The bytes of the read request for `item`: the first 31 bytes of the
/// shared header with the item's fields in their places.
pub open spec fn read_request_bytes(item: Item) -> Seq<u8> {
    let header = READ_WRITE_TELEGRAM@.subrange(0, SIZE_HEADER_READ as int);
    let header = patch(header, OFFSET_WORD_LEN as int, seq![item.word_len]);
    let header = patch(header, OFFSET_COUNT as int, be16_bytes(item.count));
    let header = patch(header, OFFSET_DB_NUMBER as int, be16_bytes(item.db_number));
    let header = patch(header, OFFSET_AREA as int, seq![item.area]);
    patch(header, OFFSET_ADDRESS as int, item.address@)
}

/// Builds the read request for `item`.
pub fn read_request(item: &Item) -> (request: Vec<u8>)
    ensures
        request@ == read_request_bytes(*item),
        framed(request@),
{
    let mut request = slice_to_vec(
        slice_subrange(READ_WRITE_TELEGRAM.as_slice(), 0, SIZE_HEADER_READ),
    );
    write_u16_at(&mut request, OFFSET_DB_NUMBER, item.db_number);
    request[OFFSET_AREA] = item.area;
    request[OFFSET_WORD_LEN] = item.word_len;
    write_u16_at(&mut request, OFFSET_COUNT, item.count);
    request[OFFSET_ADDRESS] = item.address[0];
    request[OFFSET_ADDRESS + 1] = item.address[1];
    request[OFFSET_ADDRESS + 2] = item.address[2];
    assert(request@ =~= read_request_bytes(*item));
    request
}

/// The bytes of the write request that stores `payload` at `item`: the
/// shared header with the frame length, the data length, the function
/// code, the item's fields, the transport size and the payload length in
/// their places, followed by the payload.
pub open spec fn write_request_bytes(
    item: Item,
    transport_size: u8,
    payload_length: u16,
    payload: Seq<u8>,
) -> Seq<u8> {
    let header = READ_WRITE_TELEGRAM@;
    let header = patch(
        header,
        OFFSET_FRAME_LENGTH as int,
        be16_bytes((SIZE_HEADER_WRITE + payload.len()) as u16),
    );
    let header = patch(header, OFFSET_DATA_LENGTH as int, be16_bytes((payload.len() + 4) as u16));
    let header = patch(header, OFFSET_FUNCTION as int, seq![FUNCTION_WRITE]);
    let header = patch(header, OFFSET_WORD_LEN as int, seq![item.word_len]);
    let header = patch(header, OFFSET_COUNT as int, be16_bytes(item.count));
    let header = patch(header, OFFSET_DB_NUMBER as int, be16_bytes(item.db_number));
    let header = patch(header, OFFSET_AREA as int, seq![item.area]);
    let header = patch(header, OFFSET_ADDRESS as int, item.address@);
    let header = patch(header, OFFSET_TRANSPORT_SIZE as int, seq![transport_size]);
    let header = patch(header, OFFSET_PAYLOAD_LENGTH as int, be16_bytes(payload_length));
    header + payload
}

/// A write request is its header of 35 bytes followed by the payload as it is.
pub proof fn lemma_write_request_payload(
    item: Item,
    transport_size: u8,
    payload_length: u16,
    payload: Seq<u8>,
)
    ensures
        write_request_bytes(item, transport_size, payload_length, payload).len()
            == SIZE_HEADER_WRITE + payload.len(),
        write_request_bytes(item, transport_size, payload_length, payload).subrange(
            SIZE_HEADER_WRITE as int,
            SIZE_HEADER_WRITE + payload.len(),
        ) == payload,
{
    let request = write_request_bytes(item, transport_size, payload_length, payload);
    assert(request.subrange(SIZE_HEADER_WRITE as int, SIZE_HEADER_WRITE + payload.len())
        =~= payload);
}

/// Builds the write request that stores `payload` at `item`. The payload
/// must leave room for the header in the 16-bit frame length.
pub fn write_request(item: &Item, transport_size: u8, payload_length: u16, payload: &[u8]) -> (request:
    Vec<u8>)
    requires
        SIZE_HEADER_WRITE + payload@.len() <= 0xFFFF,
    ensures
        request@ == write_request_bytes(*item, transport_size, payload_length, payload@),
        framed(request@),
{
    let data_size = payload.len();
    let mut request = slice_to_vec(READ_WRITE_TELEGRAM.as_slice());
    write_u16_at(&mut request, OFFSET_FRAME_LENGTH, (SIZE_HEADER_WRITE + data_size) as u16);
    write_u16_at(&mut request, OFFSET_DATA_LENGTH, (data_size + 4) as u16);
    request[OFFSET_FUNCTION] = FUNCTION_WRITE;
    request[OFFSET_AREA] = item.area;
    write_u16_at(&mut request, OFFSET_DB_NUMBER, item.db_number);
    request[OFFSET_WORD_LEN] = item.word_len;
    write_u16_at(&mut request, OFFSET_COUNT, item.count);
    request[OFFSET_ADDRESS] = item.address[0];
    request[OFFSET_ADDRESS + 1] = item.address[1];
    request[OFFSET_ADDRESS + 2] = item.address[2];
    request[OFFSET_TRANSPORT_SIZE] = transport_size;
    write_u16_at(&mut request, OFFSET_PAYLOAD_LENGTH, payload_length);
    request.extend_from_slice(payload);
    assert(request@ =~= write_request_bytes(*item, transport_size, payload_length, payload@));
    request
}

/// What a read reply that should carry `size` payload bytes amounts to:
/// a frame too short for its header or for the payload is an invalid data
/// size; a status other than 0xFF is the controller's refusal, with that
/// status as the code.
pub open spec fn check_read_reply(reply: Seq<u8>, size: int) -> Result<(), Error> {
    if reply.len() < OFFSET_REPLY_PAYLOAD {
        Err(Error::Response { code: ISO_INVALID_DATA_SIZE })
    } else if reply[OFFSET_REPLY_STATUS as int] != REPLY_SUCCESS {
        Err(Error::CPU { code: reply[OFFSET_REPLY_STATUS as int] as i32 })
    } else if reply.len() < OFFSET_REPLY_PAYLOAD + size {
        Err(Error::Response { code: ISO_INVALID_DATA_SIZE })
    } else {
        Ok(())
    }
}

/// The payload of a read reply that carries `size` bytes.
pub open spec fn reply_payload(reply: Seq<u8>, size: int) -> Seq<u8> {
    reply.subrange(OFFSET_REPLY_PAYLOAD as int, OFFSET_REPLY_PAYLOAD + size)
}

/// `buffer` with the `size` bytes from `offset` on replaced by the payload of `reply`.
pub open spec fn store_payload(buffer: Seq<u8>, offset: int, reply: Seq<u8>, size: int) -> Seq<u8> {
    patch(buffer, offset, reply_payload(reply, size))
}

/// Validates a read reply and, if it is good, copies its payload of `size`
/// bytes into `buffer` at `offset`. A reply that is refused leaves the
/// buffer as it was.
pub fn accept_read_reply(reply: &[u8], size: usize, buffer: &mut Vec<u8>, offset: usize) -> (r:
    Result<(), Error>)
    requires
        offset + size <= old(buffer)@.len(),
    ensures
        r == check_read_reply(reply@, size as int),
        r is Ok ==> final(buffer)@ == store_payload(old(buffer)@, offset as int, reply@, size as int),
        r is Err ==> final(buffer)@ == old(buffer)@,
{
    if reply.len() < OFFSET_REPLY_PAYLOAD {
        return Err(Error::Response { code: ISO_INVALID_DATA_SIZE });
    }
    if reply[OFFSET_REPLY_STATUS] != REPLY_SUCCESS {
        return Err(Error::CPU { code: reply[OFFSET_REPLY_STATUS] as i32 });
    }
    if reply.len() - OFFSET_REPLY_PAYLOAD < size {
        return Err(Error::Response { code: ISO_INVALID_DATA_SIZE });
    }
    let buffer_len = buffer.len();
    let reply_len = reply.len();
    let mut k: usize = 0;
    while k < size
        invariant
            k <= size,
            offset + size <= buffer_len,
            OFFSET_REPLY_PAYLOAD + size <= reply_len,
            buffer_len == buffer@.len(),
            reply_len == reply@.len(),
            buffer@.len() == old(buffer)@.len(),
            forall|i: int|
                0 <= i < buffer@.len() ==> buffer@[i] == (if offset <= i < offset + k {
                    reply@[OFFSET_REPLY_PAYLOAD + i - offset]
                } else {
                    old(buffer)@[i]
                }),
        decreases size - k,
    {
        buffer[offset + k] = reply[OFFSET_REPLY_PAYLOAD + k];
        k += 1;
    }
    assert(buffer@ =~= store_payload(old(buffer)@, offset as int, reply@, size as int));
    Ok(())
}

} // verus!
