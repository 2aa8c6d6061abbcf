//! How a request for an area travels: the granularity it is flattened to,
//! and its division into chunks that fit the negotiated PDU length.

use crate::constant::{
    be24, packable, packed, packed_value, Area, READ_REPLY_OVERHEAD, SIZE_HEADER_WRITE,
    TS_RES_BIT, TS_RES_BYTE, TS_RES_OCTET, WL_BIT, WL_BYTE, WL_COUNTER, WL_TIMER,
    WRITE_REQUEST_OVERHEAD,
};
use crate::error::Error;
use crate::telegram::{
    accept_read_reply, check_read_reply, framed, read_request, read_request_bytes, store_payload,
    write_request, write_request_bytes, Item,
};
use core::ops::Deref;
use vstd::prelude::*;
use vstd::slice::slice_subrange;

verus! {

impl Area {
    pub open spec fn spec_word_len(&self) -> u8 {
        match self {
            Area::Counter(_) => WL_COUNTER,
            Area::Timer(_) => WL_TIMER,
            _ => self.data_size().spec_data(),
        }
    }

    pub open spec fn spec_keeps_word_len(&self) -> bool {
        self.spec_word_len() == WL_BIT || self.spec_word_len() == WL_COUNTER
            || self.spec_word_len() == WL_TIMER
    }

    pub open spec fn spec_wire_word_len(&self) -> u8 {
        if self.spec_keeps_word_len() {
            self.spec_word_len()
        } else {
            WL_BYTE
        }
    }

    pub open spec fn spec_element_size(&self) -> u16 {
        if self.spec_word_len() == WL_COUNTER || self.spec_word_len() == WL_TIMER {
            2
        } else {
            1
        }
    }

    pub open spec fn spec_amount(&self) -> u32 {
        if self.spec_word_len() == WL_BIT {
            1
        } else if self.spec_keeps_word_len() {
            self.data_size().spec_len() as u32
        } else {
            (self.data_size().spec_len() * self.data_size().spec_length()) as u32
        }
    }

    pub open spec fn spec_transfer_len(&self) -> usize {
        (self.spec_amount() * self.spec_element_size()) as usize
    }

    pub open spec fn spec_transport_size(&self) -> u8 {
        if self.spec_word_len() == WL_BIT {
            TS_RES_BIT
        } else if self.spec_keeps_word_len() {
            TS_RES_OCTET
        } else {
            TS_RES_BYTE
        }
    }

    /// The word length that governs the transfer: counter and timer areas
    /// impose their own, whatever data type was declared; every other area
    /// goes by the data type.
    #[verifier::when_used_as_spec(spec_word_len)]
    pub fn word_len(&self) -> (w: u8)
        ensures
            w == self.spec_word_len(),
    {
        match self {
            Area::Counter(_) => WL_COUNTER,
            Area::Timer(_) => WL_TIMER,
            _ => self.deref().data(),
        }
    }

    /// Whether the elements travel under their own word length. Bits,
    /// counters and timers do; every other type is flattened to bytes.
    #[verifier::when_used_as_spec(spec_keeps_word_len)]
    pub fn keeps_word_len(&self) -> (b: bool)
        ensures
            b == self.spec_keeps_word_len(),
    {
        let w = self.word_len();
        w == WL_BIT || w == WL_COUNTER || w == WL_TIMER
    }

    /// The word length code that a telegram carries.
    #[verifier::when_used_as_spec(spec_wire_word_len)]
    pub fn wire_word_len(&self) -> (w: u8)
        ensures
            w == self.spec_wire_word_len(),
    {
        if self.keeps_word_len() {
            self.word_len()
        } else {
            WL_BYTE
        }
    }

    /// Bytes per element on the wire: 2 for counters and timers, 1 for bits
    /// and for everything that is flattened to bytes.
    #[verifier::when_used_as_spec(spec_element_size)]
    pub fn element_size(&self) -> (n: u16)
        ensures
            n == self.spec_element_size(),
            1 <= n <= 2,
    {
        let w = self.word_len();
        if w == WL_COUNTER || w == WL_TIMER {
            2
        } else {
            1
        }
    }

    /// Elements on the wire: one for a bit, the declared count for counters
    /// and timers, and for everything else the declared count times the
    /// size of the data type, as that many single bytes.
    #[verifier::when_used_as_spec(spec_amount)]
    pub fn amount(&self) -> (n: u32)
        ensures
            n == self.spec_amount(),
            n <= 4 * 0xFFFF,
            self.spec_element_size() == 2 ==> n <= 0xFFFF,
    {
        let d = self.deref();
        if self.word_len() == WL_BIT {
            1
        } else if self.keeps_word_len() {
            d.len() as u32
        } else {
            let count = d.len() as u32;
            let size = d.length() as u32;
            assert(count * size <= 0xFFFF * 4) by (nonlinear_arith)
                requires
                    count <= 0xFFFF,
                    size <= 4,
            ;
            count * size
        }
    }

    /// The bytes that a transfer moves, which is the room that the caller's
    /// buffer must have.
    #[verifier::when_used_as_spec(spec_transfer_len)]
    pub fn transfer_len(&self) -> (n: usize)
        ensures
            n == self.spec_transfer_len(),
            n == self.spec_amount() * self.spec_element_size(),
            n <= 4 * 0xFFFF,
    {
        let amount = self.amount() as usize;
        proof {
            lemma_scale(amount as int, self.spec_element_size());
        }
        if self.element_size() == 2 {
            amount * 2
        } else {
            amount
        }
    }

    /// The transport size code of a written payload: bit, octet for
    /// counters and timers, byte for everything else.
    #[verifier::when_used_as_spec(spec_transport_size)]
    pub fn transport_size(&self) -> (code: u8)
        ensures
            code == self.spec_transport_size(),
    {
        if self.word_len() == WL_BIT {
            TS_RES_BIT
        } else if self.keeps_word_len() {
            TS_RES_OCTET
        } else {
            TS_RES_BYTE
        }
    }
}

/// With an element size of 1 or 2, a product by it is the number or its double.
pub proof fn lemma_scale(elements: int, element_size: u16)
    requires
        element_size == 1 || element_size == 2,
    ensures
        elements * element_size == (if element_size == 2 {
            2 * elements
        } else {
            elements
        }),
{
    assert(elements * element_size == (if element_size == 2 {
        2 * elements
    } else {
        elements
    })) by (nonlinear_arith)
        requires
            element_size == 1 || element_size == 2,
    ;
}

/// The bytes of a transfer are the elements times their size on the wire.
/// Outside the counter and timer areas that is the byte length of what was
/// declared; inside them every declared element counts as one word.
pub proof fn lemma_transfer_len(area: Area)
    ensures
        area.spec_transfer_len() == area.spec_amount() * area.spec_element_size(),
        area.spec_transfer_len() <= 4 * 0xFFFF,
        !(area is Counter || area is Timer) ==> area.spec_transfer_len()
            == area.data_size().spec_byte_len(),
        (area is Counter || area is Timer) ==> area.spec_transfer_len() == 2
            * area.data_size().spec_len(),
{
    let d = area.data_size();
    assert(d.spec_len() * d.spec_length() <= 0xFFFF * 4) by (nonlinear_arith)
        requires
            d.spec_len() <= 0xFFFF,
            d.spec_length() <= 4,
    ;
    lemma_scale(area.spec_amount() as int, area.spec_element_size());
    if d.spec_length() != 4 {
        lemma_scale(d.spec_len() as int, d.spec_length());
    }
}

/// The elements of one chunk: as many as the PDU length leaves room for
/// after `overhead` header bytes.
pub open spec fn max_elements(pdu_length: u16, overhead: u16, element_size: u16) -> int {
    (pdu_length - overhead) / (element_size as int)
}

/// A transfer in progress: the area, the elements that one chunk may hold
/// and the elements moved so far.
#[derive(Debug, Copy, Clone, PartialEq, Eq)]
pub struct Transfer {
    /// What is transferred.
    pub area: Area,
    /// The most elements that one telegram carries; at least 1.
    pub max_elements: u16,
    /// The elements transferred so far.
    pub done: u32,
}

impl Transfer {
    /// A chunk holds at least one element, and no more is done than was asked for.
    pub open spec fn wf(&self) -> bool {
        self.max_elements >= 1 && self.done <= self.area.spec_amount()
    }

    /// The transfer of `area` before its first chunk, or the refusal of a
    /// PDU length that has no room for a single element behind `overhead`
    /// header bytes. A PDU length of 0, which means that none was
    /// negotiated, is always refused.
    pub open spec fn begin(area: Area, pdu_length: u16, overhead: u16) -> Result<Transfer, Error> {
        if pdu_length < overhead + area.spec_element_size() {
            Err(Error::PduLength(pdu_length))
        } else {
            Ok(
                Transfer {
                    area,
                    max_elements: max_elements(
                        pdu_length,
                        overhead,
                        area.spec_element_size(),
                    ) as u16,
                    done: 0,
                },
            )
        }
    }

    pub open spec fn spec_is_complete(&self) -> bool {
        self.done >= self.area.spec_amount()
    }

    pub open spec fn spec_count(&self) -> u16 {
        if self.area.spec_amount() - self.done > self.max_elements {
            self.max_elements
        } else {
            (self.area.spec_amount() - self.done) as u16
        }
    }

    pub open spec fn spec_size(&self) -> usize {
        (self.spec_count() * self.area.spec_element_size()) as usize
    }

    pub open spec fn spec_offset(&self) -> usize {
        (self.done * self.area.spec_element_size()) as usize
    }

    pub open spec fn spec_address(&self) -> u32 {
        (self.area.data_size().spec_byte_addr() + self.done * self.area.spec_element_size()) as u32
    }

    pub open spec fn spec_item(&self) -> Item {
        Item {
            area: self.area.spec_area_data(),
            db_number: self.area.spec_db_number(),
            word_len: self.area.spec_wire_word_len(),
            count: self.spec_count(),
            address: be24(
                packed_value(
                    self.spec_address() as int,
                    self.area.data_size().spec_bit_addr() as int,
                ),
            ),
        }
    }

    pub open spec fn spec_payload_length(&self) -> u16 {
        if self.area.spec_keeps_word_len() {
            self.spec_size() as u16
        } else {
            (self.spec_size() * 8 % 0x1_0000) as u16
        }
    }

    /// The bytes of the read request of the next chunk.
    pub open spec fn spec_read_request(&self) -> Seq<u8> {
        read_request_bytes(self.spec_item())
    }

    /// The share of `buffer` that belongs to the next chunk.
    pub open spec fn share(&self, buffer: Seq<u8>) -> Seq<u8> {
        buffer.subrange(self.spec_offset() as int, self.spec_offset() + self.spec_size())
    }

    /// The bytes of the write request of the next chunk, for a transfer
    /// whose bytes are the first of `buffer`.
    pub open spec fn spec_write_request(&self, buffer: Seq<u8>) -> Seq<u8> {
        write_request_bytes(
            self.spec_item(),
            self.area.spec_transport_size(),
            self.spec_payload_length(),
            self.share(buffer),
        )
    }

    /// The transfer after its next chunk.
    pub open spec fn next(&self) -> Transfer {
        Transfer { done: (self.done + self.spec_count()) as u32, ..*self }
    }

    /// The transfer that reads `area` under the given PDU length: a chunk
    /// must fit a reply, whose header takes 18 bytes.
    pub fn for_read(area: Area, pdu_length: u16) -> (r: Result<Transfer, Error>)
        ensures
            r == Transfer::begin(area, pdu_length, READ_REPLY_OVERHEAD),
            r is Ok ==> r->Ok_0.wf(),
    {
        Transfer::start(area, pdu_length, READ_REPLY_OVERHEAD)
    }

    /// The transfer that writes `area` under the given PDU length: a chunk
    /// must fit a request, whose header takes 35 bytes.
    pub fn for_write(area: Area, pdu_length: u16) -> (r: Result<Transfer, Error>)
        ensures
            r == Transfer::begin(area, pdu_length, WRITE_REQUEST_OVERHEAD),
            r is Ok ==> r->Ok_0.wf() && r->Ok_0.fits_write(),
    {
        Transfer::start(area, pdu_length, WRITE_REQUEST_OVERHEAD)
    }

    /// Whether every chunk, behind the header of a write request, fits the
    /// 16-bit frame length.
    pub open spec fn fits_write(&self) -> bool {
        SIZE_HEADER_WRITE + self.max_elements * self.area.spec_element_size() <= 0xFFFF
    }

    fn start(area: Area, pdu_length: u16, overhead: u16) -> (r: Result<Transfer, Error>)
        ensures
            r == Transfer::begin(area, pdu_length, overhead),
            r is Ok ==> r->Ok_0.wf(),
            r is Ok ==> overhead + r->Ok_0.max_elements * area.spec_element_size() <= 0xFFFF,
    {
        let element_size = area.element_size();
        if (pdu_length as u32) < overhead as u32 + element_size as u32 {
            return Err(Error::PduLength(pdu_length));
        }
        let max_elements = (pdu_length - overhead) / element_size;
        Ok(Transfer { area, max_elements, done: 0 })
    }

    /// Whether every element was transferred.
    #[verifier::when_used_as_spec(spec_is_complete)]
    pub fn is_complete(&self) -> (b: bool)
        ensures
            b == self.spec_is_complete(),
    {
        self.done >= self.area.amount()
    }

    /// The elements of the next chunk: what remains, but no more than one
    /// telegram carries.
    #[verifier::when_used_as_spec(spec_count)]
    pub fn count(&self) -> (n: u16)
        requires
            self.wf(),
        ensures
            n == self.spec_count(),
            n <= self.max_elements,
            self.done + n <= self.area.spec_amount(),
            !self.spec_is_complete() ==> n >= 1,
    {
        let remaining = self.area.amount() - self.done;
        if remaining > self.max_elements as u32 {
            self.max_elements
        } else {
            remaining as u16
        }
    }

    /// The bytes of the next chunk.
    #[verifier::when_used_as_spec(spec_size)]
    pub fn size(&self) -> (n: usize)
        requires
            self.wf(),
        ensures
            n == self.spec_size(),
            n == self.spec_count() * self.area.spec_element_size(),
    {
        let count = self.count() as usize;
        proof {
            self.lemma_bounds();
            lemma_scale(count as int, self.area.spec_element_size());
        }
        if self.area.element_size() == 2 {
            count * 2
        } else {
            count
        }
    }

    /// The bytes transferred so far, which is where the next chunk starts
    /// in the caller's buffer.
    #[verifier::when_used_as_spec(spec_offset)]
    pub fn offset(&self) -> (n: usize)
        requires
            self.wf(),
        ensures
            n == self.spec_offset(),
            n == self.done * self.area.spec_element_size(),
    {
        let done = self.done as usize;
        proof {
            self.lemma_bounds();
            lemma_scale(done as int, self.area.spec_element_size());
        }
        if self.area.element_size() == 2 {
            done * 2
        } else {
            done
        }
    }

    /// The byte address at which the next chunk starts.
    #[verifier::when_used_as_spec(spec_address)]
    pub fn address(&self) -> (a: u32)
        requires
            self.wf(),
        ensures
            a == self.spec_address(),
            a == self.area.data_size().spec_byte_addr() + self.spec_offset(),
            packable(a as int, self.area.data_size().spec_bit_addr() as int),
    {
        proof {
            self.lemma_bounds();
        }
        self.area.deref().byte_addr() as u32 + self.offset() as u32
    }

    /// The offsets of a transfer stay within what the area asks for, which
    /// is at most four times 65535 bytes.
    pub proof fn lemma_bounds(&self)
        requires
            self.wf(),
        ensures
            self.area.spec_transfer_len() == self.area.spec_amount()
                * self.area.spec_element_size(),
            self.area.spec_transfer_len() <= 4 * 0xFFFF,
            self.spec_offset() == self.done * self.area.spec_element_size(),
            self.spec_size() == self.spec_count() * self.area.spec_element_size(),
            self.spec_offset() + self.spec_size() <= self.area.spec_transfer_len(),
            self.spec_count() <= self.max_elements,
            self.done + self.spec_count() <= self.area.spec_amount(),
            self.next().spec_offset() == self.spec_offset() + self.spec_size(),
            self.spec_is_complete() <==> self.spec_offset() == self.area.spec_transfer_len(),
            self.spec_is_complete() <==> self.spec_count() == 0,
    {
        let d = self.area.data_size();
        let size = self.area.spec_element_size();
        assert(d.spec_len() * d.spec_length() <= 0xFFFF * 4) by (nonlinear_arith)
            requires
                d.spec_len() <= 0xFFFF,
                d.spec_length() <= 4,
        ;
        lemma_scale(self.area.spec_amount() as int, size);
        lemma_scale(self.done as int, size);
        lemma_scale(self.spec_count() as int, size);
        lemma_scale(self.done + self.spec_count(), size);
    }

    /// The addressed item of the next chunk.
    pub fn item(&self) -> (item: Item)
        requires
            self.wf(),
        ensures
            item == self.spec_item(),
    {
        Item {
            area: self.area.area_data(),
            db_number: self.area.db_number(),
            word_len: self.area.wire_word_len(),
            count: self.count(),
            address: packed(self.address(), self.area.deref().bit_addr()),
        }
    }

    /// The payload length that a write request states for the next chunk:
    /// in bytes for bits, counters and timers, else in bits. The field has
    /// 16 bits and carries the low 16 bits of a larger bit count.
    #[verifier::when_used_as_spec(spec_payload_length)]
    pub fn payload_length(&self) -> (n: u16)
        requires
            self.wf(),
            self.fits_write(),
        ensures
            n == self.spec_payload_length(),
    {
        let size = self.size();
        proof {
            self.lemma_bounds();
            lemma_scale(self.spec_count() as int, self.area.spec_element_size());
            lemma_scale(self.max_elements as int, self.area.spec_element_size());
        }
        if self.area.keeps_word_len() {
            size as u16
        } else {
            (size * 8 % 0x1_0000) as u16
        }
    }

    /// The read request of the next chunk.
    pub fn read_request(&self) -> (request: Vec<u8>)
        requires
            self.wf(),
        ensures
            request@ == self.spec_read_request(),
            framed(request@),
    {
        read_request(&self.item())
    }

    /// The write request of the next chunk. Its payload is the chunk's
    /// share of `buffer`, which holds the bytes of the whole transfer.
    pub fn write_request(&self, buffer: &[u8]) -> (request: Vec<u8>)
        requires
            self.wf(),
            self.fits_write(),
            buffer@.len() >= self.area.spec_transfer_len(),
        ensures
            request@ == self.spec_write_request(buffer@),
            framed(request@),
    {
        proof {
            self.lemma_bounds();
            lemma_scale(self.spec_count() as int, self.area.spec_element_size());
            lemma_scale(self.max_elements as int, self.area.spec_element_size());
        }
        let offset = self.offset();
        let payload = slice_subrange(buffer, offset, offset + self.size());
        write_request(&self.item(), self.area.transport_size(), self.payload_length(), payload)
    }

    /// Takes the reply to the read request of the next chunk. A good reply
    /// has its payload copied into `buffer` where the chunk belongs, and
    /// the transfer moves on; a reply that is refused changes nothing.
    pub fn accept_read_reply(&mut self, reply: &[u8], buffer: &mut Vec<u8>) -> (r: Result<
        (),
        Error,
    >)
        requires
            old(self).wf(),
            old(buffer)@.len() >= old(self).area.spec_transfer_len(),
        ensures
            r == check_read_reply(reply@, old(self).spec_size() as int),
            r is Ok ==> *final(self) == old(self).next() && final(buffer)@ == store_payload(
                old(buffer)@,
                old(self).spec_offset() as int,
                reply@,
                old(self).spec_size() as int,
            ),
            r is Err ==> *final(self) == *old(self) && final(buffer)@ == old(buffer)@,
            final(self).wf(),
    {
        proof {
            self.lemma_bounds();
        }
        match accept_read_reply(reply, self.size(), buffer, self.offset()) {
            Ok(()) => {
                self.advance();
                Ok(())
            },
            Err(e) => Err(e),
        }
    }

    /// Moves on past the next chunk.
    pub fn advance(&mut self)
        requires
            old(self).wf(),
        ensures
            *final(self) == old(self).next(),
            final(self).wf(),
    {
        self.done = self.done + self.count() as u32;
    }
}

} // verus!
