//! The client: reads and writes of controller memory over a transport.

use crate::constant::{Area, DataSizeType, READ_REPLY_OVERHEAD, WRITE_REQUEST_OVERHEAD};
use crate::error::Error;
use crate::exchange::{
    answer_of, is_read_of, is_write_of, read_after, read_outcome, write_after, write_outcome,
    Progress,
};
use crate::transfer::{lemma_transfer_len, Transfer};
use crate::transport::Transport;
use vstd::prelude::*;

verus! {

/// A client on top of a transport that is connected and has negotiated.
#[derive(Debug, Clone)]
pub struct Client<T: Transport> {
    transport: T,
}

impl<T: Transport> View for Client<T> {
    type V = T;

    /// The transport that the client talks through.
    closed spec fn view(&self) -> T {
        self.transport
    }
}

impl<T: Transport> Client<T> {
    /// A client that talks through `transport`.
    pub fn new(transport: T) -> (client: Client<T>)
        ensures
            client@ == transport,
    {
        Client { transport }
    }

    /// Reads `area` into the first bytes of `buffer`.
    ///
    /// The request is sent in chunks that fit the PDU length which the
    /// transport reports. Each chunk's payload lands in the buffer behind
    /// the previous one. The first failure ends the call: a PDU length
    /// without room for one element, an error of the transport, or a reply
    /// that is refused. What was stored before the failure stays; the rest
    /// of the buffer is as it was.
    ///
    /// The buffer must have room for `area.transfer_len()` bytes.
    pub fn read(&mut self, area: Area, buffer: &mut Vec<u8>) -> (r: Result<(), Error>)
        requires
            old(buffer)@.len() >= area.spec_transfer_len(),
        ensures
            is_read_of(area, old(buffer)@, r, final(buffer)@),
    {
        let pdu_length = self.transport.pdu_length();
        let ghost answers: Seq<Result<Seq<u8>, Error>> = Seq::empty();
        let mut transfer = match Transfer::for_read(area, pdu_length) {
            Ok(transfer) => transfer,
            Err(e) => {
                assert(read_outcome(area, pdu_length, answers, old(buffer)@) == Some(
                    (Err::<(), Error>(e), buffer@),
                ));
                return Err(e);
            },
        };
        let ghost first = transfer;
        let ghost mut answers = answers;
        while !transfer.is_complete()
            invariant
                transfer.wf(),
                transfer.area == area,
                first == Transfer::begin(area, pdu_length, READ_REPLY_OVERHEAD)->Ok_0,
                Transfer::begin(area, pdu_length, READ_REPLY_OVERHEAD) is Ok,
                read_after(first, answers, old(buffer)@) == Progress::Running(transfer, buffer@),
                buffer@.len() == old(buffer)@.len(),
                buffer@.len() >= area.spec_transfer_len(),
                forall|i: int|
                    transfer.spec_offset() <= i < buffer@.len() ==> buffer@[i] == old(buffer)@[i],
            decreases area.spec_amount() - transfer.done,
        {
            let request = transfer.read_request();
            let answer = self.transport.send(request.as_slice());
            let ghost before = answers;
            let ghost previous = transfer;
            proof {
                answers = before.push(answer_of(answer));
                assert(answers.drop_last() =~= before);
                previous.lemma_bounds();
            }
            match transfer.take_read_answer(answer, buffer) {
                Ok(()) => {},
                Err(e) => {
                    assert(read_outcome(area, pdu_length, answers, old(buffer)@) == Some(
                        (Err::<(), Error>(e), buffer@),
                    ));
                    return Err(e);
                },
            }
        }
        proof {
            transfer.lemma_bounds();
            assert(read_outcome(area, pdu_length, answers, old(buffer)@) == Some(
                (Ok::<(), Error>(()), buffer@),
            ));
        }
        Ok(())
    }

    /// Writes the first bytes of `buffer` to `area`.
    ///
    /// The bytes are sent in chunks that fit the PDU length which the
    /// transport reports, each chunk's share of the buffer behind the
    /// header of its own request. The first failure ends the call: a PDU
    /// length without room for one element, or an error of the transport.
    /// The frame that answers a request is not inspected.
    ///
    /// The buffer must hold `area.transfer_len()` bytes; it is not changed.
    pub fn write(&mut self, area: Area, buffer: &mut Vec<u8>) -> (r: Result<(), Error>)
        requires
            old(buffer)@.len() >= area.spec_transfer_len(),
        ensures
            final(buffer)@ == old(buffer)@,
            is_write_of(area, old(buffer)@, r),
    {
        let pdu_length = self.transport.pdu_length();
        let ghost answers: Seq<Result<Seq<u8>, Error>> = Seq::empty();
        let mut transfer = match Transfer::for_write(area, pdu_length) {
            Ok(transfer) => transfer,
            Err(e) => {
                assert(write_outcome(area, pdu_length, answers, buffer@) == Some(
                    (Err::<(), Error>(e), buffer@),
                ));
                return Err(e);
            },
        };
        let ghost first = transfer;
        let ghost mut answers = answers;
        while !transfer.is_complete()
            invariant
                transfer.wf(),
                transfer.fits_write(),
                transfer.area == area,
                first == Transfer::begin(area, pdu_length, WRITE_REQUEST_OVERHEAD)->Ok_0,
                Transfer::begin(area, pdu_length, WRITE_REQUEST_OVERHEAD) is Ok,
                write_after(first, answers, buffer@) == Progress::Running(transfer, buffer@),
                buffer@ == old(buffer)@,
                buffer@.len() >= area.spec_transfer_len(),
            decreases area.spec_amount() - transfer.done,
        {
            let request = transfer.write_request(buffer.as_slice());
            let answer = self.transport.send(request.as_slice());
            let ghost before = answers;
            let ghost previous = transfer;
            proof {
                answers = before.push(answer_of(answer));
                assert(answers.drop_last() =~= before);
                previous.lemma_bounds();
            }
            match transfer.take_write_answer(answer) {
                Ok(()) => {
                    assert(write_after(first, answers, buffer@) == Progress::Running(
                        transfer,
                        buffer@,
                    ));
                },
                Err(e) => {
                    assert(write_outcome(area, pdu_length, answers, buffer@) == Some(
                        (Err::<(), Error>(e), buffer@),
                    ));
                    return Err(e);
                },
            }
        }
        proof {
            assert(write_outcome(area, pdu_length, answers, buffer@) == Some(
                (Ok::<(), Error>(()), buffer@),
            ));
        }
        Ok(())
    }

    /// Reads `size` bytes from byte `start` of data block `db_number`.
    pub fn db_read(&mut self, db_number: u16, start: u16, size: u16, buffer: &mut Vec<u8>) -> (r:
        Result<(), Error>)
        requires
            old(buffer)@.len() >= size,
        ensures
            is_read_of(
                Area::DataBausteine(db_number, DataSizeType::Byte { addr: start, len: size }),
                old(buffer)@,
                r,
                final(buffer)@,
            ),
    {
        let area = Area::DataBausteine(db_number, DataSizeType::Byte { addr: start, len: size });
        proof {
            lemma_transfer_len(area);
        }
        self.read(area, buffer)
    }

    /// Writes `size` bytes to byte `start` of data block `db_number`.
    pub fn db_write(&mut self, db_number: u16, start: u16, size: u16, buffer: &mut Vec<u8>) -> (r:
        Result<(), Error>)
        requires
            old(buffer)@.len() >= size,
        ensures
            final(buffer)@ == old(buffer)@,
            is_write_of(
                Area::DataBausteine(db_number, DataSizeType::Byte { addr: start, len: size }),
                old(buffer)@,
                r,
            ),
    {
        let area = Area::DataBausteine(db_number, DataSizeType::Byte { addr: start, len: size });
        proof {
            lemma_transfer_len(area);
        }
        self.write(area, buffer)
    }

    /// Reads `size` bytes from byte `start` of the flag memory.
    pub fn mb_read(&mut self, start: u16, size: u16, buffer: &mut Vec<u8>) -> (r: Result<(), Error>)
        requires
            old(buffer)@.len() >= size,
        ensures
            is_read_of(
                Area::Merker(DataSizeType::Byte { addr: start, len: size }),
                old(buffer)@,
                r,
                final(buffer)@,
            ),
    {
        let area = Area::Merker(DataSizeType::Byte { addr: start, len: size });
        proof {
            lemma_transfer_len(area);
        }
        self.read(area, buffer)
    }

    /// Writes `size` bytes to byte `start` of the flag memory.
    pub fn mb_write(&mut self, start: u16, size: u16, buffer: &mut Vec<u8>) -> (r: Result<(), Error>)
        requires
            old(buffer)@.len() >= size,
        ensures
            final(buffer)@ == old(buffer)@,
            is_write_of(
                Area::Merker(DataSizeType::Byte { addr: start, len: size }),
                old(buffer)@,
                r,
            ),
    {
        let area = Area::Merker(DataSizeType::Byte { addr: start, len: size });
        proof {
            lemma_transfer_len(area);
        }
        self.write(area, buffer)
    }

    /// Reads `size` bytes from byte `start` of the process inputs.
    pub fn eb_read(&mut self, start: u16, size: u16, buffer: &mut Vec<u8>) -> (r: Result<(), Error>)
        requires
            old(buffer)@.len() >= size,
        ensures
            is_read_of(
                Area::ProcessInput(DataSizeType::Byte { addr: start, len: size }),
                old(buffer)@,
                r,
                final(buffer)@,
            ),
    {
        let area = Area::ProcessInput(DataSizeType::Byte { addr: start, len: size });
        proof {
            lemma_transfer_len(area);
        }
        self.read(area, buffer)
    }

    /// Writes `size` bytes to byte `start` of the process inputs.
    pub fn eb_write(&mut self, start: u16, size: u16, buffer: &mut Vec<u8>) -> (r: Result<(), Error>)
        requires
            old(buffer)@.len() >= size,
        ensures
            final(buffer)@ == old(buffer)@,
            is_write_of(
                Area::ProcessInput(DataSizeType::Byte { addr: start, len: size }),
                old(buffer)@,
                r,
            ),
    {
        let area = Area::ProcessInput(DataSizeType::Byte { addr: start, len: size });
        proof {
            lemma_transfer_len(area);
        }
        self.write(area, buffer)
    }

    /// Reads `size` bytes from byte `start` of the process outputs.
    pub fn ab_read(&mut self, start: u16, size: u16, buffer: &mut Vec<u8>) -> (r: Result<(), Error>)
        requires
            old(buffer)@.len() >= size,
        ensures
            is_read_of(
                Area::ProcessOutput(DataSizeType::Byte { addr: start, len: size }),
                old(buffer)@,
                r,
                final(buffer)@,
            ),
    {
        let area = Area::ProcessOutput(DataSizeType::Byte { addr: start, len: size });
        proof {
            lemma_transfer_len(area);
        }
        self.read(area, buffer)
    }

    /// Writes `size` bytes to byte `start` of the process outputs.
    pub fn ab_write(&mut self, start: u16, size: u16, buffer: &mut Vec<u8>) -> (r: Result<(), Error>)
        requires
            old(buffer)@.len() >= size,
        ensures
            final(buffer)@ == old(buffer)@,
            is_write_of(
                Area::ProcessOutput(DataSizeType::Byte { addr: start, len: size }),
                old(buffer)@,
                r,
            ),
    {
        let area = Area::ProcessOutput(DataSizeType::Byte { addr: start, len: size });
        proof {
            lemma_transfer_len(area);
        }
        self.write(area, buffer)
    }
}

} // verus!
