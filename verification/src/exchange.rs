//! A whole read or write as a function of what the transport gave back.
//!
//! The client sends one request per chunk and stops at the first failure.
//! Seen from outside, a call is therefore determined by the area, the PDU
//! length and the sequence of answers. This module states that function and
//! the laws that hold of it.

use crate::constant::{Area, READ_REPLY_OVERHEAD, SIZE_HEADER_WRITE, WRITE_REQUEST_OVERHEAD};
use crate::error::Error;
use crate::telegram::{
    check_read_reply, lemma_write_request_payload, reply_payload, store_payload,
    OFFSET_REPLY_PAYLOAD, OFFSET_REPLY_STATUS, REPLY_SUCCESS,
};
use crate::transfer::Transfer;
use crate::wire::{lemma_patch_extends, patch};
use vstd::prelude::*;

verus! {

/// How far a call has come.
pub enum Progress {
    /// No failure so far: the state of the transfer and the caller's buffer.
    Running(Transfer, Seq<u8>),
    /// The call ended with this error and left the buffer like this.
    Failed(Error, Seq<u8>),
    /// More answers than requests: no call behaves like this.
    Invalid,
}

/// A read after one more answer. An answer is only expected while chunks
/// remain. A transport error, or a reply that is refused, ends the call
/// and leaves the buffer as it was before this chunk; a good reply has
/// its payload stored and moves the transfer on.
pub open spec fn read_step(progress: Progress, answer: Result<Seq<u8>, Error>) -> Progress {
    match progress {
        Progress::Running(transfer, buffer) => if transfer.spec_is_complete() {
            Progress::Invalid
        } else {
            match answer {
                Err(error) => Progress::Failed(error, buffer),
                Ok(reply) => match check_read_reply(reply, transfer.spec_size() as int) {
                    Err(error) => Progress::Failed(error, buffer),
                    Ok(()) => Progress::Running(
                        transfer.next(),
                        store_payload(
                            buffer,
                            transfer.spec_offset() as int,
                            reply,
                            transfer.spec_size() as int,
                        ),
                    ),
                },
            }
        },
        _ => Progress::Invalid,
    }
}

/// A write after one more answer. An answer is only expected while chunks
/// remain. A transport error ends the call; any frame that comes back
/// counts as success, whatever it holds.
pub open spec fn write_step(progress: Progress, answer: Result<Seq<u8>, Error>) -> Progress {
    match progress {
        Progress::Running(transfer, buffer) => if transfer.spec_is_complete() {
            Progress::Invalid
        } else {
            match answer {
                Err(error) => Progress::Failed(error, buffer),
                Ok(_) => Progress::Running(transfer.next(), buffer),
            }
        },
        _ => Progress::Invalid,
    }
}

/// What the transport gave back, as the steps above see it.
pub open spec fn answer_of(result: Result<Vec<u8>, Error>) -> Result<Seq<u8>, Error> {
    match result {
        Ok(frame) => Ok(frame@),
        Err(error) => Err(error),
    }
}

/// The progress that a step's result and what it left behind stand for.
pub open spec fn progress_of(
    result: Result<(), Error>,
    transfer: Transfer,
    buffer: Seq<u8>,
) -> Progress {
    match result {
        Ok(()) => Progress::Running(transfer, buffer),
        Err(error) => Progress::Failed(error, buffer),
    }
}

impl Transfer {
    /// Takes what the transport gave back for the read request of the next
    /// chunk: one step of a read.
    pub fn take_read_answer(&mut self, answer: Result<Vec<u8>, Error>, buffer: &mut Vec<u8>) -> (r:
        Result<(), Error>)
        requires
            old(self).wf(),
            !old(self).spec_is_complete(),
            old(buffer)@.len() >= old(self).area.spec_transfer_len(),
        ensures
            progress_of(r, *final(self), final(buffer)@) == read_step(
                Progress::Running(*old(self), old(buffer)@),
                answer_of(answer),
            ),
            final(self).wf(),
            final(self).area == old(self).area,
            final(self).max_elements == old(self).max_elements,
    {
        match answer {
            Ok(reply) => self.accept_read_reply(reply.as_slice(), buffer),
            Err(e) => Err(e),
        }
    }

    /// Takes what the transport gave back for the write request of the
    /// next chunk: one step of a write.
    pub fn take_write_answer(&mut self, answer: Result<Vec<u8>, Error>) -> (r: Result<(), Error>)
        requires
            old(self).wf(),
            !old(self).spec_is_complete(),
        ensures
            forall|buffer: Seq<u8>|
                progress_of(r, *final(self), buffer) == #[trigger] write_step(
                    Progress::Running(*old(self), buffer),
                    answer_of(answer),
                ),
            final(self).wf(),
            final(self).area == old(self).area,
            final(self).max_elements == old(self).max_elements,
    {
        match answer {
            Ok(_) => {
                self.advance();
                Ok(())
            },
            Err(e) => Err(e),
        }
    }
}

/// A read that started at `transfer` with `buffer`, after these answers in order.
pub open spec fn read_after(
    transfer: Transfer,
    answers: Seq<Result<Seq<u8>, Error>>,
    buffer: Seq<u8>,
) -> Progress
    decreases answers.len(),
{
    if answers.len() == 0 {
        Progress::Running(transfer, buffer)
    } else {
        read_step(read_after(transfer, answers.drop_last(), buffer), answers.last())
    }
}

/// A write that started at `transfer` with `buffer`, after these answers in order.
pub open spec fn write_after(
    transfer: Transfer,
    answers: Seq<Result<Seq<u8>, Error>>,
    buffer: Seq<u8>,
) -> Progress
    decreases answers.len(),
{
    if answers.len() == 0 {
        Progress::Running(transfer, buffer)
    } else {
        write_step(write_after(transfer, answers.drop_last(), buffer), answers.last())
    }
}

/// What a call that has come this far returns, and the buffer it leaves:
/// success once every chunk is through, the error if it failed. While
/// chunks remain, the call has not ended.
pub open spec fn settled(progress: Progress) -> Option<(Result<(), Error>, Seq<u8>)> {
    match progress {
        Progress::Running(transfer, buffer) => if transfer.spec_is_complete() {
            Some((Ok(()), buffer))
        } else {
            None
        },
        Progress::Failed(error, buffer) => Some((Err(error), buffer)),
        Progress::Invalid => None,
    }
}

/// What a read of `area` returns and leaves in the buffer, given the PDU
/// length that the transport reported and the answers it gave to the
/// requests, one per chunk up to the first failure. A PDU length without
/// room for one element fails before anything is sent. `None` where the
/// answers are not those of one call.
pub open spec fn read_outcome(
    area: Area,
    pdu_length: u16,
    answers: Seq<Result<Seq<u8>, Error>>,
    buffer: Seq<u8>,
) -> Option<(Result<(), Error>, Seq<u8>)> {
    match Transfer::begin(area, pdu_length, READ_REPLY_OVERHEAD) {
        Err(error) => if answers.len() == 0 {
            Some((Err(error), buffer))
        } else {
            None
        },
        Ok(transfer) => settled(read_after(transfer, answers, buffer)),
    }
}

/// What a write of `area` returns, given the PDU length that the transport
/// reported and the answers it gave to the requests, one per chunk up to
/// the first failure. `None` where the answers are not those of one call.
pub open spec fn write_outcome(
    area: Area,
    pdu_length: u16,
    answers: Seq<Result<Seq<u8>, Error>>,
    buffer: Seq<u8>,
) -> Option<(Result<(), Error>, Seq<u8>)> {
    match Transfer::begin(area, pdu_length, WRITE_REQUEST_OVERHEAD) {
        Err(error) => if answers.len() == 0 {
            Some((Err(error), buffer))
        } else {
            None
        },
        Ok(transfer) => settled(write_after(transfer, answers, buffer)),
    }
}

/// Whether a call that found the buffer as `before`, returned `result` and
/// left it as `after` is a read of `area`: it is what some PDU length and
/// some answers of the transport make of the call, the buffer keeps its
/// length, and nothing behind the bytes of the transfer is touched.
pub open spec fn is_read_of(
    area: Area,
    before: Seq<u8>,
    result: Result<(), Error>,
    after: Seq<u8>,
) -> bool {
    &&& exists|pdu_length: u16, answers: Seq<Result<Seq<u8>, Error>>|
        #[trigger] read_outcome(area, pdu_length, answers, before) == Some((result, after))
    &&& after.len() == before.len()
    &&& forall|i: int| area.spec_transfer_len() <= i < before.len() ==> after[i] == before[i]
}

/// Whether a call that was handed `buffer` and returned `result` is a write
/// of `area`: it is what some PDU length and some answers of the transport
/// make of the call.
pub open spec fn is_write_of(area: Area, buffer: Seq<u8>, result: Result<(), Error>) -> bool {
    exists|pdu_length: u16, answers: Seq<Result<Seq<u8>, Error>>|
        #[trigger] write_outcome(area, pdu_length, answers, buffer) == Some((result, buffer))
}

/// The transfer that started at `first`, after `chunks` more chunks.
pub open spec fn after_chunks(first: Transfer, chunks: nat) -> Transfer
    decreases chunks,
{
    if chunks == 0 {
        first
    } else {
        after_chunks(first, (chunks - 1) as nat).next()
    }
}

/// Whether `reply` is what a controller that holds `memory` answers to the
/// read request of the next chunk of `transfer`: a good reply whose payload
/// is the memory from the chunk's byte address on.
pub open spec fn serves(memory: Seq<u8>, transfer: Transfer, reply: Seq<u8>) -> bool {
    &&& check_read_reply(reply, transfer.spec_size() as int) is Ok
    &&& reply_payload(reply, transfer.spec_size() as int) == memory.subrange(
        transfer.spec_address() as int,
        transfer.spec_address() + transfer.spec_size(),
    )
}

/// Whether the answers are those of a controller that holds `memory` and
/// serves every request of a read that starts at `first`.
pub open spec fn served_from(
    memory: Seq<u8>,
    first: Transfer,
    answers: Seq<Result<Seq<u8>, Error>>,
) -> bool {
    forall|k: int|
        0 <= k < answers.len() ==> (#[trigger] answers[k]) is Ok && serves(
            memory,
            after_chunks(first, k as nat),
            answers[k]->Ok_0,
        )
}

/// The bytes of `memory` that a transfer of `area` covers.
pub open spec fn image(memory: Seq<u8>, area: Area) -> Seq<u8> {
    memory.subrange(
        area.data_size().spec_byte_addr() as int,
        area.data_size().spec_byte_addr() + area.spec_transfer_len(),
    )
}

/// A transfer of at least one element whose elements all fit one telegram
/// is complete after exactly one chunk.
pub proof fn lemma_single_chunk(first: Transfer)
    requires
        first.wf(),
        first.done == 0,
        0 < first.area.spec_amount() <= first.max_elements,
    ensures
        !first.spec_is_complete(),
        first.spec_count() == first.area.spec_amount(),
        after_chunks(first, 1).spec_is_complete(),
{
    assert(after_chunks(first, 1) == after_chunks(first, 0).next());
}

/// Chunks keep a transfer well-formed and change nothing but the count of
/// what is done.
pub proof fn lemma_after_chunks(first: Transfer, chunks: nat)
    requires
        first.wf(),
    ensures
        after_chunks(first, chunks).wf(),
        after_chunks(first, chunks).area == first.area,
        after_chunks(first, chunks).max_elements == first.max_elements,
        after_chunks(first, chunks).done >= first.done,
    decreases chunks,
{
    if chunks > 0 {
        lemma_after_chunks(first, (chunks - 1) as nat);
        after_chunks(first, (chunks - 1) as nat).lemma_bounds();
    }
}

/// While a read runs, the buffer keeps its length, and only bytes before
/// the offset of the next chunk have been written; when it has failed, the
/// buffer still has its length and its bytes behind the transfer.
pub proof fn lemma_read_keeps_rest(
    first: Transfer,
    answers: Seq<Result<Seq<u8>, Error>>,
    buffer: Seq<u8>,
)
    requires
        first.wf(),
        buffer.len() >= first.area.spec_transfer_len(),
    ensures
        match read_after(first, answers, buffer) {
            Progress::Running(transfer, after) => {
                &&& transfer.wf()
                &&& transfer.area == first.area
                &&& transfer.max_elements == first.max_elements
                &&& after.len() == buffer.len()
                &&& forall|i: int|
                    transfer.spec_offset() <= i < buffer.len() ==> after[i] == buffer[i]
            },
            Progress::Failed(_, after) => {
                &&& after.len() == buffer.len()
                &&& forall|i: int|
                    first.area.spec_transfer_len() <= i < buffer.len() ==> after[i] == buffer[i]
            },
            Progress::Invalid => true,
        },
    decreases answers.len(),
{
    if answers.len() > 0 {
        lemma_read_keeps_rest(first, answers.drop_last(), buffer);
        match read_after(first, answers.drop_last(), buffer) {
            Progress::Running(transfer, _) => {
                transfer.lemma_bounds();
                transfer.next().lemma_bounds();
            },
            _ => {},
        }
    }
}

/// A reply whose status byte is not 0xFF ends the read with the
/// controller's error, the status byte as its code, and the chunk that was
/// refused leaves no trace: the buffer is as the chunks before it left it,
/// and from the offset of the refused chunk on as the caller handed it in.
pub proof fn lemma_refused_read(
    first: Transfer,
    answers: Seq<Result<Seq<u8>, Error>>,
    buffer: Seq<u8>,
    reply: Seq<u8>,
)
    requires
        first.wf(),
        buffer.len() >= first.area.spec_transfer_len(),
        read_after(first, answers, buffer) is Running,
        !read_after(first, answers, buffer)->Running_0.spec_is_complete(),
        reply.len() >= OFFSET_REPLY_PAYLOAD,
        reply[OFFSET_REPLY_STATUS as int] != REPLY_SUCCESS,
    ensures
        ({
            let transfer = read_after(first, answers, buffer)->Running_0;
            let before = read_after(first, answers, buffer)->Running_1;
            let code = reply[OFFSET_REPLY_STATUS as int] as i32;
            &&& settled(read_after(first, answers.push(Ok(reply)), buffer)) == Some(
                (Err::<(), Error>(Error::CPU { code }), before),
            )
            &&& before.len() == buffer.len()
            &&& forall|i: int|
                transfer.spec_offset() <= i < buffer.len() ==> before[i] == buffer[i]
        }),
{
    let more = answers.push(Ok(reply));
    assert(more.drop_last() =~= answers);
    lemma_read_keeps_rest(first, answers, buffer);
}

/// After any number of served requests the read is still running, the
/// transfer is as many chunks on, and the buffer starts with the memory
/// that those chunks cover.
proof fn lemma_served_read(
    first: Transfer,
    memory: Seq<u8>,
    answers: Seq<Result<Seq<u8>, Error>>,
    buffer: Seq<u8>,
)
    requires
        first.wf(),
        first.done == 0,
        buffer.len() >= first.area.spec_transfer_len(),
        memory.len() >= first.area.data_size().spec_byte_addr() + first.area.spec_transfer_len(),
        served_from(memory, first, answers),
        !(read_after(first, answers, buffer) is Invalid),
    ensures
        read_after(first, answers, buffer) == Progress::Running(
            after_chunks(first, answers.len()),
            patch(
                buffer,
                0,
                memory.subrange(
                    first.area.data_size().spec_byte_addr() as int,
                    first.area.data_size().spec_byte_addr() + after_chunks(
                        first,
                        answers.len(),
                    ).spec_offset(),
                ),
            ),
        ),
    decreases answers.len(),
{
    let start = first.area.data_size().spec_byte_addr() as int;
    first.lemma_bounds();
    if answers.len() == 0 {
        assert(patch(buffer, 0, memory.subrange(start, start + first.spec_offset())) =~= buffer);
    } else {
        let earlier = answers.drop_last();
        assert forall|k: int| 0 <= k < earlier.len() implies (#[trigger] earlier[k]) is Ok
            && serves(memory, after_chunks(first, k as nat), earlier[k]->Ok_0) by {
            assert(earlier[k] == answers[k]);
        }
        lemma_served_read(first, memory, earlier, buffer);
        let transfer = after_chunks(first, earlier.len());
        lemma_after_chunks(first, earlier.len());
        transfer.lemma_bounds();
        let reply = answers.last()->Ok_0;
        assert(answers.last() == answers[answers.len() - 1]);
        assert(serves(memory, transfer, reply));
        let offset = transfer.spec_offset() as int;
        let size = transfer.spec_size() as int;
        let done = memory.subrange(start, start + offset);
        let chunk = reply_payload(reply, size);
        assert(transfer.spec_address() == start + offset);
        assert(done + chunk =~= memory.subrange(start, start + offset + size));
        lemma_patch_extends(buffer, 0, done, chunk);
    }
}

/// A read whose every request is served from `memory` succeeds and leaves
/// in the buffer the bytes of the memory that the area covers, followed by
/// what the buffer held behind them. The PDU length decides how many
/// requests are sent and plays no part in the result.
pub proof fn lemma_read_is_transparent(
    area: Area,
    pdu_length: u16,
    memory: Seq<u8>,
    answers: Seq<Result<Seq<u8>, Error>>,
    buffer: Seq<u8>,
)
    requires
        buffer.len() >= area.spec_transfer_len(),
        memory.len() >= area.data_size().spec_byte_addr() + area.spec_transfer_len(),
        Transfer::begin(area, pdu_length, READ_REPLY_OVERHEAD) is Ok,
        served_from(memory, Transfer::begin(area, pdu_length, READ_REPLY_OVERHEAD)->Ok_0, answers),
        read_outcome(area, pdu_length, answers, buffer) is Some,
    ensures
        read_outcome(area, pdu_length, answers, buffer) == Some(
            (Ok::<(), Error>(()), patch(buffer, 0, image(memory, area))),
        ),
{
    let first = Transfer::begin(area, pdu_length, READ_REPLY_OVERHEAD)->Ok_0;
    lemma_served_read(first, memory, answers, buffer);
    let last = after_chunks(first, answers.len());
    lemma_after_chunks(first, answers.len());
    last.lemma_bounds();
    assert(memory.subrange(
        area.data_size().spec_byte_addr() as int,
        area.data_size().spec_byte_addr() + last.spec_offset(),
    ) =~= image(memory, area));
}

/// Reading the same area from the same memory gives the same bytes,
/// whether the PDU length forces many chunks or allows a single one.
pub proof fn lemma_chunking_is_idempotent(
    area: Area,
    memory: Seq<u8>,
    buffer: Seq<u8>,
    small_pdu_length: u16,
    small_answers: Seq<Result<Seq<u8>, Error>>,
    large_pdu_length: u16,
    large_answers: Seq<Result<Seq<u8>, Error>>,
)
    requires
        buffer.len() >= area.spec_transfer_len(),
        memory.len() >= area.data_size().spec_byte_addr() + area.spec_transfer_len(),
        Transfer::begin(area, small_pdu_length, READ_REPLY_OVERHEAD) is Ok,
        Transfer::begin(area, large_pdu_length, READ_REPLY_OVERHEAD) is Ok,
        served_from(
            memory,
            Transfer::begin(area, small_pdu_length, READ_REPLY_OVERHEAD)->Ok_0,
            small_answers,
        ),
        served_from(
            memory,
            Transfer::begin(area, large_pdu_length, READ_REPLY_OVERHEAD)->Ok_0,
            large_answers,
        ),
        read_outcome(area, small_pdu_length, small_answers, buffer) is Some,
        read_outcome(area, large_pdu_length, large_answers, buffer) is Some,
    ensures
        read_outcome(area, small_pdu_length, small_answers, buffer) == read_outcome(
            area,
            large_pdu_length,
            large_answers,
            buffer,
        ),
{
    lemma_read_is_transparent(area, small_pdu_length, memory, small_answers, buffer);
    lemma_read_is_transparent(area, large_pdu_length, memory, large_answers, buffer);
}

/// The payload that a write request carries behind its header.
pub open spec fn request_payload(request: Seq<u8>) -> Seq<u8> {
    request.subrange(SIZE_HEADER_WRITE as int, request.len() as int)
}

/// The memory of a controller after it stored the payload of the write
/// request of the next chunk of `transfer` from the chunk's byte address on.
pub open spec fn stored(memory: Seq<u8>, transfer: Transfer, buffer: Seq<u8>) -> Seq<u8> {
    patch(
        memory,
        transfer.spec_address() as int,
        request_payload(transfer.spec_write_request(buffer)),
    )
}

/// The memory of a controller after it stored the payloads of the first
/// `chunks` write requests of a write that starts at `first`.
pub open spec fn written(memory: Seq<u8>, first: Transfer, buffer: Seq<u8>, chunks: nat) -> Seq<u8>
    decreases chunks,
{
    if chunks == 0 {
        memory
    } else {
        stored(
            written(memory, first, buffer, (chunks - 1) as nat),
            after_chunks(first, (chunks - 1) as nat),
            buffer,
        )
    }
}

/// After any number of stored chunks the memory holds, where the area
/// starts, the bytes of the buffer that those chunks cover.
proof fn lemma_written(first: Transfer, memory: Seq<u8>, buffer: Seq<u8>, chunks: nat)
    requires
        first.wf(),
        first.done == 0,
        buffer.len() >= first.area.spec_transfer_len(),
        memory.len() >= first.area.data_size().spec_byte_addr() + first.area.spec_transfer_len(),
    ensures
        written(memory, first, buffer, chunks) == patch(
            memory,
            first.area.data_size().spec_byte_addr() as int,
            buffer.subrange(0, after_chunks(first, chunks).spec_offset() as int),
        ),
    decreases chunks,
{
    let start = first.area.data_size().spec_byte_addr() as int;
    first.lemma_bounds();
    if chunks == 0 {
        assert(patch(memory, start, buffer.subrange(0, first.spec_offset() as int)) =~= memory);
    } else {
        lemma_written(first, memory, buffer, (chunks - 1) as nat);
        let transfer = after_chunks(first, (chunks - 1) as nat);
        lemma_after_chunks(first, (chunks - 1) as nat);
        transfer.lemma_bounds();
        let offset = transfer.spec_offset() as int;
        let size = transfer.spec_size() as int;
        let done = buffer.subrange(0, offset);
        let share = transfer.share(buffer);
        assert(request_payload(transfer.spec_write_request(buffer)) == share) by {
            lemma_write_request_payload(
                transfer.spec_item(),
                transfer.area.spec_transport_size(),
                transfer.spec_payload_length(),
                share,
            );
        }
        assert(transfer.spec_address() == start + offset);
        assert(done + share =~= buffer.subrange(0, offset + size));
        lemma_patch_extends(memory, start, done, share);
    }
}

/// A controller that stores the payload of every request of a write holds
/// in the end, where the area lies, the bytes of the transfer as the
/// buffer has them, and everywhere else what it held before. The PDU
/// length decides how many requests are sent and plays no part in the
/// result.
pub proof fn lemma_write_is_transparent(
    area: Area,
    pdu_length: u16,
    memory: Seq<u8>,
    buffer: Seq<u8>,
    chunks: nat,
)
    requires
        buffer.len() >= area.spec_transfer_len(),
        memory.len() >= area.data_size().spec_byte_addr() + area.spec_transfer_len(),
        Transfer::begin(area, pdu_length, WRITE_REQUEST_OVERHEAD) is Ok,
        after_chunks(
            Transfer::begin(area, pdu_length, WRITE_REQUEST_OVERHEAD)->Ok_0,
            chunks,
        ).spec_is_complete(),
    ensures
        written(
            memory,
            Transfer::begin(area, pdu_length, WRITE_REQUEST_OVERHEAD)->Ok_0,
            buffer,
            chunks,
        ) == patch(
            memory,
            area.data_size().spec_byte_addr() as int,
            buffer.subrange(0, area.spec_transfer_len() as int),
        ),
{
    let first = Transfer::begin(area, pdu_length, WRITE_REQUEST_OVERHEAD)->Ok_0;
    lemma_written(first, memory, buffer, chunks);
    let last = after_chunks(first, chunks);
    lemma_after_chunks(first, chunks);
    last.lemma_bounds();
}

} // verus!
