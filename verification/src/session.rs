//! The rules of a device session that need no device: the bus mode it is
//! configured with, the buffer a read starts from, and what a read delivers
//! once the bus has answered.

use vstd::prelude::*;
use crate::error::{ErrorKind, PollError};

verus! {

/// Clock polarity and clock phase of the bus.
#[derive(Clone, Copy, Debug, PartialEq, Eq, Structural)]
pub struct BusMode {
    /// The clock idles high.
    pub clock_polarity: bool,
    /// Data is sampled on the trailing clock edge.
    pub clock_phase: bool,
}

impl BusMode {
    /// The mode as the driver numbers it: phase is bit 0, polarity bit 1.
    pub open spec fn number(self) -> int {
        (if self.clock_polarity {
            2int
        } else {
            0int
        }) + (if self.clock_phase {
            1int
        } else {
            0int
        })
    }

    /// The one mode every session is configured with: the clock idles low and
    /// data is sampled on the trailing edge.
    pub open spec fn session_mode() -> BusMode {
        BusMode { clock_polarity: false, clock_phase: true }
    }

    /// The mode every session is configured with.
    pub fn session() -> (mode: BusMode)
        ensures
            mode == BusMode::session_mode(),
            mode.number() == 1,
    {
        BusMode { clock_polarity: false, clock_phase: true }
    }

    /// The mode as the driver numbers it.
    pub fn bits(self) -> (bits: u32)
        ensures
            bits == self.number(),
    {
        let polarity: u32 = if self.clock_polarity { 2 } else { 0 };
        let phase: u32 = if self.clock_phase { 1 } else { 0 };
        polarity + phase
    }
}

/// The byte a read buffer holds at offset `i` before the bus is asked.
pub open spec fn seed_byte(i: int) -> u8 {
    (i % 256) as u8
}

/// The buffer of `n` bytes a read starts from: offset `i` holds `i mod 256`.
pub open spec fn seeded(n: nat) -> Seq<u8> {
    Seq::new(n, |i: int| seed_byte(i))
}

/// What a read delivers: the first `count` bytes of the buffer as the bus left it.
pub open spec fn delivered(buffer: Seq<u8>, count: nat) -> Seq<u8> {
    buffer.subrange(0, count as int)
}

/// What came back from one bus transaction: the buffer as the driver left it
/// and the number of bytes it reports to have transferred.
#[derive(Clone, Debug, PartialEq, Eq)]
pub struct Transfer {
    /// The read buffer after the transaction.
    pub buffer: Vec<u8>,
    /// The transferred byte count the driver reported.
    pub count: usize,
}

/// A finished transaction with its buffer as a sequence of bytes.
pub struct TransferView {
    pub buffer: Seq<u8>,
    pub count: nat,
}

impl TransferView {
    /// The driver never reports more bytes than the buffer holds.
    pub open spec fn wf(self) -> bool {
        self.count <= self.buffer.len()
    }
}

impl View for Transfer {
    type V = TransferView;

    open spec fn view(&self) -> TransferView {
        TransferView { buffer: self.buffer@, count: self.count as nat }
    }
}

impl Transfer {
    /// The driver never reports more bytes than the buffer holds.
    pub open spec fn wf(self) -> bool {
        self@.wf()
    }

    /// Whether the reported count fits the buffer.
    pub fn is_wf(&self) -> (ok: bool)
        ensures
            ok == self.wf(),
    {
        self.count <= self.buffer.len()
    }
}

/// The result of one read: the bytes the bus returned, kept apart from the
/// number of bytes that were asked for.
#[derive(Clone, Debug, PartialEq, Eq)]
pub struct ReadResult {
    /// The requested byte count.
    pub requested: usize,
    /// The bytes the transaction returned, in order.
    pub bytes: Vec<u8>,
}

impl ReadResult {
    /// A result never holds more bytes than were requested.
    pub open spec fn wf(self) -> bool {
        self.bytes@.len() <= self.requested
    }
}

/// Allocates the buffer for a read of `n` bytes and seeds it, so that
/// whatever the driver leaves untouched is still recognisable.
pub fn seed_buffer(n: usize) -> (buffer: Vec<u8>)
    ensures
        buffer@ == seeded(n as nat),
{
    let mut buffer: Vec<u8> = Vec::new();
    let mut i: usize = 0;
    while i < n
        invariant
            i <= n,
            buffer@ == seeded(i as nat),
        decreases n - i,
    {
        buffer.push((i % 256) as u8);
        i += 1;
    }
    buffer
}

/// Turns a finished transaction into the read's result: the whole buffer when
/// the driver filled it, else the bytes it did transfer, cut from the front.
pub fn complete_read(transfer: Transfer) -> (result: ReadResult)
    requires
        transfer.wf(),
    ensures
        result.wf(),
        result.requested == transfer.buffer@.len(),
        result.bytes@ == delivered(transfer.buffer@, transfer.count as nat),
        transfer.count == transfer.buffer@.len() ==> result.bytes@ == transfer.buffer@,
        result.bytes@.len() == transfer.count,
{
    let Transfer { buffer, count } = transfer;
    let requested = buffer.len();
    let mut bytes = buffer;
    if count < requested {
        bytes.truncate(count);
    }
    ReadResult { requested, bytes }
}

/// The outcome of a read, given what the driver answered: its error becomes a
/// read failure, anything else the read's result.
pub fn finish_read(answer: Result<Transfer, String>) -> (outcome: Result<ReadResult, PollError>)
    requires
        answer matches Ok(transfer) ==> transfer.wf(),
    ensures
        match answer {
            Ok(transfer) => outcome matches Ok(result) && result.wf()
                && result.requested == transfer.buffer@.len()
                && result.bytes@ == delivered(transfer.buffer@, transfer.count as nat),
            Err(detail) => outcome == Err::<ReadResult, PollError>(
                PollError { kind: ErrorKind::ReadFailed, detail },
            ),
        },
{
    match answer {
        Ok(transfer) => Ok(complete_read(transfer)),
        Err(detail) => Err(PollError { kind: ErrorKind::ReadFailed, detail }),
    }
}

/// A read never returns more than was asked for.
pub proof fn lemma_delivered_is_bounded(buffer: Seq<u8>, count: nat)
    requires
        count <= buffer.len(),
    ensures
        delivered(buffer, count).len() == count,
        delivered(buffer, count).len() <= buffer.len(),
{
}

/// When the driver reports the full count, the read returns the whole buffer.
pub proof fn lemma_full_read_is_whole_buffer(buffer: Seq<u8>)
    ensures
        delivered(buffer, buffer.len()) == buffer,
{
}

/// A short read returns exactly the reported number of bytes, and they are
/// the front of the buffer: none of the untouched tail comes with them.
pub proof fn lemma_short_read_is_front(buffer: Seq<u8>, count: nat)
    requires
        count < buffer.len(),
    ensures
        delivered(buffer, count).len() == count,
        forall|i: int| 0 <= i < count ==> delivered(buffer, count)[i] == buffer[i],
        delivered(buffer, count) + buffer.subrange(count as int, buffer.len() as int) == buffer,
{
}

/// A read of no bytes starts from an empty buffer and delivers nothing.
pub proof fn lemma_empty_read()
    ensures
        seeded(0) == Seq::<u8>::empty(),
        delivered(seeded(0), 0) == Seq::<u8>::empty(),
{
}

} // verus!
