//! Transfers: the buffers that travel, and what becomes of them.
use crate::ret::{kIOReturnSuccess, IOReturn};
use vstd::prelude::*;

verus! {

/// The direction of a transfer, seen from the host.
#[derive(Clone, Copy, Debug, PartialEq, Eq, Structural)]
pub enum Direction {
    /// From the host to the device.
    Out,
    /// From the device to the host.
    In,
}

impl Direction {
    /// The direction of the endpoint with this address.
    #[verifier::allow_in_spec]
    pub fn from_address(address: u8) -> Direction
        returns
            (if address >= 0x80 {
                Direction::In
            } else {
                Direction::Out
            }),
    {
        if address >= 0x80 {
            Direction::In
        } else {
            Direction::Out
        }
    }
}

/// Why a transfer failed.
#[derive(Clone, Copy, Debug, PartialEq, Eq, Structural)]
pub enum TransferError {
    /// The transfer was cancelled or timed out.
    Cancelled,
    /// The endpoint is halted.
    Stall,
    /// The device is gone.
    Disconnected,
    /// The hardware failed.
    Fault,
    /// The request makes no sense.
    InvalidArgument,
    /// Any other failure, with the system's code.
    Unknown(u32),
}

/// Memory for a transfer. What the memory is, the caller of the library knows.
#[derive(Debug, PartialEq, Eq)]
pub struct Buffer<B> {
    /// The memory itself.
    pub memory: B,
    /// How many bytes of the memory are filled: those that an OUT transfer sends.
    pub len: u32,
    /// How many bytes an IN transfer asks for.
    pub requested_len: u32,
}

impl<B> Buffer<B> {
    /// How many bytes a transfer of this buffer asks to move.
    pub open spec fn transfer_len(self, direction: Direction) -> u32 {
        match direction {
            Direction::Out => self.len,
            Direction::In => self.requested_len,
        }
    }
}

/// A transfer that has its buffer.
#[derive(Debug)]
pub struct Transfer<B> {
    /// By this number the system names the transfer when it completes.
    pub id: u64,
    /// The memory of the buffer.
    pub memory: B,
    /// How many bytes the transfer asks to move.
    pub requested_len: u32,
    /// How many bytes were moved.
    pub actual_len: u32,
    /// How the transfer ended.
    pub status: IOReturn,
    /// Whether the transfer has ended.
    pub complete: bool,
}

/// What a transfer gives back when it is over.
#[derive(Debug)]
pub struct Completion<B> {
    /// The buffer that was submitted.
    pub buffer: Buffer<B>,
    /// How many bytes were moved.
    pub actual_len: u32,
    /// How the transfer ended.
    pub status: IOReturn,
}

/// The transfer numbered `id` with `buffer` put into it.
pub open spec fn new_transfer<B>(id: u64, buffer: Buffer<B>, direction: Direction) -> Transfer<B> {
    Transfer {
        id,
        memory: buffer.memory,
        requested_len: buffer.transfer_len(direction),
        actual_len: 0,
        status: kIOReturnSuccess,
        complete: false,
    }
}

/// The transfer after the system reported that it ended.
pub open spec fn completed<B>(transfer: Transfer<B>, result: IOReturn, len: u32) -> Transfer<B> {
    Transfer { actual_len: len, status: result, complete: true, ..transfer }
}

/// The transfer after it was handed to the system, which returned `result`.
///
/// A transfer that the system did not take is over at once.
pub open spec fn submitted<B>(transfer: Transfer<B>, result: IOReturn) -> Transfer<B> {
    if result == kIOReturnSuccess {
        transfer
    } else {
        Transfer { status: result, complete: true, ..transfer }
    }
}

/// What the transfer gives back.
pub open spec fn completion_of<B>(transfer: Transfer<B>, direction: Direction) -> Completion<B> {
    Completion {
        buffer: Buffer {
            memory: transfer.memory,
            len: match direction {
                Direction::Out => transfer.requested_len,
                Direction::In => transfer.actual_len,
            },
            requested_len: transfer.requested_len,
        },
        actual_len: transfer.actual_len,
        status: transfer.status,
    }
}

impl<B> Transfer<B> {
    /// The transfer numbered `id` with `buffer` put into it.
    pub fn new(id: u64, buffer: Buffer<B>, direction: Direction) -> (r: Transfer<B>)
        ensures
            r == new_transfer(id, buffer, direction),
            r.id == id,
            r.memory == buffer.memory,
            direction == Direction::Out ==> r.requested_len == buffer.len,
            direction == Direction::In ==> r.requested_len == buffer.requested_len,
            r.actual_len == 0,
            r.status == 0,
            !r.complete,
    {
        let requested_len: u32 = match direction {
            Direction::Out => buffer.len,
            Direction::In => buffer.requested_len,
        };
        Transfer {
            id,
            memory: buffer.memory,
            requested_len,
            actual_len: 0,
            status: kIOReturnSuccess,
            complete: false,
        }
    }

    /// Records what handing the transfer to the system returned.
    pub fn submit(&mut self, result: IOReturn)
        ensures
            *final(self) == submitted(*old(self), result),
            final(self).id == old(self).id,
            final(self).memory == old(self).memory,
            final(self).requested_len == old(self).requested_len,
            final(self).actual_len == old(self).actual_len,
            result == 0 ==> *final(self) == *old(self),
            result != 0 ==> final(self).complete && final(self).status == result,
    {
        if result != kIOReturnSuccess {
            self.status = result;
            self.complete = true;
        }
    }

    /// Takes the buffer out of a transfer that is over.
    pub fn take_completion(self, direction: Direction) -> (r: Completion<B>)
        ensures
            r == completion_of(self, direction),
            r.buffer.memory == self.memory,
            r.buffer.requested_len == self.requested_len,
            direction == Direction::Out ==> r.buffer.len == self.requested_len,
            direction == Direction::In ==> r.buffer.len == self.actual_len,
            r.actual_len == self.actual_len,
            r.status == self.status,
    {
        let len: u32 = match direction {
            Direction::Out => self.requested_len,
            Direction::In => self.actual_len,
        };
        Completion {
            buffer: Buffer { memory: self.memory, len, requested_len: self.requested_len },
            actual_len: self.actual_len,
            status: self.status,
        }
    }
}

/// Records that the system reported the end of the transfer.
pub fn transfer_callback<B>(transfer: &mut Transfer<B>, result: IOReturn, len: u32)
    ensures
        *final(transfer) == completed(*old(transfer), result, len),
        final(transfer).id == old(transfer).id,
        final(transfer).memory == old(transfer).memory,
        final(transfer).requested_len == old(transfer).requested_len,
        final(transfer).actual_len == len,
        final(transfer).status == result,
        final(transfer).complete,
{
    transfer.actual_len = len;
    transfer.status = result;
    transfer.complete = true;
}

/// A transfer gives back the memory that was put into it. An OUT buffer comes back as long as it
/// was, an IN buffer as long as what was moved into it.
pub proof fn law_completion_returns_the_buffer<B>(
    id: u64,
    buffer: Buffer<B>,
    direction: Direction,
    result: IOReturn,
    len: u32,
)
    ensures
        ({
            let transfer = completed(new_transfer(id, buffer, direction), result, len);
            let completion = completion_of(transfer, direction);
            &&& completion.buffer.memory == buffer.memory
            &&& completion.buffer.requested_len == buffer.transfer_len(direction)
            &&& direction == Direction::Out ==> completion.buffer.requested_len == buffer.len
            &&& direction == Direction::In ==> completion.buffer.requested_len
                == buffer.requested_len
            &&& completion.status == result
            &&& completion.actual_len == len
            &&& direction == Direction::Out ==> completion.buffer.len == buffer.len
            &&& direction == Direction::In ==> completion.buffer.len == len
        }),
{
}

/// The top bit of an address is the direction, and nothing else of the address is.
pub proof fn law_top_bit_is_the_direction(address: u8)
    ensures
        Direction::from_address(address) == Direction::In <==> address / 0x80 == 1,
        Direction::from_address(address) == Direction::Out <==> address / 0x80 == 0,
{
}

/// A transfer that was just made is open: nothing was moved yet. It has the memory of its buffer,
/// and asks to move what an OUT buffer holds, or what an IN buffer is to be filled with.
pub proof fn law_new_transfer_is_open<B>(id: u64, buffer: Buffer<B>, direction: Direction)
    ensures
        ({
            let transfer = new_transfer(id, buffer, direction);
            &&& transfer.id == id
            &&& transfer.memory == buffer.memory
            &&& direction == Direction::Out ==> transfer.requested_len == buffer.len
            &&& direction == Direction::In ==> transfer.requested_len == buffer.requested_len
            &&& transfer.actual_len == 0
            &&& transfer.status == 0
            &&& !transfer.complete
        }),
{
}

/// What becomes of a transfer says nothing of what it is: its number, its memory and what it asks
/// to move stay. A transfer that the system takes is as before, one that it refuses is over with
/// the system's code, and one whose end the system reports is over with what the report says.
pub proof fn law_transfer_ends_as_reported<B>(
    transfer: Transfer<B>,
    result: IOReturn,
    len: u32,
)
    ensures
        submitted(transfer, 0) == transfer,
        result != 0 ==> submitted(transfer, result).complete && submitted(transfer, result).status
            == result,
        submitted(transfer, result).id == transfer.id,
        submitted(transfer, result).memory == transfer.memory,
        submitted(transfer, result).requested_len == transfer.requested_len,
        submitted(transfer, result).actual_len == transfer.actual_len,
        completed(transfer, result, len).complete,
        completed(transfer, result, len).status == result,
        completed(transfer, result, len).actual_len == len,
        completed(transfer, result, len).id == transfer.id,
        completed(transfer, result, len).memory == transfer.memory,
        completed(transfer, result, len).requested_len == transfer.requested_len,
{
}

/// What a transfer gives back is what it holds: its memory, how it ended and how much was moved,
/// and a buffer that is filled as far as it was sent, or as far as was moved into it.
pub proof fn law_completion_tells_how_it_ended<B>(transfer: Transfer<B>)
    ensures
        forall|direction: Direction|
            {
                let completion = #[trigger] completion_of(transfer, direction);
                &&& completion.buffer.memory == transfer.memory
                &&& completion.buffer.requested_len == transfer.requested_len
                &&& completion.actual_len == transfer.actual_len
                &&& completion.status == transfer.status
            },
        completion_of(transfer, Direction::Out).buffer.len == transfer.requested_len,
        completion_of(transfer, Direction::In).buffer.len == transfer.actual_len,
{
}

} // verus!
