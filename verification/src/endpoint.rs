//! The transfers of an endpoint.
//!
//! An endpoint moves its transfers in the order in which they were submitted, and hands them back
//! in that order.
use crate::error::{iokit_error, Error};
use crate::ret::{kIOReturnBadArgument, kIOReturnSuccess, IOReturn};
use crate::step::Next;
use crate::transfer::{
    completed, completion_of, new_transfer, submitted, transfer_callback, Buffer, Completion,
    Direction, Transfer, TransferError,
};
use std::collections::VecDeque;
use vstd::prelude::*;

verus! {

/// An endpoint in use.
#[derive(Debug)]
pub struct MacEndpoint<B> {
    /// The number by which the interface knows the endpoint.
    pub pipe_ref: u8,
    /// The address of the endpoint, direction bit included.
    pub address: u8,
    /// The largest packet that the endpoint takes or gives.
    pub max_packet_size: usize,
    /// The transfers that were submitted and not handed back, oldest first.
    pub pending: VecDeque<Transfer<B>>,
    /// The number of a transfer that is over and can be used again.
    pub idle_transfer: Option<u64>,
}

/// What an endpoint is.
#[verifier::ext_equal]
pub struct EndpointView<B> {
    pub pipe_ref: u8,
    pub address: u8,
    pub max_packet_size: usize,
    pub pending: Seq<Transfer<B>>,
    pub idle_transfer: Option<u64>,
}

impl<B> View for MacEndpoint<B> {
    type V = EndpointView<B>;

    open spec fn view(&self) -> EndpointView<B> {
        EndpointView {
            pipe_ref: self.pipe_ref,
            address: self.address,
            max_packet_size: self.max_packet_size,
            pending: self.pending@,
            idle_transfer: self.idle_transfer,
        }
    }
}

impl<B> EndpointView<B> {
    /// The direction of the endpoint.
    pub open spec fn direction(self) -> Direction {
        Direction::from_address(self.address)
    }

    /// Whether the transfer numbered `id` is pending.
    pub open spec fn is_pending(self, id: u64) -> bool {
        exists|i: int| 0 <= i < self.pending.len() && (#[trigger] self.pending[i]).id == id
    }

    /// Whether each pending transfer has a number of its own, which the idle transfer does not
    /// have either.
    pub open spec fn wf(self) -> bool {
        &&& forall|i: int, j: int|
            0 <= i < j < self.pending.len() ==> (#[trigger] self.pending[i]).id != (
            #[trigger] self.pending[j]).id
        &&& self.idle_transfer matches Some(id) ==> !self.is_pending(id)
    }

    /// Whether `id` can number a new transfer.
    pub open spec fn is_unused(self, id: u64) -> bool {
        !self.is_pending(id) && self.idle_transfer != Some(id)
    }

    /// The number of the next transfer: that of the idle transfer, or `fresh` where there is none.
    pub open spec fn next_id(self, fresh: u64) -> u64 {
        match self.idle_transfer {
            Some(id) => id,
            None => fresh,
        }
    }

    /// Whether `index` is the place of the first pending transfer that is numbered `id` and has
    /// not ended.
    pub open spec fn is_open_transfer(self, id: u64, index: int) -> bool {
        &&& 0 <= index < self.pending.len()
        &&& self.pending[index].id == id
        &&& !self.pending[index].complete
        &&& forall|i: int|
            0 <= i < index ==> (#[trigger] self.pending[i]).id != id || self.pending[i].complete
    }

    /// Whether a pending transfer is numbered `id` and has not ended.
    pub open spec fn has_open_transfer(self, id: u64) -> bool {
        exists|index: int| self.is_open_transfer(id, index)
    }

    /// The endpoint after the transfer at `index` ended.
    pub open spec fn with_completed(self, index: int, result: IOReturn, len: u32) -> EndpointView<
        B,
    > {
        EndpointView {
            pending: self.pending.update(index, completed(self.pending[index], result, len)),
            ..self
        }
    }

    /// The endpoint with one more pending transfer.
    pub open spec fn with_pending(self, transfer: Transfer<B>) -> EndpointView<B> {
        EndpointView { pending: self.pending.push(transfer), ..self }
    }

    /// The endpoint without an idle transfer.
    pub open spec fn without_idle(self) -> EndpointView<B> {
        EndpointView { idle_transfer: None, ..self }
    }

    /// Whether the oldest pending transfer has ended.
    pub open spec fn front_complete(self) -> bool {
        self.pending.len() > 0 && self.pending[0].complete
    }

    /// The endpoint after it handed back its oldest transfer, which can then be used again.
    pub open spec fn without_front(self) -> EndpointView<B> {
        EndpointView {
            pending: self.pending.skip(1),
            idle_transfer: Some(self.pending[0].id),
            ..self
        }
    }

    /// What the endpoint hands back next, where its oldest transfer has ended.
    pub open spec fn front_completion(self) -> Option<Completion<B>> {
        if self.front_complete() {
            Some(completion_of(self.pending[0], self.direction()))
        } else {
            None
        }
    }

    /// The endpoint after it handed back what there is to hand back.
    pub open spec fn polled(self) -> EndpointView<B> {
        if self.front_complete() {
            self.without_front()
        } else {
            self
        }
    }
}

/// A call that moves data through a pipe.
#[derive(Clone, Copy, Debug, PartialEq, Eq, Structural)]
pub enum PipeCall {
    /// Write this many bytes to the pipe.
    Write { pipe_ref: u8, len: u32 },
    /// Read this many bytes from the pipe.
    Read { pipe_ref: u8, len: u32 },
}

impl<B> MacEndpoint<B> {
    /// Whether each transfer has a number of its own.
    pub open spec fn wf(self) -> bool {
        self@.wf()
    }

    /// The address of the endpoint, direction bit included.
    pub fn endpoint_address(&self) -> (r: u8)
        ensures
            r == self@.address,
            r == self.address,
    {
        self.address
    }

    /// How many transfers were submitted and not handed back.
    pub fn pending(&self) -> (r: usize)
        ensures
            r == self@.pending.len(),
            r == self.pending@.len(),
    {
        self.pending.len()
    }

    /// The pipe on which all pending transfers are to be aborted.
    pub fn cancel_all(&self) -> (r: u8)
        ensures
            r == self@.pipe_ref,
            r == self.pipe_ref,
    {
        self.pipe_ref
    }

    /// Puts `buffer` into the idle transfer, or into a new one numbered `fresh` where there is
    /// none.
    pub fn make_transfer(&mut self, buffer: Buffer<B>, fresh: u64) -> (r: Transfer<B>)
        ensures
            r == new_transfer(old(self)@.next_id(fresh), buffer, old(self)@.direction()),
            final(self)@ == old(self)@.without_idle(),
            match old(self).idle_transfer {
                Some(id) => r.id == id,
                None => r.id == fresh,
            },
            r.memory == buffer.memory,
            old(self).address < 0x80 ==> r.requested_len == buffer.len,
            old(self).address >= 0x80 ==> r.requested_len == buffer.requested_len,
            r.actual_len == 0,
            r.status == 0,
            !r.complete,
            final(self).idle_transfer is None,
            final(self).pending@ == old(self).pending@,
            final(self).pipe_ref == old(self).pipe_ref,
            final(self).address == old(self).address,
            final(self).max_packet_size == old(self).max_packet_size,
            old(self).wf() && (old(self)@.idle_transfer is Some || old(self)@.is_unused(fresh))
                ==> final(self).wf() && final(self)@.is_unused(r.id),
    {
        let id: u64 = match self.idle_transfer {
            Some(id) => id,
            None => fresh,
        };
        self.idle_transfer = None;
        assert(self@.pending == old(self)@.pending);
        assert(self@.is_pending(id) == old(self)@.is_pending(id));
        Transfer::new(id, buffer, Direction::from_address(self.address))
    }

    /// The call by which `transfer` is handed to the system.
    pub fn pipe_call(&self, transfer: &Transfer<B>) -> (r: PipeCall)
        ensures
            r == (match self@.direction() {
                Direction::Out => PipeCall::Write {
                    pipe_ref: self@.pipe_ref,
                    len: transfer.requested_len,
                },
                Direction::In => PipeCall::Read {
                    pipe_ref: self@.pipe_ref,
                    len: transfer.requested_len,
                },
            }),
            self.address < 0x80 ==> r == (PipeCall::Write {
                pipe_ref: self.pipe_ref,
                len: transfer.requested_len,
            }),
            self.address >= 0x80 ==> r == (PipeCall::Read {
                pipe_ref: self.pipe_ref,
                len: transfer.requested_len,
            }),
    {
        match Direction::from_address(self.address) {
            Direction::Out => PipeCall::Write {
                pipe_ref: self.pipe_ref,
                len: transfer.requested_len,
            },
            Direction::In => PipeCall::Read {
                pipe_ref: self.pipe_ref,
                len: transfer.requested_len,
            },
        }
    }

    /// Queues a transfer that was handed to the system, which returned `result`.
    ///
    /// A transfer that the system did not take is over at once, with the system's code. It is
    /// handed back in its turn, like any other.
    pub fn submit(&mut self, transfer: Transfer<B>, result: IOReturn)
        ensures
            final(self)@ == old(self)@.with_pending(submitted(transfer, result)),
            final(self).pending@.len() == old(self).pending@.len() + 1,
            final(self).pending@.drop_last() == old(self).pending@,
            ({
                let last = final(self).pending@.last();
                &&& last.id == transfer.id
                &&& last.memory == transfer.memory
                &&& last.requested_len == transfer.requested_len
                &&& last.actual_len == transfer.actual_len
                &&& result == 0 ==> last == transfer
                &&& result != 0 ==> last.complete && last.status == result
            }),
            final(self).idle_transfer == old(self).idle_transfer,
            final(self).pipe_ref == old(self).pipe_ref,
            final(self).address == old(self).address,
            final(self).max_packet_size == old(self).max_packet_size,
            old(self).wf() && old(self)@.is_unused(transfer.id) ==> final(self).wf(),
    {
        let mut transfer = transfer;
        transfer.submit(result);
        self.pending.push_back(transfer);
        assert(self@.pending == old(self)@.pending.push(transfer));
        proof {
            lemma_push_keeps_wf(old(self)@, transfer);
        }
    }

    /// Queues a transfer that is over before it began, because its buffer does not fit the
    /// endpoint.
    pub fn submit_err(&mut self, buffer: Buffer<B>, fresh: u64, err: TransferError)
        requires
            err == TransferError::InvalidArgument,
        ensures
            final(self)@ == old(self)@.without_idle().with_pending(
                submitted(
                    new_transfer(old(self)@.next_id(fresh), buffer, old(self)@.direction()),
                    kIOReturnBadArgument,
                ),
            ),
            final(self).pending@.len() == old(self).pending@.len() + 1,
            final(self).pending@.drop_last() == old(self).pending@,
            ({
                let last = final(self).pending@.last();
                &&& match old(self).idle_transfer {
                    Some(id) => last.id == id,
                    None => last.id == fresh,
                }
                &&& last.memory == buffer.memory
                &&& old(self).address < 0x80 ==> last.requested_len == buffer.len
                &&& old(self).address >= 0x80 ==> last.requested_len == buffer.requested_len
                &&& last.actual_len == 0
                &&& last.complete
                &&& last.status + 0x2000_0000 == 0x2c2
            }),
            final(self).idle_transfer is None,
            final(self).pipe_ref == old(self).pipe_ref,
            final(self).address == old(self).address,
            final(self).max_packet_size == old(self).max_packet_size,
            old(self).wf() && (old(self)@.idle_transfer is Some || old(self)@.is_unused(fresh))
                ==> final(self).wf(),
    {
        let transfer = self.make_transfer(buffer, fresh);
        self.submit(transfer, kIOReturnBadArgument);
    }

    /// Records that the system reported the end of the transfer numbered `id`. Returns whether
    /// there was such a transfer to end.
    pub fn complete_transfer(&mut self, id: u64, result: IOReturn, len: u32) -> (r: bool)
        ensures
            r == old(self)@.has_open_transfer(id),
            !r ==> final(self)@ == old(self)@,
            forall|index: int| #[trigger]
                old(self)@.is_open_transfer(id, index) ==> final(self)@
                    == old(self)@.with_completed(index, result, len),
            r <==> exists|i: int|
                0 <= i < old(self).pending@.len() && (#[trigger] old(self).pending@[i]).id == id
                    && !old(self).pending@[i].complete,
            final(self).pending@.len() == old(self).pending@.len(),
            forall|i: int|
                0 <= i < old(self).pending@.len() ==> {
                    let before = #[trigger] old(self).pending@[i];
                    let after = final(self).pending@[i];
                    &&& after.id == before.id
                    &&& after.memory == before.memory
                    &&& after.requested_len == before.requested_len
                    &&& after != before ==> before.id == id && !before.complete && after.complete
                        && after.actual_len == len && after.status == result
                },
            forall|i: int|
                0 <= i < old(self).pending@.len() && (#[trigger] old(self).pending@[i]).id == id
                    && !old(self).pending@[i].complete && (forall|j: int|
                    0 <= j < i ==> (#[trigger] old(self).pending@[j]).id != id
                        || old(self).pending@[j].complete) ==> final(self).pending@[i].complete
                    && final(self).pending@[i].actual_len == len && final(self).pending@[i].status
                    == result,
            final(self).idle_transfer == old(self).idle_transfer,
            final(self).pipe_ref == old(self).pipe_ref,
            final(self).address == old(self).address,
            final(self).max_packet_size == old(self).max_packet_size,
            old(self).wf() ==> final(self).wf(),
    {
        let mut index: usize = 0;
        while index < self.pending.len()
            invariant
                self@ == old(self)@,
                index <= self@.pending.len(),
                forall|i: int|
                    0 <= i < index ==> (#[trigger] self@.pending[i]).id != id
                        || self@.pending[i].complete,
            decreases self@.pending.len() - index,
        {
            if self.pending[index].id == id && !self.pending[index].complete {
                assert(old(self)@.is_open_transfer(id, index as int));
                match self.pending.remove(index) {
                    Some(transfer) => {
                        let mut transfer = transfer;
                        transfer_callback(&mut transfer, result, len);
                        self.pending.insert(index, transfer);
                        proof {
                            assert(self@ == old(self)@.with_completed(index as int, result, len));
                            lemma_completed_keeps_wf(old(self)@, index as int, result, len);
                            assert forall|other: int| #[trigger]
                                old(self)@.is_open_transfer(id, other) implies other == index by {
                                if other < index {
                                    assert(self@.pending[other].id != id
                                        || self@.pending[other].complete);
                                } else if index < other {
                                    assert(old(self)@.pending[index as int].id != id);
                                }
                            }
                        }
                        return true;
                    },
                    None => {},
                }
            }
            index = index + 1;
        }
        proof {
            assert forall|other: int| !#[trigger] old(self)@.is_open_transfer(id, other) by {
                if 0 <= other < old(self)@.pending.len() {
                    assert(old(self)@.pending[other].id != id || old(self)@.pending[other].complete);
                }
            }
        }
        false
    }

    /// Hands back the oldest transfer, where it has ended.
    pub fn poll_next_complete(&mut self) -> (r: Option<Completion<B>>)
        ensures
            r == old(self)@.front_completion(),
            final(self)@ == old(self)@.polled(),
            r is Some <==> old(self).pending@.len() > 0 && old(self).pending@[0].complete,
            r matches Some(completion) ==> {
                let ended = old(self).pending@[0];
                &&& completion.buffer.memory == ended.memory
                &&& completion.buffer.requested_len == ended.requested_len
                &&& old(self).address < 0x80 ==> completion.buffer.len == ended.requested_len
                &&& old(self).address >= 0x80 ==> completion.buffer.len == ended.actual_len
                &&& completion.actual_len == ended.actual_len
                &&& completion.status == ended.status
                &&& final(self).pending@ == old(self).pending@.skip(1)
                &&& final(self).idle_transfer == Some(ended.id)
            },
            r is None ==> *final(self) == *old(self),
            final(self).pipe_ref == old(self).pipe_ref,
            final(self).address == old(self).address,
            final(self).max_packet_size == old(self).max_packet_size,
            old(self).wf() ==> final(self).wf(),
    {
        if self.pending.len() == 0 || !self.pending[0].complete {
            return None;
        }
        match self.pending.pop_front() {
            Some(transfer) => {
                self.idle_transfer = Some(transfer.id);
                proof {
                    assert(self@ == old(self)@.without_front());
                    lemma_front_keeps_wf(old(self)@);
                }
                Some(transfer.take_completion(Direction::from_address(self.address)))
            },
            None => None,
        }
    }

    /// Goes on waiting for the oldest transfer: hands it back, where it has ended, gives up,
    /// where the time is over, and asks to wait for the next event otherwise.
    pub fn wait_next_complete(&mut self, time_over: bool) -> (r: Next<(), Option<Completion<B>>>)
        ensures
            r == (if old(self)@.front_complete() || time_over {
                Next::<(), Option<Completion<B>>>::Done(old(self)@.front_completion())
            } else {
                Next::Ask(())
            }),
            final(self)@ == old(self)@.polled(),
            r is Ask <==> !time_over && (old(self).pending@.len() == 0
                || !old(self).pending@[0].complete),
            r matches Next::Done(done) ==> (done is Some <==> old(self).pending@.len() > 0
                && old(self).pending@[0].complete),
            r matches Next::Done(Some(completion)) ==> {
                let ended = old(self).pending@[0];
                &&& completion.buffer.memory == ended.memory
                &&& completion.buffer.requested_len == ended.requested_len
                &&& old(self).address < 0x80 ==> completion.buffer.len == ended.requested_len
                &&& old(self).address >= 0x80 ==> completion.buffer.len == ended.actual_len
                &&& completion.actual_len == ended.actual_len
                &&& completion.status == ended.status
                &&& final(self).pending@ == old(self).pending@.skip(1)
                &&& final(self).idle_transfer == Some(ended.id)
            },
            !(r matches Next::Done(Some(_))) ==> *final(self) == *old(self),
            final(self).pipe_ref == old(self).pipe_ref,
            final(self).address == old(self).address,
            final(self).max_packet_size == old(self).max_packet_size,
            old(self).wf() ==> final(self).wf(),
    {
        match self.poll_next_complete() {
            Some(completion) => Next::Done(Some(completion)),
            None => if time_over {
                Next::Done(None)
            } else {
                Next::Ask(())
            },
        }
    }

    /// The pipe both ends of which are to be cleared of a halt.
    pub fn clear_halt_pipe(&self) -> (r: u8)
        ensures
            r == self@.pipe_ref,
            r == self.pipe_ref,
    {
        self.pipe_ref
    }

    /// The result of clearing the halt of the endpoint, given what the system returned.
    pub fn clear_halt(&self, result: Result<(), IOReturn>) -> (r: Result<(), Error>)
        ensures
            r == (match result {
                Ok(_) => Ok::<(), Error>(()),
                Err(code) => Err(iokit_error(code, "failed to clear halt on endpoint")),
            }),
            r is Ok <==> result is Ok,
            result matches Err(code) ==> (r matches Err(error) && error.code == Some(code)),
    {
        match result {
            Ok(_) => Ok(()),
            Err(code) => Err(iokit_error(code, "failed to clear halt on endpoint")),
        }
    }

    /// Whether transfers have to be cancelled when the endpoint goes away.
    pub fn needs_cancel(&self) -> (r: bool)
        ensures
            r == (self@.pending.len() > 0),
            r <==> self.pending@.len() != 0,
    {
        self.pending.len() > 0
    }
}

proof fn lemma_push_keeps_wf<B>(endpoint: EndpointView<B>, transfer: Transfer<B>)
    ensures
        endpoint.wf() && endpoint.is_unused(transfer.id) ==> endpoint.with_pending(transfer).wf(),
{
    let after = endpoint.with_pending(transfer);
    if endpoint.wf() && endpoint.is_unused(transfer.id) {
        assert forall|i: int, j: int| 0 <= i < j < after.pending.len() implies (
        #[trigger] after.pending[i]).id != (#[trigger] after.pending[j]).id by {
            assert(after.pending[i] == endpoint.pending[i]);
            if j < endpoint.pending.len() {
                assert(after.pending[j] == endpoint.pending[j]);
            }
        }
        if after.idle_transfer is Some && after.is_pending(after.idle_transfer->0) {
            let i = choose|i: int|
                0 <= i < after.pending.len() && (#[trigger] after.pending[i]).id
                    == after.idle_transfer->0;
            if i < endpoint.pending.len() {
                assert(after.pending[i] == endpoint.pending[i]);
            }
        }
    }
}

proof fn lemma_completed_keeps_wf<B>(
    endpoint: EndpointView<B>,
    index: int,
    result: IOReturn,
    len: u32,
)
    requires
        0 <= index < endpoint.pending.len(),
    ensures
        endpoint.wf() ==> endpoint.with_completed(index, result, len).wf(),
{
    let after = endpoint.with_completed(index, result, len);
    assert(forall|i: int|
        0 <= i < after.pending.len() ==> (#[trigger] after.pending[i]).id
            == endpoint.pending[i].id);
}

proof fn lemma_front_keeps_wf<B>(endpoint: EndpointView<B>)
    requires
        endpoint.pending.len() > 0,
    ensures
        endpoint.wf() ==> endpoint.without_front().wf(),
{
    let after = endpoint.without_front();
    assert(forall|i: int|
        0 <= i < after.pending.len() ==> (#[trigger] after.pending[i]) == endpoint.pending[i + 1]);
}

/// What can happen to the transfers of an endpoint.
pub enum EndpointEvent<B> {
    /// A buffer is put into a transfer, numbered `fresh` where it is a new one, and handed to the
    /// system, which returns `result`.
    Submit { buffer: Buffer<B>, fresh: u64, result: IOReturn },
    /// The system reports the end of the transfer numbered `id`.
    Complete { id: u64, result: IOReturn, len: u32 },
    /// The endpoint is asked for the next transfer that is over.
    Poll,
}

/// The endpoint after `event`.
pub open spec fn endpoint_after<B>(
    endpoint: EndpointView<B>,
    event: EndpointEvent<B>,
) -> EndpointView<B> {
    match event {
        EndpointEvent::Submit { buffer, fresh, result } => endpoint.without_idle().with_pending(
            submitted(
                new_transfer(endpoint.next_id(fresh), buffer, endpoint.direction()),
                result,
            ),
        ),
        EndpointEvent::Complete { id, result, len } => if endpoint.has_open_transfer(id) {
            endpoint.with_completed(
                choose|index: int| endpoint.is_open_transfer(id, index),
                result,
                len,
            )
        } else {
            endpoint
        },
        EndpointEvent::Poll => endpoint.polled(),
    }
}

/// The memory that `event` puts into the endpoint.
pub open spec fn put_in<B>(event: EndpointEvent<B>) -> Seq<B> {
    match event {
        EndpointEvent::Submit { buffer, .. } => seq![buffer.memory],
        _ => Seq::empty(),
    }
}

/// The memory that the endpoint hands back on `event`.
pub open spec fn handed_back<B>(endpoint: EndpointView<B>, event: EndpointEvent<B>) -> Seq<B> {
    match (event, endpoint.front_completion()) {
        (EndpointEvent::Poll, Some(completion)) => seq![completion.buffer.memory],
        _ => Seq::empty(),
    }
}

/// The memory of the pending transfers.
pub open spec fn pending_memory<B>(endpoint: EndpointView<B>) -> Seq<B> {
    endpoint.pending.map_values(|transfer: Transfer<B>| transfer.memory)
}

/// The endpoint after all of `events`.
pub open spec fn endpoint_after_all<B>(
    endpoint: EndpointView<B>,
    events: Seq<EndpointEvent<B>>,
) -> EndpointView<B>
    decreases events.len(),
{
    if events.len() == 0 {
        endpoint
    } else {
        endpoint_after_all(endpoint_after(endpoint, events[0]), events.skip(1))
    }
}

/// The memory that `events` put into the endpoint, in order.
pub open spec fn all_put_in<B>(events: Seq<EndpointEvent<B>>) -> Seq<B>
    decreases events.len(),
{
    if events.len() == 0 {
        Seq::empty()
    } else {
        put_in(events[0]) + all_put_in(events.skip(1))
    }
}

/// The memory that the endpoint hands back during `events`, in order.
pub open spec fn all_handed_back<B>(
    endpoint: EndpointView<B>,
    events: Seq<EndpointEvent<B>>,
) -> Seq<B>
    decreases events.len(),
{
    if events.len() == 0 {
        Seq::empty()
    } else {
        handed_back(endpoint, events[0]) + all_handed_back(
            endpoint_after(endpoint, events[0]),
            events.skip(1),
        )
    }
}

/// Buffers are handed back in the order in which they were submitted, whatever the order in which
/// their transfers end, and none is lost or doubled: what was handed back, followed by what is
/// still pending, is what was pending at first, followed by what was submitted.
pub proof fn law_buffers_return_in_order<B>(
    endpoint: EndpointView<B>,
    events: Seq<EndpointEvent<B>>,
)
    ensures
        all_handed_back(endpoint, events) + pending_memory(endpoint_after_all(endpoint, events))
            == pending_memory(endpoint) + all_put_in(events),
    decreases events.len(),
{
    if events.len() == 0 {
        assert(Seq::<B>::empty() + pending_memory(endpoint) == pending_memory(endpoint)
            + Seq::<B>::empty());
    } else {
        let event = events[0];
        let rest = events.skip(1);
        let after = endpoint_after(endpoint, event);
        law_buffers_return_in_order(after, rest);
        lemma_event_keeps_order(endpoint, event);
        let last = endpoint_after_all(after, rest);
        assert(all_handed_back(endpoint, events) + pending_memory(last) == handed_back(
            endpoint,
            event,
        ) + (all_handed_back(after, rest) + pending_memory(last)));
        assert(handed_back(endpoint, event) + (pending_memory(after) + all_put_in(rest)) == (
        handed_back(endpoint, event) + pending_memory(after)) + all_put_in(rest));
        assert(pending_memory(endpoint) + all_put_in(events) == (pending_memory(endpoint) + put_in(
            event,
        )) + all_put_in(rest));
    }
}

proof fn lemma_event_keeps_order<B>(endpoint: EndpointView<B>, event: EndpointEvent<B>)
    ensures
        handed_back(endpoint, event) + pending_memory(endpoint_after(endpoint, event))
            == pending_memory(endpoint) + put_in(event),
{
    let after = endpoint_after(endpoint, event);
    match event {
        EndpointEvent::Submit { buffer, .. } => {
            assert(pending_memory(after) == pending_memory(endpoint).push(buffer.memory));
        },
        EndpointEvent::Complete { .. } => {
            assert(pending_memory(after) == pending_memory(endpoint));
        },
        EndpointEvent::Poll => {
            if endpoint.front_complete() {
                assert(seq![endpoint.pending[0].memory] + pending_memory(after) == pending_memory(
                    endpoint,
                ));
            }
        },
    }
    assert(handed_back(endpoint, event) + pending_memory(after) == pending_memory(endpoint)
        + put_in(event));
}

/// A transfer that the system did not take is handed back with the system's code, at once where
/// no other is pending.
pub proof fn law_refused_transfer_is_handed_back<B>(
    endpoint: EndpointView<B>,
    transfer: Transfer<B>,
    result: IOReturn,
)
    requires
        endpoint.pending.len() == 0,
        result != kIOReturnSuccess,
    ensures
        endpoint.with_pending(submitted(transfer, result)).front_completion() matches Some(
            completion,
        ) && completion.status == result && completion.buffer.memory == transfer.memory,
{
}

/// The number of a transfer that was handed back is used for the next one.
pub proof fn law_transfers_are_used_again<B>(endpoint: EndpointView<B>, fresh: u64)
    requires
        endpoint.front_complete(),
    ensures
        endpoint.polled().next_id(fresh) == endpoint.pending[0].id,
{
}

/// A transfer ends once: once it has ended, no pending transfer is left that a second report
/// with its number could end.
pub proof fn law_transfer_ends_once<B>(
    endpoint: EndpointView<B>,
    id: u64,
    index: int,
    result: IOReturn,
    len: u32,
)
    requires
        endpoint.wf(),
        endpoint.is_open_transfer(id, index),
    ensures
        !endpoint.with_completed(index, result, len).has_open_transfer(id),
{
    let after = endpoint.with_completed(index, result, len);
    assert forall|other: int| !#[trigger] after.is_open_transfer(id, other) by {
        if 0 <= other < after.pending.len() && other != index {
            assert(after.pending[other] == endpoint.pending[other]);
            assert(endpoint.pending[other].id != endpoint.pending[index].id);
        }
    }
}

/// The view of an endpoint shows all that it holds.
pub proof fn law_view_shows_the_endpoint<B>(endpoint: MacEndpoint<B>)
    ensures
        endpoint@.pipe_ref == endpoint.pipe_ref,
        endpoint@.address == endpoint.address,
        endpoint@.max_packet_size == endpoint.max_packet_size,
        endpoint@.pending == endpoint.pending@,
        endpoint@.idle_transfer == endpoint.idle_transfer,
{
}

/// A transfer that is submitted is put behind those that are pending. It has the number of the
/// idle transfer, which is idle no longer, or else the fresh one. Where the system did not take
/// it, it is over with the system's code.
pub proof fn law_submitted_transfer_is_the_last<B>(
    endpoint: EndpointView<B>,
    buffer: Buffer<B>,
    fresh: u64,
    result: IOReturn,
)
    ensures
        ({
            let after = endpoint_after(endpoint, EndpointEvent::Submit { buffer, fresh, result });
            let last = after.pending.last();
            &&& after.pending.len() == endpoint.pending.len() + 1
            &&& after.pending.drop_last() == endpoint.pending
            &&& match endpoint.idle_transfer {
                Some(id) => last.id == id,
                None => last.id == fresh,
            }
            &&& last.memory == buffer.memory
            &&& endpoint.address < 0x80 ==> last.requested_len == buffer.len
            &&& endpoint.address >= 0x80 ==> last.requested_len == buffer.requested_len
            &&& last.actual_len == 0
            &&& last.status == result
            &&& last.complete <==> result != 0
            &&& after.idle_transfer is None
            &&& after.pipe_ref == endpoint.pipe_ref
            &&& after.address == endpoint.address
            &&& after.max_packet_size == endpoint.max_packet_size
        }),
{
}

/// A report of the end of a transfer ends the first pending transfer that has its number and has
/// not ended, wherever it stands: as many bytes were moved as the report says, and it ended as the
/// report says. Nothing else of the endpoint changes.
pub proof fn law_report_ends_its_transfer<B>(
    endpoint: EndpointView<B>,
    id: u64,
    index: int,
    result: IOReturn,
    len: u32,
)
    requires
        0 <= index < endpoint.pending.len(),
        endpoint.pending[index].id == id,
        !endpoint.pending[index].complete,
        forall|i: int|
            0 <= i < index ==> (#[trigger] endpoint.pending[i]).id != id
                || endpoint.pending[i].complete,
    ensures
        ({
            let after = endpoint_after(endpoint, EndpointEvent::Complete { id, result, len });
            &&& after.pending.len() == endpoint.pending.len()
            &&& after.pending[index].complete
            &&& after.pending[index].actual_len == len
            &&& after.pending[index].status == result
            &&& after.pending[index].id == id
            &&& after.pending[index].memory == endpoint.pending[index].memory
            &&& after.pending[index].requested_len == endpoint.pending[index].requested_len
            &&& forall|i: int|
                0 <= i < endpoint.pending.len() && i != index ==> #[trigger] after.pending[i]
                    == endpoint.pending[i]
            &&& after.idle_transfer == endpoint.idle_transfer
            &&& after.pipe_ref == endpoint.pipe_ref
            &&& after.address == endpoint.address
            &&& after.max_packet_size == endpoint.max_packet_size
        }),
{
    assert(endpoint.is_open_transfer(id, index));
    let chosen = choose|chosen: int| endpoint.is_open_transfer(id, chosen);
    assert(endpoint.is_open_transfer(id, chosen));
    if chosen < index {
        assert(endpoint.pending[chosen].id != id || endpoint.pending[chosen].complete);
    } else if index < chosen {
        assert(endpoint.pending[index].id != id || endpoint.pending[index].complete);
    }
}

/// A report of the end of a transfer that is not pending, or has ended, changes nothing.
pub proof fn law_report_of_no_open_transfer_changes_nothing<B>(
    endpoint: EndpointView<B>,
    id: u64,
    result: IOReturn,
    len: u32,
)
    requires
        forall|i: int|
            0 <= i < endpoint.pending.len() ==> (#[trigger] endpoint.pending[i]).id != id
                || endpoint.pending[i].complete,
    ensures
        endpoint_after(endpoint, EndpointEvent::Complete { id, result, len }) == endpoint,
{
    assert forall|index: int| !#[trigger] endpoint.is_open_transfer(id, index) by {
        if 0 <= index < endpoint.pending.len() {
            assert(endpoint.pending[index].id != id || endpoint.pending[index].complete);
        }
    }
}

/// Asking an endpoint for the next transfer that is over gives the oldest one, where it has ended,
/// as it ended, and takes it away. Where the oldest has not ended, nothing changes, even if others
/// have.
pub proof fn law_oldest_transfer_is_handed_back<B>(endpoint: EndpointView<B>)
    ensures
        ({
            let after = endpoint_after(endpoint, EndpointEvent::Poll);
            let ended = endpoint.pending[0];
            if endpoint.pending.len() > 0 && ended.complete {
                &&& endpoint.front_completion() matches Some(completion) && {
                    &&& completion.buffer.memory == ended.memory
                    &&& completion.buffer.requested_len == ended.requested_len
                    &&& endpoint.address < 0x80 ==> completion.buffer.len == ended.requested_len
                    &&& endpoint.address >= 0x80 ==> completion.buffer.len == ended.actual_len
                    &&& completion.actual_len == ended.actual_len
                    &&& completion.status == ended.status
                }
                &&& after.pending == endpoint.pending.skip(1)
                &&& after.idle_transfer == Some(ended.id)
                &&& after.pipe_ref == endpoint.pipe_ref
                &&& after.address == endpoint.address
                &&& after.max_packet_size == endpoint.max_packet_size
            } else {
                &&& endpoint.front_completion() is None
                &&& after == endpoint
            }
        }),
{
}

/// How many transfers the endpoint hands back during `events`.
pub open spec fn times_handed_back<B>(
    endpoint: EndpointView<B>,
    events: Seq<EndpointEvent<B>>,
) -> nat {
    all_handed_back(endpoint, events).len()
}

/// Whatever else happens, a transfer that has ended waits for its turn as it is: as long as it was
/// not handed back it stands behind as many transfers as it did, less those that were handed back,
/// and how it ended and how much it moved stay.
pub proof fn law_ended_transfer_waits_unchanged<B>(
    endpoint: EndpointView<B>,
    events: Seq<EndpointEvent<B>>,
    index: int,
)
    requires
        0 <= index < endpoint.pending.len(),
        endpoint.pending[index].complete,
        times_handed_back(endpoint, events) <= index,
    ensures
        ({
            let after = endpoint_after_all(endpoint, events);
            let place = index - times_handed_back(endpoint, events);
            &&& after.address == endpoint.address
            &&& place < after.pending.len()
            &&& after.pending[place] == endpoint.pending[index]
        }),
    decreases events.len(),
{
    if events.len() > 0 {
        let event = events[0];
        let after = endpoint_after(endpoint, event);
        let rest = events.skip(1);
        match event {
            EndpointEvent::Submit { .. } => {
                law_ended_transfer_waits_unchanged(after, rest, index);
            },
            EndpointEvent::Complete { id, result, len } => {
                if endpoint.has_open_transfer(id) {
                    let chosen = choose|chosen: int| endpoint.is_open_transfer(id, chosen);
                    assert(endpoint.is_open_transfer(id, chosen));
                    assert(chosen != index);
                }
                assert(after.pending[index] == endpoint.pending[index]);
                law_ended_transfer_waits_unchanged(after, rest, index);
            },
            EndpointEvent::Poll => {
                if endpoint.front_complete() {
                    law_ended_transfer_waits_unchanged(after, rest, index - 1);
                } else {
                    law_ended_transfer_waits_unchanged(after, rest, index);
                }
            },
        }
    }
}

/// What the system reports of a transfer is what its buffer comes back with. The report comes
/// while the transfer is pending at any place; `events` are whatever happens from then until it
/// is the oldest; the completion that is handed back then has the length and the result of the
/// report, and an IN buffer is filled that far.
pub proof fn law_report_comes_back_with_the_buffer<B>(
    endpoint: EndpointView<B>,
    id: u64,
    index: int,
    result: IOReturn,
    len: u32,
    events: Seq<EndpointEvent<B>>,
)
    requires
        0 <= index < endpoint.pending.len(),
        endpoint.pending[index].id == id,
        !endpoint.pending[index].complete,
        forall|i: int|
            0 <= i < index ==> (#[trigger] endpoint.pending[i]).id != id
                || endpoint.pending[i].complete,
        times_handed_back(
            endpoint_after(endpoint, EndpointEvent::Complete { id, result, len }),
            events,
        ) == index,
    ensures
        ({
            let reported = endpoint_after(endpoint, EndpointEvent::Complete { id, result, len });
            let then_oldest = endpoint_after_all(reported, events);
            then_oldest.front_completion() matches Some(completion) && {
                &&& completion.actual_len == len
                &&& completion.status == result
                &&& completion.buffer.memory == endpoint.pending[index].memory
                &&& endpoint.address >= 0x80 ==> completion.buffer.len == len
                &&& endpoint.address < 0x80 ==> completion.buffer.len
                    == endpoint.pending[index].requested_len
            }
        }),
{
    law_report_ends_its_transfer(endpoint, id, index, result, len);
    let reported = endpoint_after(endpoint, EndpointEvent::Complete { id, result, len });
    law_ended_transfer_waits_unchanged(reported, events, index);
    law_oldest_transfer_is_handed_back(endpoint_after_all(reported, events));
}

/// By its number a report finds its transfer: no two pending transfers have the same number, and
/// none has that of the idle one. This holds whatever happens, as long as a new transfer is given a
/// number that no other has.
pub proof fn law_numbers_stay_distinct<B>(endpoint: EndpointView<B>, event: EndpointEvent<B>)
    requires
        endpoint.wf(),
        event matches EndpointEvent::Submit { fresh, .. } ==> endpoint.idle_transfer is Some || (
        forall|i: int| 0 <= i < endpoint.pending.len() ==> (#[trigger] endpoint.pending[i]).id
            != fresh),
    ensures
        ({
            let after = endpoint_after(endpoint, event);
            &&& after.wf()
            &&& forall|i: int, j: int|
                0 <= i < j < after.pending.len() ==> (#[trigger] after.pending[i]).id != (
                #[trigger] after.pending[j]).id
            &&& forall|i: int|
                0 <= i < after.pending.len() ==> after.idle_transfer != Some(
                    (#[trigger] after.pending[i]).id,
                )
        }),
{
    match event {
        EndpointEvent::Submit { buffer, fresh, result } => {
            let transfer = submitted(
                new_transfer(endpoint.next_id(fresh), buffer, endpoint.direction()),
                result,
            );
            assert(!endpoint.is_pending(transfer.id));
            lemma_push_keeps_wf(endpoint.without_idle(), transfer);
        },
        EndpointEvent::Complete { id, result, len } => {
            if endpoint.has_open_transfer(id) {
                let index = choose|index: int| endpoint.is_open_transfer(id, index);
                lemma_completed_keeps_wf(endpoint, index, result, len);
            }
        },
        EndpointEvent::Poll => {
            if endpoint.front_complete() {
                lemma_front_keeps_wf(endpoint);
            }
        },
    }
    let after = endpoint_after(endpoint, event);
    assert forall|i: int| 0 <= i < after.pending.len() implies after.idle_transfer != Some(
        (#[trigger] after.pending[i]).id,
    ) by {
        if after.idle_transfer == Some(after.pending[i].id) {
            assert(after.is_pending(after.pending[i].id));
        }
    }
}

} // verus!
