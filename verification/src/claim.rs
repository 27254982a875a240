//! Claiming an interface of a device.
use crate::device::{DeviceView, MacDevice};
use crate::error::{iokit_error, Error, ErrorKind};
use crate::interface::{new_interface, with_claim, MacInterface};
use crate::ret::IOReturn;
use crate::step::Next;
use vstd::prelude::*;

verus! {

/// Which interface to claim, and how.
#[derive(Clone, Copy, Debug, PartialEq, Eq)]
pub struct ClaimRequest {
    /// The number of the interface.
    pub interface_number: u8,
    /// Whether to seize the interface from a kernel driver that holds it.
    pub seize: bool,
}

/// A call that claiming an interface asks for.
#[derive(Clone, Copy, Debug, PartialEq, Eq)]
pub enum ClaimStep {
    /// List the services of the device's interfaces, and read the property `bInterfaceNumber`
    /// of each.
    ListInterfaces(ClaimRequest),
    /// Create the interface object for the service at this place in the list.
    CreateInterface(ClaimRequest, usize),
    /// Create the event source of the interface object.
    CreateEventSource(ClaimRequest),
    /// Open the interface, or seize it where the request says so.
    Open(ClaimRequest),
}

/// What a call that claiming an interface asks for returned.
#[derive(Debug)]
pub enum ClaimReply {
    /// The interface numbers of the services in the list. One may have none.
    Interfaces(Result<Vec<Option<i64>>, IOReturn>),
    /// Whether the interface object was created.
    Interface(Result<(), Error>),
    /// What any other call returned.
    Status(Result<(), IOReturn>),
}

/// The request that a call serves.
pub open spec fn request_of(step: ClaimStep) -> ClaimRequest {
    match step {
        ClaimStep::ListInterfaces(request) => request,
        ClaimStep::CreateInterface(request, _) => request,
        ClaimStep::CreateEventSource(request) => request,
        ClaimStep::Open(request) => request,
    }
}

/// Whether `reply` answers what `step` asks.
pub open spec fn claim_answers(step: ClaimStep, reply: ClaimReply) -> bool {
    match step {
        ClaimStep::ListInterfaces(_) => reply is Interfaces,
        ClaimStep::CreateInterface(..) => reply is Interface,
        _ => reply is Status,
    }
}

/// Whether the service at `index` is the first one with this interface number.
pub open spec fn is_interface_service(
    numbers: Seq<Option<i64>>,
    interface_number: u8,
    index: usize,
) -> bool {
    &&& index < numbers.len()
    &&& numbers[index as int] == Some(interface_number as i64)
    &&& forall|i: int| 0 <= i < index ==> #[trigger] numbers[i] != Some(interface_number as i64)
}

/// The place of the first service with this interface number.
pub open spec fn interface_service(numbers: Seq<Option<i64>>, interface_number: u8) -> Option<
    usize,
> {
    if exists|index: usize| is_interface_service(numbers, interface_number, index) {
        Some(choose|index: usize| is_interface_service(numbers, interface_number, index))
    } else {
        None
    }
}

/// Finds the first service with this interface number.
pub fn find_interface_service(numbers: &Vec<Option<i64>>, interface_number: u8) -> (r: Option<
    usize,
>)
    ensures
        r == interface_service(numbers@, interface_number),
        match r {
            Some(index) => {
                &&& is_interface_service(numbers@, interface_number, index)
                &&& index < numbers@.len()
                &&& numbers@[index as int] matches Some(number) && number == interface_number
                &&& forall|i: int|
                    0 <= i < index ==> !(#[trigger] numbers@[i] matches Some(number) && number
                        == interface_number)
            },
            None => forall|i: int|
                0 <= i < numbers@.len() ==> #[trigger] numbers@[i] != Some(interface_number as i64),
        },
{
    let mut index: usize = 0;
    while index < numbers.len()
        invariant
            index <= numbers@.len(),
            forall|i: int|
                0 <= i < index ==> #[trigger] numbers@[i] != Some(interface_number as i64),
        decreases numbers@.len() - index,
    {
        if let Some(number) = numbers[index] {
            if number == interface_number as i64 {
                proof {
                    assert(is_interface_service(numbers@, interface_number, index));
                    let first = choose|first: usize|
                        is_interface_service(numbers@, interface_number, first);
                    assert(is_interface_service(numbers@, interface_number, first));
                    if first < index {
                        assert(numbers@[first as int] != Some(interface_number as i64));
                    } else if index < first {
                        assert(numbers@[index as int] != Some(interface_number as i64));
                    }
                }
                return Some(index);
            }
        }
        index = index + 1;
    }
    proof {
        assert forall|first: usize| !is_interface_service(
            numbers@,
            interface_number,
            first,
        ) by {
            if first < numbers@.len() {
                assert(numbers@[first as int] != Some(interface_number as i64));
            }
        }
    }
    None
}

/// The device after the call that `step` asks for returned `reply`, and what comes next.
pub open spec fn claim_next(device: DeviceView, step: ClaimStep, reply: ClaimReply) -> (
    DeviceView,
    Next<ClaimStep, Result<MacInterface, Error>>,
) {
    match (step, reply) {
        (ClaimStep::ListInterfaces(request), ClaimReply::Interfaces(Ok(numbers))) => (
            device,
            match interface_service(numbers@, request.interface_number) {
                Some(index) => Next::Ask(ClaimStep::CreateInterface(request, index)),
                None => Next::Done(Err(Error::new(ErrorKind::NotFound, "interface not found"))),
            },
        ),
        (ClaimStep::ListInterfaces(_), ClaimReply::Interfaces(Err(code))) => (
            device,
            Next::Done(Err(iokit_error(code, "failed to create interface iterator"))),
        ),
        (ClaimStep::CreateInterface(request, _), ClaimReply::Interface(Ok(_))) => (
            device,
            Next::Ask(ClaimStep::CreateEventSource(request)),
        ),
        (ClaimStep::CreateInterface(..), ClaimReply::Interface(Err(error))) => (
            device,
            Next::Done(Err(error)),
        ),
        (ClaimStep::CreateEventSource(request), ClaimReply::Status(Ok(_))) => (
            device,
            Next::Ask(ClaimStep::Open(request)),
        ),
        (ClaimStep::CreateEventSource(_), ClaimReply::Status(Err(code))) => (
            device,
            Next::Done(Err(iokit_error(code, "failed to create async event source"))),
        ),
        (ClaimStep::Open(request), ClaimReply::Status(Ok(_))) => (
            with_claim(device),
            Next::Done(Ok(new_interface(device.registry_id, request.interface_number))),
        ),
        (ClaimStep::Open(_), ClaimReply::Status(Err(code))) => (
            device,
            Next::Done(Err(iokit_error(code, "failed to open interface"))),
        ),
        // A reply to something else changes nothing, and the question stands.
        _ => (device, Next::Ask(step)),
    }
}

impl MacDevice {
    /// Starts to claim an interface that no kernel driver holds.
    pub fn claim_interface(&self, interface_number: u8) -> (r: ClaimStep)
        ensures
            r == ClaimStep::ListInterfaces(ClaimRequest { interface_number, seize: false }),
    {
        self.claim_interface_inner(interface_number, false)
    }

    /// Starts to claim an interface, seizing it from a kernel driver that holds it.
    pub fn detach_and_claim_interface(&self, interface: u8) -> (r: ClaimStep)
        ensures
            r == ClaimStep::ListInterfaces(
                ClaimRequest { interface_number: interface, seize: true },
            ),
    {
        self.claim_interface_inner(interface, true)
    }

    fn claim_interface_inner(&self, interface_number: u8, seize: bool) -> (r: ClaimStep)
        ensures
            r == ClaimStep::ListInterfaces(ClaimRequest { interface_number, seize }),
    {
        ClaimStep::ListInterfaces(ClaimRequest { interface_number, seize })
    }

    /// Goes on with the claim after the call that `step` asks for returned `reply`.
    pub fn claim_step(&mut self, step: ClaimStep, reply: ClaimReply) -> (r: Next<
        ClaimStep,
        Result<MacInterface, Error>,
    >)
        ensures
            (final(self)@, r) == claim_next(old(self)@, step, reply),
            r matches Next::Ask(asked) ==> request_of(asked) == request_of(step),
            final(self).registry_id == old(self).registry_id,
            final(self).state == old(self).state,
            final(self).device_descriptor == old(self).device_descriptor,
            final(self).config_descriptors == old(self).config_descriptors,
            final(self).speed == old(self).speed,
            final(self).active_config == old(self).active_config,
            r matches Next::Done(Ok(interface)) ==> interface.registry_id == old(self).registry_id
                && interface.interface_number == request_of(step).interface_number,
            !(r matches Next::Done(Ok(_))) ==> final(self).claimed_interfaces == old(self).claimed_interfaces,
            old(self).wf() ==> final(self).wf(),
    {
        match (step, reply) {
            (ClaimStep::ListInterfaces(request), ClaimReply::Interfaces(listed)) => match listed {
                Ok(numbers) => match find_interface_service(&numbers, request.interface_number) {
                    Some(index) => Next::Ask(ClaimStep::CreateInterface(request, index)),
                    None => Next::Done(
                        Err(Error::new(ErrorKind::NotFound, "interface not found")),
                    ),
                },
                Err(code) => Next::Done(
                    Err(iokit_error(code, "failed to create interface iterator")),
                ),
            },
            (ClaimStep::CreateInterface(request, _), ClaimReply::Interface(created)) => {
                match created {
                    Ok(_) => Next::Ask(ClaimStep::CreateEventSource(request)),
                    Err(error) => Next::Done(Err(error)),
                }
            },
            (ClaimStep::CreateEventSource(request), ClaimReply::Status(created)) => match created {
                Ok(_) => Next::Ask(ClaimStep::Open(request)),
                Err(code) => Next::Done(
                    Err(iokit_error(code, "failed to create async event source")),
                ),
            },
            (ClaimStep::Open(request), ClaimReply::Status(opened)) => match opened {
                Ok(_) => Next::Done(Ok(self.interface_claimed(request.interface_number))),
                Err(code) => Next::Done(Err(iokit_error(code, "failed to open interface"))),
            },
            _ => Next::Ask(step),
        }
    }
}

/// What the system answers to each call of one claim.
pub struct ClaimReplies {
    pub interfaces: Result<Vec<Option<i64>>, IOReturn>,
    pub interface: Result<(), Error>,
    pub event_source: Result<(), IOReturn>,
    pub open: Result<(), IOReturn>,
}

impl ClaimReplies {
    /// The answer to what `step` asks.
    pub open spec fn answer(self, step: ClaimStep) -> ClaimReply {
        match step {
            ClaimStep::ListInterfaces(_) => ClaimReply::Interfaces(self.interfaces),
            ClaimStep::CreateInterface(..) => ClaimReply::Interface(self.interface),
            ClaimStep::CreateEventSource(_) => ClaimReply::Status(self.event_source),
            ClaimStep::Open(_) => ClaimReply::Status(self.open),
        }
    }
}

/// How many calls can follow at most.
pub open spec fn claim_rank(next: Next<ClaimStep, Result<MacInterface, Error>>) -> nat {
    match next {
        Next::Done(_) => 0,
        Next::Ask(ClaimStep::ListInterfaces(_)) => 4,
        Next::Ask(ClaimStep::CreateInterface(..)) => 3,
        Next::Ask(ClaimStep::CreateEventSource(_)) => 2,
        Next::Ask(ClaimStep::Open(_)) => 1,
    }
}

/// The device and the result once every question from `next` on is answered.
pub open spec fn claim_run(
    device: DeviceView,
    next: Next<ClaimStep, Result<MacInterface, Error>>,
    replies: ClaimReplies,
) -> (DeviceView, Result<MacInterface, Error>)
    decreases claim_rank(next),
{
    match next {
        Next::Done(result) => (device, result),
        Next::Ask(step) => {
            let (after, then_next) = claim_next(device, step, replies.answer(step));
            claim_run(after, then_next, replies)
        },
    }
}

/// The device and the result of claiming an interface, where the system answers with `replies`.
pub open spec fn claim_outcome(device: DeviceView, interface_number: u8, replies: ClaimReplies) -> (
    DeviceView,
    Result<MacInterface, Error>,
) {
    if replies.interfaces is Err {
        (
            device,
            Err(iokit_error(replies.interfaces->Err_0, "failed to create interface iterator")),
        )
    } else if interface_service(replies.interfaces->Ok_0@, interface_number) is None {
        (device, Err(Error::new(ErrorKind::NotFound, "interface not found")))
    } else if replies.interface is Err {
        (device, Err(replies.interface->Err_0))
    } else if replies.event_source is Err {
        (
            device,
            Err(iokit_error(replies.event_source->Err_0, "failed to create async event source")),
        )
    } else if replies.open is Err {
        (device, Err(iokit_error(replies.open->Err_0, "failed to open interface")))
    } else {
        (with_claim(device), Ok(new_interface(device.registry_id, interface_number)))
    }
}

/// Carried through to its end, a claim comes out as `claim_outcome` says, and each of its
/// questions gets a reply of the right sort.
pub proof fn law_claim_outcome(device: DeviceView, request: ClaimRequest, replies: ClaimReplies)
    ensures
        claim_run(device, Next::Ask(ClaimStep::ListInterfaces(request)), replies) == claim_outcome(
            device,
            request.interface_number,
            replies,
        ),
        forall|step: ClaimStep| claim_answers(step, #[trigger] replies.answer(step)),
{
    reveal_with_fuel(claim_run, 5);
}

/// A claim counts exactly where it succeeds, and changes nothing else of the device.
pub proof fn law_only_successful_claims_count(
    device: DeviceView,
    interface_number: u8,
    replies: ClaimReplies,
)
    ensures
        claim_outcome(device, interface_number, replies).1 is Ok ==> claim_outcome(
            device,
            interface_number,
            replies,
        ).0 == with_claim(device),
        claim_outcome(device, interface_number, replies).1 is Err ==> claim_outcome(
            device,
            interface_number,
            replies,
        ).0 == device,
{
}

/// Every call of a claim serves the request that the claim started with: the interface it names,
/// and whether it may be seized.
pub proof fn law_claim_keeps_its_request(device: DeviceView, step: ClaimStep, reply: ClaimReply)
    ensures
        claim_next(device, step, reply).1 matches Next::Ask(asked) ==> request_of(asked)
            == request_of(step),
        forall|request: ClaimRequest, index: usize|
            {
                &&& request_of(ClaimStep::ListInterfaces(request)) == request
                &&& #[trigger] request_of(ClaimStep::CreateInterface(request, index)) == request
                &&& request_of(ClaimStep::CreateEventSource(request)) == request
                &&& request_of(ClaimStep::Open(request)) == request
            },
{
}

/// A reply to something else changes nothing, and the question stands.
pub proof fn law_claim_waits_for_its_reply(device: DeviceView, step: ClaimStep, reply: ClaimReply)
    requires
        match step {
            ClaimStep::ListInterfaces(_) => !(reply is Interfaces),
            ClaimStep::CreateInterface(..) => !(reply is Interface),
            ClaimStep::CreateEventSource(_) => !(reply is Status),
            ClaimStep::Open(_) => !(reply is Status),
        },
    ensures
        claim_next(device, step, reply).0 == device,
        claim_next(device, step, reply).1 == Next::<ClaimStep, Result<MacInterface, Error>>::Ask(
            step,
        ),
        !claim_answers(step, reply),
{
}

/// The calls that are made from `next` on, in order.
pub open spec fn claim_calls(
    device: DeviceView,
    next: Next<ClaimStep, Result<MacInterface, Error>>,
    replies: ClaimReplies,
) -> Seq<ClaimStep>
    decreases claim_rank(next),
{
    match next {
        Next::Done(_) => Seq::empty(),
        Next::Ask(step) => {
            let (after, then_next) = claim_next(device, step, replies.answer(step));
            seq![step] + claim_calls(after, then_next, replies)
        },
    }
}

/// A service with the number of the interface is found where there is one, and it is the first.
pub proof fn lemma_interface_service(numbers: Seq<Option<i64>>, interface_number: u8)
    requires
        numbers.len() <= usize::MAX,
    ensures
        match interface_service(numbers, interface_number) {
            Some(index) => {
                &&& index < numbers.len()
                &&& numbers[index as int] == Some(interface_number as i64)
                &&& forall|i: int|
                    0 <= i < index ==> #[trigger] numbers[i] != Some(interface_number as i64)
            },
            None => forall|i: int|
                0 <= i < numbers.len() ==> #[trigger] numbers[i] != Some(interface_number as i64),
        },
    decreases numbers.len(),
{
    if interface_service(numbers, interface_number) is None {
        assert forall|i: int| 0 <= i < numbers.len() implies #[trigger] numbers[i] != Some(
            interface_number as i64,
        ) by {
            if numbers[i] == Some(interface_number as i64) {
                lemma_first_service(numbers, interface_number, i);
            }
        }
    }
}

proof fn lemma_first_service(numbers: Seq<Option<i64>>, interface_number: u8, index: int)
    requires
        0 <= index < numbers.len() <= usize::MAX,
        numbers[index] == Some(interface_number as i64),
    ensures
        interface_service(numbers, interface_number) is Some,
    decreases index,
{
    if forall|i: int| 0 <= i < index ==> #[trigger] numbers[i] != Some(interface_number as i64) {
        assert(is_interface_service(numbers, interface_number, index as usize));
    } else {
        let first = choose|i: int|
            0 <= i < index && #[trigger] numbers[i] == Some(interface_number as i64);
        lemma_first_service(numbers, interface_number, first);
    }
}

/// The calls of a claim: the services of the interfaces are listed, the interface object is
/// created for the first service that has the interface's number, its event source is created,
/// and the interface is opened, seized where the claim says so. Each call is made once the one
/// before it succeeded, and the claim succeeds exactly where all of them do.
pub proof fn law_claim_makes_its_calls_in_order(
    device: DeviceView,
    interface_number: u8,
    seize: bool,
    replies: ClaimReplies,
)
    ensures
        ({
            let request = ClaimRequest { interface_number, seize };
            let start = Next::Ask(ClaimStep::ListInterfaces(request));
            let calls = claim_calls(device, start, replies);
            let found = replies.interfaces matches Ok(numbers) && exists|i: int|
                0 <= i < numbers@.len() && #[trigger] numbers@[i] == Some(interface_number as i64);
            &&& 1 <= calls.len() <= 4
            &&& calls[0] == ClaimStep::ListInterfaces(request)
            &&& calls.len() > 1 <==> found
            &&& calls.len() > 1 ==> (calls[1] matches ClaimStep::CreateInterface(served, index) && {
                let numbers = replies.interfaces->Ok_0@;
                &&& served == request
                &&& index < numbers.len()
                &&& numbers[index as int] == Some(interface_number as i64)
                &&& forall|i: int|
                    0 <= i < index ==> #[trigger] numbers[i] != Some(interface_number as i64)
            })
            &&& calls.len() > 2 <==> calls.len() > 1 && replies.interface is Ok
            &&& calls.len() > 2 ==> calls[2] == ClaimStep::CreateEventSource(request)
            &&& calls.len() > 3 <==> calls.len() > 2 && replies.event_source is Ok
            &&& calls.len() > 3 ==> calls[3] == ClaimStep::Open(request)
            &&& claim_run(device, start, replies).1 is Ok <==> calls.len() == 4 && replies.open
                is Ok
        }),
{
    reveal_with_fuel(claim_run, 5);
    reveal_with_fuel(claim_calls, 5);
    if replies.interfaces is Ok {
        let numbers = replies.interfaces->Ok_0;
        assert(numbers@.len() == numbers.len());
        lemma_interface_service(numbers@, interface_number);
    }
}

/// What comes of a claim. Where it succeeds, the interface has the number that was asked for and
/// belongs to the device, which counts one claim more. Where it fails, the error tells of the call
/// that failed, with its code, and the device is as it was.
pub proof fn law_claim_tells_what_failed(
    device: DeviceView,
    interface_number: u8,
    seize: bool,
    replies: ClaimReplies,
)
    ensures
        ({
            let start = Next::Ask(
                ClaimStep::ListInterfaces(ClaimRequest { interface_number, seize }),
            );
            let found = replies.interfaces matches Ok(numbers) && exists|i: int|
                0 <= i < numbers@.len() && #[trigger] numbers@[i] == Some(interface_number as i64);
            let (after, result) = claim_run(device, start, replies);
            match result {
                Ok(interface) => {
                    &&& interface.registry_id == device.registry_id
                    &&& interface.interface_number == interface_number
                    &&& interface.state.alt_setting == 0
                    &&& interface.state.endpoints_used.out_bits == 0
                    &&& interface.state.endpoints_used.in_bits == 0
                    &&& after == DeviceView { claimed_interfaces: after.claimed_interfaces, ..device }
                    &&& device.claimed_interfaces < usize::MAX ==> after.claimed_interfaces
                        == device.claimed_interfaces + 1
                    &&& device.claimed_interfaces == usize::MAX ==> after.claimed_interfaces == 0
                },
                Err(error) => {
                    &&& after == device
                    &&& replies.interfaces matches Err(code) ==> error.code == Some(code)
                        && error.message == "failed to create interface iterator"
                    &&& replies.interfaces is Ok && !found ==> error.code is None && error.kind
                        == ErrorKind::NotFound && error.message == "interface not found"
                    &&& found ==> (replies.interface matches Err(cause) ==> error == cause)
                    &&& found && replies.interface is Ok ==> (replies.event_source matches Err(code)
                        ==> error.code == Some(code) && error.message
                        == "failed to create async event source")
                    &&& found && replies.interface is Ok && replies.event_source is Ok ==> (
                    replies.open matches Err(code) ==> error.code == Some(code) && error.message
                        == "failed to open interface")
                    &&& !(found && replies.interface is Err) ==> (error.code matches Some(code)
                        ==> error.kind == iokit_error(code, error.message).kind)
                },
            }
        }),
{
    law_claim_makes_its_calls_in_order(device, interface_number, seize, replies);
    reveal_with_fuel(claim_run, 5);
    if replies.interfaces is Ok {
        let numbers = replies.interfaces->Ok_0;
        assert(numbers@.len() == numbers.len());
        lemma_interface_service(numbers@, interface_number);
    }
}

} // verus!
