//! Capturing a device from its kernel drivers.
//!
//! Capture is device-wide: it ends the kernel drivers of all interfaces but mass storage, so that
//! claiming an interface can succeed. It needs root or an authorization of the user. Since the
//! authorization counts for connections that are made after it, the device is captured through
//! a fresh connection, which then takes the place of the one in use.
use crate::capture::{capture_check, lemma_can_find_config, validate_capture_interface};
use crate::connection::{
    closed_connection, connection_to_close, open_connection, DeviceConnection,
};
use crate::device::{
    attach_check, exclusive_outcome, exclusive_start, released, DeviceState, DeviceView, ExclusiveRequest, MacDevice,
};
use crate::error::{iokit_error, Error, ErrorKind};
use crate::ret::IOReturn;
use crate::step::Next;
use vstd::prelude::*;

verus! {

/// A call that detaching the kernel drivers asks for.
#[derive(Clone, Copy, Debug, PartialEq, Eq)]
pub enum DetachStep {
    /// Look up the system's service for the device by its registry number.
    FindService,
    /// Read the effective user of the process.
    EffectiveUser,
    /// Have the user authorize the use of the service.
    Authorize,
    /// Create a new device object for the service.
    CreateDevice,
    /// Create the event source of the new device object.
    CreateEventSource { device: u64 },
    /// Capture the device through the new device object.
    Capture { device: u64 },
    /// Open the new device object for exclusive access.
    Open { device: u64 },
    /// Release the capture, since the captured device could not be opened.
    Release { device: u64, open_error: IOReturn },
}

/// What a call that detaching the kernel drivers asks for returned.
#[derive(Clone, Copy, Debug, PartialEq, Eq)]
pub enum DetachReply {
    /// Whether the service was found.
    Service(Result<(), Error>),
    /// The effective user.
    EffectiveUser(u32),
    /// The new device object.
    Device(Result<u64, Error>),
    /// What any other call returned.
    Status(Result<(), IOReturn>),
}

/// Whether `reply` answers what `step` asks.
pub open spec fn detach_answers(step: DetachStep, reply: DetachReply) -> bool {
    match step {
        DetachStep::FindService => reply is Service,
        DetachStep::EffectiveUser => reply is EffectiveUser,
        DetachStep::CreateDevice => reply is Device,
        _ => reply is Status,
    }
}

/// What detaching the kernel drivers starts with.
pub open spec fn detach_start(device: DeviceView, interface: u8) -> Next<
    DetachStep,
    Result<(), Error>,
> {
    match capture_check(device.configs, device.active_config, interface) {
        Err(error) => Next::Done(Err(error)),
        Ok(_) => if device.claimed_interfaces != 0 {
            Next::Done(
                Err(
                    Error::new(
                        ErrorKind::Busy,
                        "cannot capture device while interfaces are claimed",
                    ),
                ),
            )
        } else if device.state.captured {
            Next::Done(Ok(()))
        } else {
            Next::Ask(DetachStep::FindService)
        },
    }
}

/// The device with another connection, captured or not.
pub open spec fn with_state(
    device: DeviceView,
    connection: DeviceConnection,
    captured: bool,
) -> DeviceView {
    DeviceView { state: DeviceState { connection, captured }, ..device }
}

/// The device after the call that `step` asks for returned `reply`, and what comes next.
pub open spec fn detach_next(device: DeviceView, step: DetachStep, reply: DetachReply) -> (
    DeviceView,
    Next<DetachStep, Result<(), Error>>,
) {
    match (step, reply) {
        // Until the device is captured, nothing changes, and the first failure ends it all.
        (DetachStep::FindService, DetachReply::Service(Ok(_))) => (
            device,
            Next::Ask(DetachStep::EffectiveUser),
        ),
        (DetachStep::EffectiveUser, DetachReply::EffectiveUser(user)) => (
            device,
            Next::Ask(
                if user == 0 {
                    DetachStep::CreateDevice
                } else {
                    DetachStep::Authorize
                },
            ),
        ),
        (DetachStep::Authorize, DetachReply::Status(Ok(_))) => (
            device,
            Next::Ask(DetachStep::CreateDevice),
        ),
        (DetachStep::CreateDevice, DetachReply::Device(Ok(new))) => (
            device,
            Next::Ask(DetachStep::CreateEventSource { device: new }),
        ),
        (DetachStep::CreateEventSource { device: new }, DetachReply::Status(Ok(_))) => (
            device,
            Next::Ask(DetachStep::Capture { device: new }),
        ),
        (DetachStep::Capture { device: new }, DetachReply::Status(Ok(_))) => (
            device,
            Next::Ask(DetachStep::Open { device: new }),
        ),
        (DetachStep::FindService, DetachReply::Service(Err(error))) => (
            device,
            Next::Done(Err(error)),
        ),
        (DetachStep::Authorize, DetachReply::Status(Err(code))) => (
            device,
            Next::Done(
                Err(
                    iokit_error(
                        code,
                        "failed to authorize USB device; capture requires root or the com.apple.vm.device-access entitlement",
                    ),
                ),
            ),
        ),
        (DetachStep::CreateDevice, DetachReply::Device(Err(error))) => (
            device,
            Next::Done(Err(error)),
        ),
        (DetachStep::CreateEventSource { .. }, DetachReply::Status(Err(code))) => (
            device,
            Next::Done(Err(iokit_error(code, "failed to create async event source"))),
        ),
        (DetachStep::Capture { .. }, DetachReply::Status(Err(code))) => (
            device,
            Next::Done(Err(iokit_error(code, "failed to capture USB device"))),
        ),
        // The device is captured: the new connection takes over, come what may.
        (DetachStep::Open { device: new }, DetachReply::Status(Ok(_))) => (
            with_state(device, open_connection(new), true),
            Next::Done(Ok(())),
        ),
        (DetachStep::Open { device: new }, DetachReply::Status(Err(code))) => (
            device,
            Next::Ask(DetachStep::Release { device: new, open_error: code }),
        ),
        (DetachStep::Release { device: new, open_error }, DetachReply::Status(Ok(_))) => (
            with_state(device, closed_connection(new), false),
            Next::Done(Err(iokit_error(open_error, "failed to reopen USB device after capture"))),
        ),
        (DetachStep::Release { device: new, .. }, DetachReply::Status(Err(code))) => (
            with_state(device, closed_connection(new), true),
            Next::Done(
                Err(iokit_error(code, "failed to release USB device after capture setup failed")),
            ),
        ),
        // A reply to something else changes nothing, and the question stands.
        _ => (device, Next::Ask(step)),
    }
}

impl MacDevice {
    /// Starts to capture the device, so that `interface` can be claimed.
    ///
    /// Nothing is asked where the capture is refused, or where the device is captured already:
    /// capture covers the whole device, and capturing it again would only disrupt it.
    pub fn detach_kernel_driver(&self, interface: u8) -> (r: Next<DetachStep, Result<(), Error>>)
        requires
            self.wf(),
        ensures
            r == detach_start(self@, interface),
            r matches Next::Ask(asked) ==> asked is FindService && !self.state.captured
                && self.claimed_interfaces == 0,
            r matches Next::Done(Ok(_)) ==> self.state.captured && self.claimed_interfaces == 0,
    {
        proof {
            lemma_can_find_config(self@.configs, self.active_config);
        }
        match validate_capture_interface(
            self.config_descriptors.as_slice(),
            self.active_config,
            interface,
        ) {
            Err(error) => {
                return Next::Done(Err(error));
            },
            Ok(_) => {},
        }
        if self.claimed_interfaces != 0 {
            return Next::Done(
                Err(
                    Error::new(
                        ErrorKind::Busy,
                        "cannot capture device while interfaces are claimed",
                    ),
                ),
            );
        }
        if self.state.captured {
            return Next::Done(Ok(()));
        }
        Next::Ask(DetachStep::FindService)
    }

    /// Goes on with the capture after the call that `step` asks for returned `reply`.
    pub fn detach_step(&mut self, step: DetachStep, reply: DetachReply) -> (r: Next<
        DetachStep,
        Result<(), Error>,
    >)
        ensures
            (final(self)@, r) == detach_next(old(self)@, step, reply),
            final(self).registry_id == old(self).registry_id,
            final(self).device_descriptor == old(self).device_descriptor,
            final(self).config_descriptors == old(self).config_descriptors,
            final(self).speed == old(self).speed,
            final(self).active_config == old(self).active_config,
            final(self).claimed_interfaces == old(self).claimed_interfaces,
            final(self).state == (match (step, reply) {
                (DetachStep::Open { device }, DetachReply::Status(Ok(_))) => DeviceState {
                    connection: DeviceConnection { device, is_open_exclusive: true },
                    captured: true,
                },
                (DetachStep::Release { device, .. }, DetachReply::Status(released)) => DeviceState {
                    connection: DeviceConnection { device, is_open_exclusive: false },
                    captured: released is Err,
                },
                _ => old(self).state,
            }),
            r matches Next::Done(Ok(_)) ==> final(self).state.captured,
            old(self).wf() ==> final(self).wf(),
    {
        match (step, reply) {
            (DetachStep::FindService, DetachReply::Service(found)) => match found {
                Ok(_) => Next::Ask(DetachStep::EffectiveUser),
                Err(error) => Next::Done(Err(error)),
            },
            (DetachStep::EffectiveUser, DetachReply::EffectiveUser(user)) => if user != 0 {
                Next::Ask(DetachStep::Authorize)
            } else {
                Next::Ask(DetachStep::CreateDevice)
            },
            (DetachStep::Authorize, DetachReply::Status(authorized)) => match authorized {
                Ok(_) => Next::Ask(DetachStep::CreateDevice),
                Err(code) => Next::Done(
                    Err(
                        iokit_error(
                            code,
                            "failed to authorize USB device; capture requires root or the com.apple.vm.device-access entitlement",
                        ),
                    ),
                ),
            },
            (DetachStep::CreateDevice, DetachReply::Device(created)) => match created {
                Ok(device) => Next::Ask(DetachStep::CreateEventSource { device }),
                Err(error) => Next::Done(Err(error)),
            },
            (DetachStep::CreateEventSource { device }, DetachReply::Status(created)) => {
                match DeviceConnection::new(device, created) {
                    Ok(connection) => Next::Ask(DetachStep::Capture { device: connection.device }),
                    Err(error) => Next::Done(Err(error)),
                }
            },
            (DetachStep::Capture { device }, DetachReply::Status(captured)) => match captured {
                Ok(_) => Next::Ask(DetachStep::Open { device }),
                Err(code) => Next::Done(Err(iokit_error(code, "failed to capture USB device"))),
            },
            (DetachStep::Open { device }, DetachReply::Status(opened)) => {
                let mut connection = DeviceConnection { device, is_open_exclusive: false };
                match connection.open(opened) {
                    Ok(_) => {
                        self.state.connection = connection;
                        self.state.captured = true;
                        Next::Done(Ok(()))
                    },
                    Err(open_error) => Next::Ask(DetachStep::Release { device, open_error }),
                }
            },
            (DetachStep::Release { device, open_error }, DetachReply::Status(released)) => {
                // The capture itself succeeded, so the new connection is in use even though it
                // could not be opened. Where the release fails too, the device stays captured, so
                // that it can be released later.
                let mut connection = DeviceConnection { device, is_open_exclusive: false };
                match released {
                    Ok(_) => {
                        connection.mark_closed();
                        self.state.connection = connection;
                        self.state.captured = false;
                        Next::Done(
                            Err(
                                iokit_error(
                                    open_error,
                                    "failed to reopen USB device after capture",
                                ),
                            ),
                        )
                    },
                    Err(release_error) => {
                        self.state.connection = connection;
                        self.state.captured = true;
                        Next::Done(
                            Err(
                                iokit_error(
                                    release_error,
                                    "failed to release USB device after capture setup failed",
                                ),
                            ),
                        )
                    },
                }
            },
            _ => Next::Ask(step),
        }
    }
}

/// What the system answers to each call of one capture.
pub struct DetachReplies {
    pub service: Result<(), Error>,
    pub effective_user: u32,
    pub authorize: Result<(), IOReturn>,
    pub device: Result<u64, Error>,
    pub event_source: Result<(), IOReturn>,
    pub capture: Result<(), IOReturn>,
    pub open: Result<(), IOReturn>,
    pub release: Result<(), IOReturn>,
}

impl DetachReplies {
    /// The answer to what `step` asks.
    pub open spec fn answer(self, step: DetachStep) -> DetachReply {
        match step {
            DetachStep::FindService => DetachReply::Service(self.service),
            DetachStep::EffectiveUser => DetachReply::EffectiveUser(self.effective_user),
            DetachStep::Authorize => DetachReply::Status(self.authorize),
            DetachStep::CreateDevice => DetachReply::Device(self.device),
            DetachStep::CreateEventSource { .. } => DetachReply::Status(self.event_source),
            DetachStep::Capture { .. } => DetachReply::Status(self.capture),
            DetachStep::Open { .. } => DetachReply::Status(self.open),
            DetachStep::Release { .. } => DetachReply::Status(self.release),
        }
    }
}

/// How many calls can follow at most.
pub open spec fn detach_rank(next: Next<DetachStep, Result<(), Error>>) -> nat {
    match next {
        Next::Done(_) => 0,
        Next::Ask(DetachStep::FindService) => 8,
        Next::Ask(DetachStep::EffectiveUser) => 7,
        Next::Ask(DetachStep::Authorize) => 6,
        Next::Ask(DetachStep::CreateDevice) => 5,
        Next::Ask(DetachStep::CreateEventSource { .. }) => 4,
        Next::Ask(DetachStep::Capture { .. }) => 3,
        Next::Ask(DetachStep::Open { .. }) => 2,
        Next::Ask(DetachStep::Release { .. }) => 1,
    }
}

/// The device and the result once every question from `next` on is answered.
pub open spec fn detach_run(
    device: DeviceView,
    next: Next<DetachStep, Result<(), Error>>,
    replies: DetachReplies,
) -> (DeviceView, Result<(), Error>)
    decreases detach_rank(next),
{
    match next {
        Next::Done(result) => (device, result),
        Next::Ask(step) => {
            let (after, then_next) = detach_next(device, step, replies.answer(step));
            detach_run(after, then_next, replies)
        },
    }
}

/// The device and the result of capturing it, where the system answers with `replies`.
pub open spec fn detach_outcome(device: DeviceView, interface: u8, replies: DetachReplies) -> (
    DeviceView,
    Result<(), Error>,
) {
    if capture_check(device.configs, device.active_config, interface) is Err {
        (device, capture_check(device.configs, device.active_config, interface))
    } else if device.claimed_interfaces != 0 {
        (
            device,
            Err(
                Error::new(ErrorKind::Busy, "cannot capture device while interfaces are claimed"),
            ),
        )
    } else if device.state.captured {
        (device, Ok(()))
    } else if replies.service is Err {
        (device, Err(replies.service->Err_0))
    } else if replies.effective_user != 0 && replies.authorize is Err {
        (
            device,
            Err(
                iokit_error(
                    replies.authorize->Err_0,
                    "failed to authorize USB device; capture requires root or the com.apple.vm.device-access entitlement",
                ),
            ),
        )
    } else if replies.device is Err {
        (device, Err(replies.device->Err_0))
    } else if replies.event_source is Err {
        (
            device,
            Err(iokit_error(replies.event_source->Err_0, "failed to create async event source")),
        )
    } else if replies.capture is Err {
        (device, Err(iokit_error(replies.capture->Err_0, "failed to capture USB device")))
    } else if replies.open is Ok {
        (with_state(device, open_connection(replies.device->Ok_0), true), Ok(()))
    } else if replies.release is Ok {
        (
            with_state(device, closed_connection(replies.device->Ok_0), false),
            Err(iokit_error(replies.open->Err_0, "failed to reopen USB device after capture")),
        )
    } else {
        (
            with_state(device, closed_connection(replies.device->Ok_0), true),
            Err(
                iokit_error(
                    replies.release->Err_0,
                    "failed to release USB device after capture setup failed",
                ),
            ),
        )
    }
}

/// Carried through to its end, a capture comes out as `detach_outcome` says, and each of its
/// questions gets a reply of the right sort.
pub proof fn law_detach_outcome(device: DeviceView, interface: u8, replies: DetachReplies)
    ensures
        detach_run(device, detach_start(device, interface), replies) == detach_outcome(
            device,
            interface,
            replies,
        ),
        forall|step: DetachStep| detach_answers(step, #[trigger] replies.answer(step)),
{
    reveal_with_fuel(detach_run, 9);
}

/// A capture that succeeds leaves the device captured; one that fails does so only where the
/// device was captured before or a captured device could neither be opened nor released.
pub proof fn law_detach_captures(device: DeviceView, interface: u8, replies: DetachReplies)
    ensures
        ({
            let (after, result) = detach_outcome(device, interface, replies);
            &&& result is Ok ==> after.state.captured
            &&& result is Err && after.state.captured ==> device.state.captured || (
            replies.capture is Ok && replies.open is Err && replies.release is Err)
        }),
{
}

/// A capture changes only the connection and the capture state. It does so only once the system
/// has captured the device, and never while an interface is claimed.
pub proof fn law_detach_frame(device: DeviceView, interface: u8, replies: DetachReplies)
    ensures
        ({
            let (after, result) = detach_outcome(device, interface, replies);
            &&& after == DeviceView { state: after.state, ..device }
            &&& after.state != device.state ==> replies.capture is Ok && device.claimed_interfaces
                == 0
        }),
{
}

/// A device that is captured is not captured again: every further capture that is not refused
/// succeeds without a call.
pub proof fn law_detach_once(device: DeviceView, interface: u8)
    requires
        device.state.captured,
        device.claimed_interfaces == 0,
        capture_check(device.configs, device.active_config, interface) is Ok,
    ensures
        detach_start(device, interface) == Next::<DetachStep, Result<(), Error>>::Done(Ok(())),
{
}

/// After a capture that succeeded, a second one for any interface that can be captured succeeds
/// without a call.
pub proof fn law_detach_twice(
    device: DeviceView,
    first: u8,
    second: u8,
    replies: DetachReplies,
)
    requires
        detach_outcome(device, first, replies).1 is Ok,
        capture_check(device.configs, device.active_config, second) is Ok,
    ensures
        detach_start(detach_outcome(device, first, replies).0, second) == Next::<
            DetachStep,
            Result<(), Error>,
        >::Done(Ok(())),
{
}

/// Whether the system captures the device: the capture is not refused, and all goes well up to the
/// capture itself.
pub open spec fn detach_reaches_capture(
    device: DeviceView,
    interface: u8,
    replies: DetachReplies,
) -> bool {
    &&& capture_check(device.configs, device.active_config, interface) is Ok
    &&& device.claimed_interfaces == 0
    &&& !device.state.captured
    &&& replies.service is Ok
    &&& replies.effective_user == 0 || replies.authorize is Ok
    &&& replies.device is Ok
    &&& replies.event_source is Ok
    &&& replies.capture is Ok
}

/// Once the system has captured the device, the new connection takes the place of the one before,
/// and that one has to be closed where it holds the device open. Where the device was not captured
/// the connection stays, and nothing has to be closed.
pub proof fn law_detach_closes_the_connection_it_replaces(
    device: DeviceView,
    interface: u8,
    replies: DetachReplies,
)
    requires
        replies.device != Ok::<u64, Error>(device.state.connection.device),
    ensures
        ({
            let before = device.state.connection;
            let after = detach_outcome(device, interface, replies).0.state.connection;
            &&& connection_to_close(before, after) == (if detach_reaches_capture(
                device,
                interface,
                replies,
            ) && before.needs_close() {
                Some(before)
            } else {
                None
            })
            &&& detach_reaches_capture(device, interface, replies) ==> after.device
                == replies.device->Ok_0
            &&& !detach_reaches_capture(device, interface, replies) ==> after == before
        }),
{
}

/// Only a capture replaces the connection: releasing it, and using the device exclusively, keep
/// the device object, so that no connection has to be closed.
pub proof fn law_other_operations_keep_the_connection(
    device: DeviceView,
    request: ExclusiveRequest,
    open: Result<(), IOReturn>,
    perform: Result<(), IOReturn>,
)
    ensures
        connection_to_close(device.state.connection, released(device).state.connection) is None,
        connection_to_close(
            device.state.connection,
            exclusive_outcome(device, request, open, perform).0.state.connection,
        ) is None,
{
}

/// A captured device can be released, and releasing it takes the capture back: all that is left
/// of it is the new connection, which does not hold the device open.
pub proof fn law_attach_undoes_detach(
    device: DeviceView,
    interface: u8,
    replies: DetachReplies,
)
    requires
        !device.state.captured,
        detach_outcome(device, interface, replies).1 is Ok,
    ensures
        attach_check(detach_outcome(device, interface, replies).0) is Ok,
        released(detach_outcome(device, interface, replies).0) == with_state(
            device,
            closed_connection(replies.device->Ok_0),
            false,
        ),
{
}

/// A capture that could be neither finished nor rolled back can still be released.
pub proof fn law_failed_rollback_can_be_retried(
    device: DeviceView,
    interface: u8,
    replies: DetachReplies,
)
    requires
        detach_outcome(device, interface, replies).1 is Err,
        detach_outcome(device, interface, replies).0.state.captured,
        !device.state.captured,
    ensures
        attach_check(detach_outcome(device, interface, replies).0) is Ok,
{
}

/// A root process captures without authorization: what asking for it would return does not count.
pub proof fn law_root_needs_no_authorization(
    device: DeviceView,
    interface: u8,
    replies: DetachReplies,
    authorize: Result<(), IOReturn>,
)
    requires
        replies.effective_user == 0,
    ensures
        detach_outcome(device, interface, replies) == detach_outcome(
            device,
            interface,
            DetachReplies { authorize, ..replies },
        ),
{
}

/// While an interface is claimed the device is neither captured nor released nor used
/// exclusively.
pub proof fn law_claims_block_device_wide_operations(
    device: DeviceView,
    interface: u8,
    request: ExclusiveRequest,
)
    requires
        device.claimed_interfaces != 0,
    ensures
        detach_start(device, interface) matches Next::Done(Err(_)),
        attach_check(device) matches Err(error) && error.kind == ErrorKind::Busy,
        exclusive_start(device, request) matches Next::Done(Err(error)) && error.kind
            == ErrorKind::Busy,
        capture_check(device.configs, device.active_config, interface) is Ok ==> (detach_start(
            device,
            interface,
        ) matches Next::Done(Err(error)) && error.kind == ErrorKind::Busy),
{
}

/// What a capture starts with: a capture that cannot help the interface, or that would disturb
/// claimed interfaces, is refused, a captured device needs nothing, and any other is looked up.
pub proof fn law_detach_starts_only_where_it_can_help(device: DeviceView, interface: u8)
    ensures
        ({
            let check = capture_check(device.configs, device.active_config, interface);
            let start = detach_start(device, interface);
            &&& check matches Err(refused) ==> (start matches Next::Done(Err(error)) && error
                == refused)
            &&& check is Ok && device.claimed_interfaces != 0 ==> (start matches Next::Done(
                Err(error),
            ) && error == (Error {
                kind: ErrorKind::Busy,
                message: "cannot capture device while interfaces are claimed",
                code: None,
            }))
            &&& check is Ok && device.claimed_interfaces == 0 && device.state.captured ==> (
            start matches Next::Done(Ok(_)))
            &&& check is Ok && device.claimed_interfaces == 0 && !device.state.captured ==> start
                == Next::<DetachStep, Result<(), Error>>::Ask(DetachStep::FindService)
        }),
{
}

/// A reply to something else changes nothing, and the question stands.
pub proof fn law_detach_waits_for_its_reply(
    device: DeviceView,
    step: DetachStep,
    reply: DetachReply,
)
    requires
        match step {
            DetachStep::FindService => !(reply is Service),
            DetachStep::EffectiveUser => !(reply is EffectiveUser),
            DetachStep::Authorize => !(reply is Status),
            DetachStep::CreateDevice => !(reply is Device),
            DetachStep::CreateEventSource { .. } => !(reply is Status),
            DetachStep::Capture { .. } => !(reply is Status),
            DetachStep::Open { .. } => !(reply is Status),
            DetachStep::Release { .. } => !(reply is Status),
        },
    ensures
        detach_next(device, step, reply).0 == device,
        detach_next(device, step, reply).1 == Next::<DetachStep, Result<(), Error>>::Ask(step),
        !detach_answers(step, reply),
{
}

/// The calls that are made from `next` on, in order.
pub open spec fn detach_calls(
    device: DeviceView,
    next: Next<DetachStep, Result<(), Error>>,
    replies: DetachReplies,
) -> Seq<DetachStep>
    decreases detach_rank(next),
{
    match next {
        Next::Done(_) => Seq::empty(),
        Next::Ask(step) => {
            let (after, then_next) = detach_next(device, step, replies.answer(step));
            seq![step] + detach_calls(after, then_next, replies)
        },
    }
}

/// The calls of a capture that was not refused, up to the creation of the new device object: the
/// user is asked for an authorization exactly where the process is not root's.
pub open spec fn calls_up_to_creation(effective_user: u32) -> Seq<DetachStep> {
    if effective_user == 0 {
        seq![DetachStep::FindService, DetachStep::EffectiveUser, DetachStep::CreateDevice]
    } else {
        seq![
            DetachStep::FindService,
            DetachStep::EffectiveUser,
            DetachStep::Authorize,
            DetachStep::CreateDevice,
        ]
    }
}

/// The calls of a capture, one after another, each made once the one before it succeeded. All that
/// follow the creation of the new device object are made on that object. A captured device that
/// cannot be opened is released, and nothing else is ever released.
pub proof fn law_detach_makes_its_calls_in_order(
    device: DeviceView,
    interface: u8,
    replies: DetachReplies,
)
    ensures
        ({
            let start = detach_start(device, interface);
            let calls = detach_calls(device, start, replies);
            let created = calls_up_to_creation(replies.effective_user);
            let new = replies.device->Ok_0;
            if !(start is Ask) {
                calls.len() == 0
            } else if replies.service is Err {
                calls == seq![DetachStep::FindService]
            } else if replies.effective_user != 0 && replies.authorize is Err {
                calls == seq![
                    DetachStep::FindService,
                    DetachStep::EffectiveUser,
                    DetachStep::Authorize,
                ]
            } else if replies.device is Err {
                calls == created
            } else if replies.event_source is Err {
                calls == created + seq![DetachStep::CreateEventSource { device: new }]
            } else if replies.capture is Err {
                calls == created + seq![
                    DetachStep::CreateEventSource { device: new },
                    DetachStep::Capture { device: new },
                ]
            } else if replies.open is Ok {
                calls == created + seq![
                    DetachStep::CreateEventSource { device: new },
                    DetachStep::Capture { device: new },
                    DetachStep::Open { device: new },
                ]
            } else {
                calls == created + seq![
                    DetachStep::CreateEventSource { device: new },
                    DetachStep::Capture { device: new },
                    DetachStep::Open { device: new },
                    DetachStep::Release { device: new, open_error: replies.open->Err_0 },
                ]
            }
        }),
{
    reveal_with_fuel(detach_calls, 9);
}

/// What comes of a capture. It succeeds exactly where all its calls do, and then the device is
/// captured and held open through the new device object. Where one fails before the device is
/// captured, the device is as it was. Where the captured device cannot be opened, the new device
/// object stays in use without being open, and the device is captured still only where it cannot
/// be released either. An error has the code of the call that failed.
pub proof fn law_detach_tells_what_failed(
    device: DeviceView,
    interface: u8,
    replies: DetachReplies,
)
    requires
        capture_check(device.configs, device.active_config, interface) is Ok,
        device.claimed_interfaces == 0,
        !device.state.captured,
    ensures
        ({
            let (after, result) = detach_run(device, detach_start(device, interface), replies);
            let authorized = replies.effective_user == 0 || replies.authorize is Ok;
            let captured = replies.service is Ok && authorized && replies.device is Ok
                && replies.event_source is Ok && replies.capture is Ok;
            &&& result is Ok <==> captured && replies.open is Ok
            &&& !captured ==> after == device
            &&& captured ==> {
                &&& after.state.connection.device == replies.device->Ok_0
                &&& after.state.connection.is_open_exclusive <==> replies.open is Ok
                &&& after.state.captured <==> replies.open is Ok || replies.release is Err
                &&& after == (DeviceView { state: after.state, ..device })
            }
            &&& replies.service matches Err(cause) ==> (result matches Err(error) && error == cause)
            &&& replies.service is Ok && !authorized ==> (result matches Err(error) && error.code
                == Some(replies.authorize->Err_0) && error.kind == iokit_error(
                replies.authorize->Err_0,
                "",
            ).kind && error.message
                == "failed to authorize USB device; capture requires root or the com.apple.vm.device-access entitlement")
            &&& replies.service is Ok && authorized ==> (replies.device matches Err(cause)
                ==> result matches Err(error) && error == cause)
            &&& replies.service is Ok && authorized && replies.device is Ok ==> (
            replies.event_source matches Err(code) ==> result matches Err(error) && error.code
                == Some(code) && error.kind == iokit_error(code, "").kind && error.message
                == "failed to create async event source")
            &&& replies.service is Ok && authorized && replies.device is Ok && replies.event_source
                is Ok ==> (replies.capture matches Err(code) ==> result matches Err(error)
                && error.code == Some(code) && error.kind == iokit_error(code, "").kind
                && error.message == "failed to capture USB device")
            &&& captured && replies.open is Err && replies.release is Ok ==> (result matches Err(
                error,
            ) && error.code == Some(replies.open->Err_0) && error.kind == iokit_error(
                replies.open->Err_0,
                "",
            ).kind && error.message == "failed to reopen USB device after capture")
            &&& captured && replies.open is Err ==> (replies.release matches Err(code)
                ==> result matches Err(error) && error.code == Some(code) && error.kind
                == iokit_error(code, "").kind && error.message
                == "failed to release USB device after capture setup failed")
        }),
{
    reveal_with_fuel(detach_run, 9);
}

} // verus!
