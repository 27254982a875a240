//! An open device and the operations that need it to themselves.
use crate::connection::{closed_connection, open_connection, DeviceConnection};
use crate::descriptors::{
    bytes_of, is_configuration, ConfigurationDescriptor, DeviceDescriptor,
};
use crate::error::{iokit_error, Error, ErrorKind};
use crate::ret::IOReturn;
use crate::step::Next;
use vstd::prelude::*;

verus! {

/// The speed at which a device is connected.
#[derive(Clone, Copy, Debug, PartialEq, Eq, Structural)]
pub enum Speed {
    /// 1.5 Mbit/s.
    Low,
    /// 12 Mbit/s.
    Full,
    /// 480 Mbit/s.
    High,
    /// 5 Gbit/s.
    Super,
    /// 10 Gbit/s.
    SuperPlus,
}

/// The part of a device's state that capture changes.
#[derive(Clone, Copy, Debug, PartialEq, Eq)]
pub struct DeviceState {
    /// The connection in use.
    pub connection: DeviceConnection,
    /// Whether the device is captured from its kernel drivers.
    pub captured: bool,
}

/// An open device.
#[derive(Debug)]
pub struct MacDevice {
    /// By this number the system finds the device again.
    pub registry_id: u64,
    /// The connection, and whether the device is captured.
    pub state: DeviceState,
    /// The device descriptor.
    pub device_descriptor: DeviceDescriptor,
    /// The configurations, each with the descriptors that belong to it.
    pub config_descriptors: Vec<Vec<u8>>,
    /// The speed of the connection, where it is known.
    pub speed: Option<Speed>,
    /// `bConfigurationValue` of the active configuration.
    pub active_config: u8,
    /// How many interfaces are claimed.
    pub claimed_interfaces: usize,
}

/// What a device is, with its configurations as plain bytes.
#[verifier::ext_equal]
pub struct DeviceView {
    pub registry_id: u64,
    pub state: DeviceState,
    pub device_descriptor: DeviceDescriptor,
    pub configs: Seq<Seq<u8>>,
    pub speed: Option<Speed>,
    pub active_config: u8,
    pub claimed_interfaces: usize,
}

impl DeviceView {
    /// Whether every configuration is whole.
    pub open spec fn wf(self) -> bool {
        forall|i: int| 0 <= i < self.configs.len() ==> is_configuration(#[trigger] self.configs[i])
    }
}

impl View for MacDevice {
    type V = DeviceView;

    open spec fn view(&self) -> DeviceView {
        DeviceView {
            registry_id: self.registry_id,
            state: self.state,
            device_descriptor: self.device_descriptor,
            configs: bytes_of(self.config_descriptors@),
            speed: self.speed,
            active_config: self.active_config,
            claimed_interfaces: self.claimed_interfaces,
        }
    }
}

/// Whether releasing a captured device can be asked of the system, and the error where not.
pub open spec fn attach_check(device: DeviceView) -> Result<(), Error> {
    if device.claimed_interfaces != 0 {
        Err(
            Error::new(
                ErrorKind::Busy,
                "cannot release captured device while interfaces are claimed",
            ),
        )
    } else if !device.state.captured {
        Err(Error::new(ErrorKind::Busy, "USB device is not captured"))
    } else {
        Ok(())
    }
}

/// The device after its capture was released.
pub open spec fn released(device: DeviceView) -> DeviceView {
    DeviceView {
        state: DeviceState {
            connection: closed_connection(device.state.connection.device),
            captured: false,
        },
        ..device
    }
}

/// A request that needs the device open for exclusive access.
#[derive(Clone, Copy, Debug, PartialEq, Eq, Structural)]
pub enum ExclusiveRequest {
    /// Select the configuration with this value.
    SetConfiguration(u8),
    /// Reset the device.
    Reset,
}

/// A call that an exclusive request asks for.
#[derive(Clone, Copy, Debug, PartialEq, Eq, Structural)]
pub enum ExclusiveStep {
    /// Open the device of the current connection for exclusive access.
    Open(ExclusiveRequest),
    /// Make the request of the device.
    Perform(ExclusiveRequest),
}

/// Whether the device may be used exclusively, and the error where not.
pub open spec fn exclusive_check(device: DeviceView) -> Result<(), Error> {
    if device.claimed_interfaces != 0 {
        Err(
            Error::new(
                ErrorKind::Busy,
                "cannot perform this operation while interfaces are claimed",
            ),
        )
    } else {
        Ok(())
    }
}

/// The device and the result of making sure that it is open for exclusive access, where opening
/// it returns `open`.
pub open spec fn exclusive_open(device: DeviceView, open: Result<(), IOReturn>) -> (
    DeviceView,
    Result<(), Error>,
) {
    match exclusive_check(device) {
        Err(error) => (device, Err(error)),
        Ok(_) => if !device.state.connection.needs_open() {
            (device, Ok(()))
        } else {
            match open {
                Ok(_) => (with_exclusive_access(device), Ok(())),
                Err(code) => (
                    device,
                    Err(iokit_error(code, "could not open device for exclusive access")),
                ),
            }
        },
    }
}

/// The device with its connection holding it open.
pub open spec fn with_exclusive_access(device: DeviceView) -> DeviceView {
    DeviceView {
        state: DeviceState {
            connection: open_connection(device.state.connection.device),
            ..device.state
        },
        ..device
    }
}

/// The device and the result of a request, where the device returned `reply` to it.
pub open spec fn exclusive_done(
    device: DeviceView,
    request: ExclusiveRequest,
    reply: Result<(), IOReturn>,
) -> (DeviceView, Result<(), Error>) {
    match (request, reply) {
        (ExclusiveRequest::SetConfiguration(configuration), Ok(_)) => (
            DeviceView { active_config: configuration, ..device },
            Ok(()),
        ),
        (ExclusiveRequest::SetConfiguration(_), Err(code)) => (
            device,
            Err(iokit_error(code, "failed to set configuration")),
        ),
        (ExclusiveRequest::Reset, Ok(_)) => (device, Ok(())),
        (ExclusiveRequest::Reset, Err(code)) => (
            device,
            Err(iokit_error(code, "failed to reset device")),
        ),
    }
}

/// What an exclusive request starts with.
pub open spec fn exclusive_start(device: DeviceView, request: ExclusiveRequest) -> Next<
    ExclusiveStep,
    Result<(), Error>,
> {
    match exclusive_check(device) {
        Err(error) => Next::Done(Err(error)),
        Ok(_) => if device.state.connection.needs_open() {
            Next::Ask(ExclusiveStep::Open(request))
        } else {
            Next::Ask(ExclusiveStep::Perform(request))
        },
    }
}

/// The device after the call that `step` asks for returned `reply`, and what comes next.
pub open spec fn exclusive_next(
    device: DeviceView,
    step: ExclusiveStep,
    reply: Result<(), IOReturn>,
) -> (DeviceView, Next<ExclusiveStep, Result<(), Error>>) {
    match step {
        ExclusiveStep::Open(request) => match exclusive_open(device, reply) {
            (opened, Ok(_)) => (opened, Next::Ask(ExclusiveStep::Perform(request))),
            (unopened, Err(error)) => (unopened, Next::Done(Err(error))),
        },
        ExclusiveStep::Perform(request) => {
            let (after, result) = exclusive_done(device, request, reply);
            (after, Next::Done(result))
        },
    }
}

impl MacDevice {
    /// Whether every configuration is whole.
    pub open spec fn wf(self) -> bool {
        self@.wf()
    }

    /// The device descriptor.
    pub fn device_descriptor(&self) -> (r: DeviceDescriptor)
        ensures
            r == self@.device_descriptor,
            r == self.device_descriptor,
    {
        self.device_descriptor
    }

    /// The speed at which the device is connected, where it is known.
    pub fn speed(&self) -> (r: Option<Speed>)
        ensures
            r == self@.speed,
            r == self.speed,
    {
        self.speed
    }

    /// `bConfigurationValue` of the active configuration.
    pub fn active_configuration_value(&self) -> (r: u8)
        ensures
            r == self@.active_config,
            r == self.active_config,
    {
        self.active_config
    }

    /// The configurations of the device.
    pub fn configuration_descriptors(&self) -> (r: Vec<ConfigurationDescriptor<'_>>)
        ensures
            r@.map_values(|config: ConfigurationDescriptor<'_>| config@) == self@.configs,
            r@.len() == self.config_descriptors@.len(),
            forall|i: int|
                0 <= i < r@.len() ==> (#[trigger] r@[i]).bytes@ == self.config_descriptors@[i]@,
    {
        let mut configs: Vec<ConfigurationDescriptor<'_>> = Vec::new();
        for index in 0..self.config_descriptors.len()
            invariant
                configs@.len() == index,
                forall|i: int|
                    0 <= i < index ==> (#[trigger] configs@[i])@ == self.config_descriptors@[i]@,
        {
            configs.push(
                ConfigurationDescriptor::new_unchecked(self.config_descriptors[index].as_slice()),
            );
        }
        configs
    }

    /// Tests whether `attach_kernel_driver` may ask the system to release the device.
    pub fn attach_allowed(&self) -> (r: Result<(), Error>)
        ensures
            r == attach_check(self@),
            r is Ok <==> self.state.captured && self.claimed_interfaces == 0,
            r matches Err(error) ==> error.kind == ErrorKind::Busy && error.code is None,
    {
        if self.claimed_interfaces != 0 {
            return Err(
                Error::new(
                    ErrorKind::Busy,
                    "cannot release captured device while interfaces are claimed",
                ),
            );
        }
        if !self.state.captured {
            return Err(Error::new(ErrorKind::Busy, "USB device is not captured"));
        }
        Ok(())
    }

    /// Releases the capture of the whole device, given what asking the system for it returned.
    ///
    /// Where `attach_allowed` fails, nothing is asked of the system, and `release` does not count.
    /// The interface number does not count either: capture is device-wide.
    pub fn attach_kernel_driver(&mut self, _interface: u8, release: Result<(), IOReturn>) -> (r:
        Result<(), Error>)
        ensures
            r == (match (attach_check(old(self)@), release) {
                (Err(error), _) => Err::<(), Error>(error),
                (Ok(_), Err(code)) => Err(
                    iokit_error(code, "failed to release captured USB device"),
                ),
                (Ok(_), Ok(_)) => Ok(()),
            }),
            final(self)@ == (if r is Ok {
                released(old(self)@)
            } else {
                old(self)@
            }),
            r is Ok <==> old(self).state.captured && old(self).claimed_interfaces == 0 && release
                is Ok,
            r is Ok ==> !final(self).state.captured
                && !final(self).state.connection.is_open_exclusive,
            r is Err ==> final(self).state == old(self).state,
            final(self).state.connection.device == old(self).state.connection.device,
            old(self).state.captured && old(self).claimed_interfaces == 0 ==> (release matches Err(
                code,
            ) ==> r matches Err(error) && error.code == Some(code)),
            final(self).active_config == old(self).active_config,
            final(self).registry_id == old(self).registry_id,
            final(self).device_descriptor == old(self).device_descriptor,
            final(self).config_descriptors == old(self).config_descriptors,
            final(self).speed == old(self).speed,
            final(self).claimed_interfaces == old(self).claimed_interfaces,
    {
        match self.attach_allowed() {
            Err(error) => {
                return Err(error);
            },
            Ok(_) => {},
        }
        match release {
            Err(code) => {
                return Err(iokit_error(code, "failed to release captured USB device"));
            },
            Ok(_) => {},
        }
        self.state.connection.mark_closed();
        self.state.captured = false;
        Ok(())
    }

    /// Tests whether the device may be used exclusively.
    pub fn exclusive_allowed(&self) -> (r: Result<(), Error>)
        ensures
            r == exclusive_check(self@),
            r is Ok <==> self.claimed_interfaces == 0,
            r matches Err(error) ==> error.kind == ErrorKind::Busy && error.code is None,
    {
        if self.claimed_interfaces != 0 {
            return Err(
                Error::new(
                    ErrorKind::Busy,
                    "cannot perform this operation while interfaces are claimed",
                ),
            );
        }
        Ok(())
    }

    /// Makes sure that the device is open for exclusive access, given what opening it returned.
    ///
    /// Where exclusive use is not allowed, or the device is open already, it is not opened, and
    /// `open` does not count.
    pub fn require_open_exclusive(&mut self, open: Result<(), IOReturn>) -> (r: Result<(), Error>)
        ensures
            (final(self)@, r) == exclusive_open(old(self)@, open),
            r is Ok <==> old(self).claimed_interfaces == 0 && (
            old(self).state.connection.is_open_exclusive || open is Ok),
            final(self).state.connection.is_open_exclusive <==> (
            old(self).state.connection.is_open_exclusive || r is Ok),
            final(self).state.connection.device == old(self).state.connection.device,
            final(self).state.captured == old(self).state.captured,
            final(self).active_config == old(self).active_config,
            final(self).registry_id == old(self).registry_id,
            final(self).device_descriptor == old(self).device_descriptor,
            final(self).config_descriptors == old(self).config_descriptors,
            final(self).speed == old(self).speed,
            final(self).claimed_interfaces == old(self).claimed_interfaces,
    {
        match self.exclusive_allowed() {
            Err(error) => {
                return Err(error);
            },
            Ok(_) => {},
        }
        match self.state.connection.open(open) {
            Ok(_) => Ok(()),
            Err(code) => Err(iokit_error(code, "could not open device for exclusive access")),
        }
    }

    fn start_exclusive(&self, request: ExclusiveRequest) -> (r: Next<
        ExclusiveStep,
        Result<(), Error>,
    >)
        ensures
            r == exclusive_start(self@, request),
            r matches Next::Done(result) ==> result is Err && self.claimed_interfaces != 0,
            self.claimed_interfaces == 0 ==> r == Next::<ExclusiveStep, Result<(), Error>>::Ask(
                if self.state.connection.is_open_exclusive {
                    ExclusiveStep::Perform(request)
                } else {
                    ExclusiveStep::Open(request)
                },
            ),
    {
        match self.exclusive_allowed() {
            Err(error) => Next::Done(Err(error)),
            Ok(_) => if self.state.connection.needs_open() {
                Next::Ask(ExclusiveStep::Open(request))
            } else {
                Next::Ask(ExclusiveStep::Perform(request))
            },
        }
    }

    /// Starts to select the configuration with the value `configuration`.
    pub fn set_configuration(&self, configuration: u8) -> (r: Next<
        ExclusiveStep,
        Result<(), Error>,
    >)
        ensures
            r == exclusive_start(self@, ExclusiveRequest::SetConfiguration(configuration)),
            r matches Next::Done(result) ==> result is Err && self.claimed_interfaces != 0,
            self.claimed_interfaces == 0 ==> r == Next::<ExclusiveStep, Result<(), Error>>::Ask(
                if self.state.connection.is_open_exclusive {
                    ExclusiveStep::Perform(ExclusiveRequest::SetConfiguration(configuration))
                } else {
                    ExclusiveStep::Open(ExclusiveRequest::SetConfiguration(configuration))
                },
            ),
    {
        self.start_exclusive(ExclusiveRequest::SetConfiguration(configuration))
    }

    /// Starts to reset the device.
    pub fn reset(&self) -> (r: Next<ExclusiveStep, Result<(), Error>>)
        ensures
            r == exclusive_start(self@, ExclusiveRequest::Reset),
            r matches Next::Done(result) ==> result is Err && self.claimed_interfaces != 0,
            self.claimed_interfaces == 0 ==> r == Next::<ExclusiveStep, Result<(), Error>>::Ask(
                if self.state.connection.is_open_exclusive {
                    ExclusiveStep::Perform(ExclusiveRequest::Reset)
                } else {
                    ExclusiveStep::Open(ExclusiveRequest::Reset)
                },
            ),
    {
        self.start_exclusive(ExclusiveRequest::Reset)
    }

    /// Goes on with an exclusive request after the call that `step` asks for returned `reply`.
    pub fn exclusive_step(&mut self, step: ExclusiveStep, reply: Result<(), IOReturn>) -> (r: Next<
        ExclusiveStep,
        Result<(), Error>,
    >)
        ensures
            (final(self)@, r) == exclusive_next(old(self)@, step, reply),
            r matches Next::Ask(asked) ==> (step matches ExclusiveStep::Open(request) && asked
                == ExclusiveStep::Perform(request)),
            step is Perform ==> (r matches Next::Done(result) && (result is Ok <==> reply is Ok)
                && final(self).state == old(self).state),
            final(self).active_config == (match (step, reply) {
                (ExclusiveStep::Perform(ExclusiveRequest::SetConfiguration(configuration)), Ok(_)) =>
                configuration,
                _ => old(self).active_config,
            }),
            final(self).state.captured == old(self).state.captured,
            final(self).state.connection.device == old(self).state.connection.device,
            final(self).registry_id == old(self).registry_id,
            final(self).device_descriptor == old(self).device_descriptor,
            final(self).config_descriptors == old(self).config_descriptors,
            final(self).speed == old(self).speed,
            final(self).claimed_interfaces == old(self).claimed_interfaces,
    {
        match step {
            ExclusiveStep::Open(request) => match self.require_open_exclusive(reply) {
                Ok(_) => Next::Ask(ExclusiveStep::Perform(request)),
                Err(error) => Next::Done(Err(error)),
            },
            ExclusiveStep::Perform(ExclusiveRequest::SetConfiguration(configuration)) => {
                match reply {
                    Ok(_) => {
                        self.active_config = configuration;
                        Next::Done(Ok(()))
                    },
                    Err(code) => Next::Done(
                        Err(iokit_error(code, "failed to set configuration")),
                    ),
                }
            },
            ExclusiveStep::Perform(ExclusiveRequest::Reset) => match reply {
                Ok(_) => Next::Done(Ok(())),
                Err(code) => Next::Done(Err(iokit_error(code, "failed to reset device"))),
            },
        }
    }
}

/// How many calls can follow at most.
pub open spec fn exclusive_rank(next: Next<ExclusiveStep, Result<(), Error>>) -> nat {
    match next {
        Next::Done(_) => 0,
        Next::Ask(ExclusiveStep::Open(_)) => 2,
        Next::Ask(ExclusiveStep::Perform(_)) => 1,
    }
}

/// The device and the result once every question of an exclusive request from `next` on is
/// answered: opening the device returns `open`, the request itself returns `perform`.
pub open spec fn exclusive_run(
    device: DeviceView,
    next: Next<ExclusiveStep, Result<(), Error>>,
    open: Result<(), IOReturn>,
    perform: Result<(), IOReturn>,
) -> (DeviceView, Result<(), Error>)
    decreases exclusive_rank(next),
{
    match next {
        Next::Done(result) => (device, result),
        Next::Ask(step) => {
            let reply = if step is Open {
                open
            } else {
                perform
            };
            let (after, then_next) = exclusive_next(device, step, reply);
            exclusive_run(after, then_next, open, perform)
        },
    }
}

/// The device and the result of an exclusive request: the device is made sure to be open, and
/// only then is the request made.
pub open spec fn exclusive_outcome(
    device: DeviceView,
    request: ExclusiveRequest,
    open: Result<(), IOReturn>,
    perform: Result<(), IOReturn>,
) -> (DeviceView, Result<(), Error>) {
    match exclusive_open(device, open) {
        (unopened, Err(error)) => (unopened, Err(error)),
        (opened, Ok(_)) => exclusive_done(opened, request, perform),
    }
}

/// Carried through to its end, an exclusive request comes out as `exclusive_outcome` says.
pub proof fn law_exclusive_outcome(
    device: DeviceView,
    request: ExclusiveRequest,
    open: Result<(), IOReturn>,
    perform: Result<(), IOReturn>,
)
    ensures
        exclusive_run(device, exclusive_start(device, request), open, perform)
            == exclusive_outcome(device, request, open, perform),
{
    reveal_with_fuel(exclusive_run, 4);
}

/// The active configuration is the one that was last selected with success, and a request that
/// fails leaves it as it was.
pub proof fn law_active_configuration_follows_success(
    device: DeviceView,
    configuration: u8,
    open: Result<(), IOReturn>,
    perform: Result<(), IOReturn>,
)
    ensures
        ({
            let (after, result) = exclusive_outcome(
                device,
                ExclusiveRequest::SetConfiguration(configuration),
                open,
                perform,
            );
            after.active_config == if result is Ok {
                configuration
            } else {
                device.active_config
            }
        }),
{
}

/// A device stays open for exclusive access: after one exclusive request that got as far as the
/// device, the next one goes to the device without opening it.
pub proof fn law_exclusive_access_is_kept(
    device: DeviceView,
    first: ExclusiveRequest,
    second: ExclusiveRequest,
    open: Result<(), IOReturn>,
    perform: Result<(), IOReturn>,
)
    requires
        exclusive_open(device, open).1 is Ok,
    ensures
        exclusive_start(exclusive_outcome(device, first, open, perform).0, second) == Next::<
            ExclusiveStep,
            Result<(), Error>,
        >::Ask(ExclusiveStep::Perform(second)),
{
}

/// After a capture was released, the next exclusive request opens the device again.
pub proof fn law_released_device_is_opened_again(device: DeviceView, request: ExclusiveRequest)
    requires
        attach_check(device) is Ok,
    ensures
        exclusive_start(released(device), request) == Next::<
            ExclusiveStep,
            Result<(), Error>,
        >::Ask(ExclusiveStep::Open(request)),
{
}

/// A capture is released once: a device that is not captured cannot be released.
pub proof fn law_released_once(device: DeviceView)
    ensures
        attach_check(released(device)) matches Err(error) && error.kind == ErrorKind::Busy,
{
}

/// The view of a device shows all that it holds.
pub proof fn law_view_shows_the_device(device: MacDevice)
    ensures
        device@.registry_id == device.registry_id,
        device@.state == device.state,
        device@.device_descriptor == device.device_descriptor,
        device@.configs.len() == device.config_descriptors@.len(),
        forall|i: int|
            0 <= i < device@.configs.len() ==> #[trigger] device@.configs[i]
                == device.config_descriptors@[i]@,
        device@.speed == device.speed,
        device@.active_config == device.active_config,
        device@.claimed_interfaces == device.claimed_interfaces,
{
}

/// A capture can be released exactly where there is one and no interface is claimed. Releasing it
/// keeps the device object, which it leaves closed, and everything but the connection and the
/// capture itself.
pub proof fn law_release_needs_a_capture_and_no_claims(device: DeviceView)
    ensures
        attach_check(device) is Ok <==> device.state.captured && device.claimed_interfaces == 0,
        device.claimed_interfaces != 0 ==> (attach_check(device) matches Err(error) && error == (
        Error {
            kind: ErrorKind::Busy,
            message: "cannot release captured device while interfaces are claimed",
            code: None,
        })),
        device.claimed_interfaces == 0 && !device.state.captured ==> (attach_check(
            device,
        ) matches Err(error) && error == (Error {
            kind: ErrorKind::Busy,
            message: "USB device is not captured",
            code: None,
        })),
        !released(device).state.captured,
        !released(device).state.connection.is_open_exclusive,
        released(device).state.connection.device == device.state.connection.device,
        released(device) == (DeviceView { state: released(device).state, ..device }),
{
}

/// The calls that are made from `next` on, in order.
pub open spec fn exclusive_calls(
    device: DeviceView,
    next: Next<ExclusiveStep, Result<(), Error>>,
    open: Result<(), IOReturn>,
    perform: Result<(), IOReturn>,
) -> Seq<ExclusiveStep>
    decreases exclusive_rank(next),
{
    match next {
        Next::Done(_) => Seq::empty(),
        Next::Ask(step) => {
            let reply = if step is Open {
                open
            } else {
                perform
            };
            let (after, then_next) = exclusive_next(device, step, reply);
            seq![step] + exclusive_calls(after, then_next, open, perform)
        },
    }
}

/// What comes of an exclusive request, and by which calls. While interfaces are claimed nothing is
/// asked. Otherwise the device is opened, where it is not open already, and once it is open, that
/// very request is made of it. The request succeeds exactly where all its calls do, and an error
/// has the code of the call that failed. Nothing changes but that the device stays open, and that
/// a configuration which was set with success is the active one.
pub proof fn law_exclusive_request_opens_and_performs(
    device: DeviceView,
    request: ExclusiveRequest,
    open: Result<(), IOReturn>,
    perform: Result<(), IOReturn>,
)
    ensures
        ({
            let start = exclusive_start(device, request);
            let calls = exclusive_calls(device, start, open, perform);
            let (after, result) = exclusive_run(device, start, open, perform);
            let was_open = device.state.connection.is_open_exclusive;
            &&& device.claimed_interfaces != 0 ==> {
                &&& calls.len() == 0
                &&& after == device
                &&& result matches Err(error) && error == (Error {
                    kind: ErrorKind::Busy,
                    message: "cannot perform this operation while interfaces are claimed",
                    code: None,
                })
            }
            &&& device.claimed_interfaces == 0 && was_open ==> calls == seq![
                ExclusiveStep::Perform(request),
            ]
            &&& device.claimed_interfaces == 0 && !was_open && open is Ok ==> calls == seq![
                ExclusiveStep::Open(request),
                ExclusiveStep::Perform(request),
            ]
            &&& device.claimed_interfaces == 0 && !was_open ==> (open matches Err(code) ==> {
                &&& calls == seq![ExclusiveStep::Open(request)]
                &&& after == device
                &&& result matches Err(error) && error.code == Some(code) && error.kind
                    == iokit_error(code, "").kind && error.message
                    == "could not open device for exclusive access"
            })
            &&& device.claimed_interfaces == 0 && (was_open || open is Ok) ==> {
                &&& result is Ok <==> perform is Ok
                &&& perform matches Err(code) ==> (result matches Err(error) && error.code == Some(
                    code,
                ) && error.kind == iokit_error(code, "").kind && error.message == (
                if request is Reset {
                    "failed to reset device"
                } else {
                    "failed to set configuration"
                }))
                &&& after.state.connection.is_open_exclusive
            }
            &&& after.state.connection.device == device.state.connection.device
            &&& after.state.captured == device.state.captured
            &&& after == (DeviceView {
                state: after.state,
                active_config: after.active_config,
                ..device
            })
            &&& after.active_config == (match request {
                ExclusiveRequest::SetConfiguration(configuration) if result is Ok => configuration,
                _ => device.active_config,
            })
        }),
{
    reveal_with_fuel(exclusive_run, 4);
    reveal_with_fuel(exclusive_calls, 4);
    let start = exclusive_start(device, request);
    let calls = exclusive_calls(device, start, open, perform);
    if device.claimed_interfaces == 0 {
        if device.state.connection.is_open_exclusive {
            assert(calls =~= seq![ExclusiveStep::Perform(request)]);
        } else if open is Ok {
            assert(calls =~= seq![ExclusiveStep::Open(request), ExclusiveStep::Perform(request)]);
        } else {
            assert(calls =~= seq![ExclusiveStep::Open(request)]);
        }
    }
}

/// Making sure that the device is open is no more than that: an open device is left as it is,
/// whatever opening it again would return, and one that cannot be opened is left closed.
pub proof fn law_opening_is_not_repeated(device: DeviceView, open: Result<(), IOReturn>)
    ensures
        ({
            let (after, result) = exclusive_open(device, open);
            let was_open = device.state.connection.is_open_exclusive;
            &&& result is Ok <==> device.claimed_interfaces == 0 && (was_open || open is Ok)
            &&& after.state.connection.is_open_exclusive <==> was_open || result is Ok
            &&& after.state.connection.device == device.state.connection.device
            &&& after.state.captured == device.state.captured
            &&& after == (DeviceView { state: after.state, ..device })
            &&& device.claimed_interfaces == 0 && !was_open ==> (open matches Err(code)
                ==> result matches Err(error) && error.code == Some(code))
        }),
{
}

} // verus!
