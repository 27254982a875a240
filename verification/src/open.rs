//! Opening a device.
use crate::connection::{closed_connection, open_connection, DeviceConnection};
use crate::descriptors::{
    bytes_of, configuration_value, is_configuration, ConfigurationDescriptor, DeviceDescriptor,
};
use crate::device::{DeviceState, DeviceView, MacDevice, Speed};
use crate::error::{iokit_error, Error, ErrorKind};
use crate::ret::IOReturn;
use crate::step::Next;
use vstd::prelude::*;

verus! {

/// What is known of a device before it is opened.
#[derive(Clone, Copy, Debug, PartialEq, Eq)]
pub struct DeviceInfo {
    /// By this number the system finds the device.
    pub registry_id: u64,
    /// The speed at which the device is connected, where it is known.
    pub speed: Option<Speed>,
}

/// The value of the active configuration, where it can be told without asking the device.
///
/// Asking the device takes a transfer. It is not needed where the device has a single
/// configuration, which could be read, and is configured, as a device that shows an interface is.
/// A device that reports more configurations is asked, even where only one of them could be read:
/// the active one may be among the others.
pub open spec fn guessed_config(
    count: u8,
    configs: Seq<Seq<u8>>,
    has_interface: bool,
) -> Option<u8> {
    if count == 1 && configs.len() == 1 && has_interface && configs[0].len() > 5 {
        Some(configuration_value(configs[0]))
    } else {
        None
    }
}

/// Tells the value of the active configuration without asking the device, given how many
/// configurations the device has, those that could be read, and whether it shows an interface.
pub fn guess_active_config(count: u8, configs: &[Vec<u8>], has_interface: bool) -> (r: Option<u8>)
    ensures
        r == guessed_config(count, bytes_of(configs@), has_interface),
        r is Some <==> count == 1 && has_interface && configs@.len() == 1 && configs@[0]@.len() > 5,
        r matches Some(value) ==> value == configs@[0]@[5],
{
    if count != 1 || configs.len() != 1 {
        return None;
    }
    assert(bytes_of(configs@)[0] == configs@[0]@);
    if has_interface && configs[0].len() > 5 {
        Some(configs[0][5])
    } else {
        None
    }
}

/// A device that is being opened: what is known of it, and the call that is to be made next.
#[derive(Debug)]
pub struct Opening {
    /// What was known before.
    pub info: DeviceInfo,
    /// The next call.
    pub step: OpenStep,
}

/// A call that opening a device asks for.
#[derive(Debug)]
pub enum OpenStep {
    /// Look up the system's service for the device by its registry number.
    FindService,
    /// Create a device object for the service.
    CreateDevice,
    /// Create the event source of the device object.
    CreateEventSource { device: u64 },
    /// Open the device object for exclusive access.
    Open { device: u64 },
    /// Read the fields of the device descriptor.
    ReadDeviceDescriptor { connection: DeviceConnection },
    /// Read how many configurations the device has.
    CountConfigurations { connection: DeviceConnection, device_descriptor: DeviceDescriptor },
    /// Read the configuration descriptor with this index.
    ReadConfiguration {
        connection: DeviceConnection,
        device_descriptor: DeviceDescriptor,
        count: u8,
        index: u8,
        configs: Vec<Vec<u8>>,
    },
    /// Look whether the device shows an interface.
    ProbeInterfaces {
        connection: DeviceConnection,
        device_descriptor: DeviceDescriptor,
        count: u8,
        configs: Vec<Vec<u8>>,
    },
    /// Ask the device for its active configuration.
    GetConfiguration {
        connection: DeviceConnection,
        device_descriptor: DeviceDescriptor,
        configs: Vec<Vec<u8>>,
    },
}

/// What a call that opening a device asks for returned.
#[derive(Debug)]
pub enum OpenReply {
    /// Whether the service was found.
    Service(Result<(), Error>),
    /// The device object.
    Device(Result<u64, Error>),
    /// The device descriptor, where all its fields could be read.
    DeviceDescriptor(Option<DeviceDescriptor>),
    /// A number: of configurations, or of the active configuration.
    Number(Result<u8, IOReturn>),
    /// A configuration descriptor with the descriptors that belong to it.
    Configuration(Result<Vec<u8>, IOReturn>),
    /// Whether the device shows an interface.
    HasInterface(Result<bool, IOReturn>),
    /// What any other call returned.
    Status(Result<(), IOReturn>),
}

/// Whether `reply` answers what `step` asks.
pub open spec fn open_answers(step: OpenStepView, reply: OpenReply) -> bool {
    match step {
        OpenStepView::FindService => reply is Service,
        OpenStepView::CreateDevice => reply is Device,
        OpenStepView::CreateEventSource { .. } => reply is Status,
        OpenStepView::Open { .. } => reply is Status,
        OpenStepView::ReadDeviceDescriptor { .. } => reply is DeviceDescriptor,
        OpenStepView::CountConfigurations { .. } => reply is Number,
        OpenStepView::ReadConfiguration { .. } => reply is Configuration,
        OpenStepView::ProbeInterfaces { .. } => reply is HasInterface,
        OpenStepView::GetConfiguration { .. } => reply is Number,
    }
}

/// A call that opening a device asks for, with the configurations read so far as plain bytes.
#[verifier::ext_equal]
pub enum OpenStepView {
    FindService,
    CreateDevice,
    CreateEventSource { device: u64 },
    Open { device: u64 },
    ReadDeviceDescriptor { connection: DeviceConnection },
    CountConfigurations { connection: DeviceConnection, device_descriptor: DeviceDescriptor },
    ReadConfiguration {
        connection: DeviceConnection,
        device_descriptor: DeviceDescriptor,
        count: u8,
        index: u8,
        configs: Seq<Seq<u8>>,
    },
    ProbeInterfaces {
        connection: DeviceConnection,
        device_descriptor: DeviceDescriptor,
        count: u8,
        configs: Seq<Seq<u8>>,
    },
    GetConfiguration {
        connection: DeviceConnection,
        device_descriptor: DeviceDescriptor,
        configs: Seq<Seq<u8>>,
    },
}

impl View for OpenStep {
    type V = OpenStepView;

    open spec fn view(&self) -> OpenStepView {
        match *self {
            OpenStep::FindService => OpenStepView::FindService,
            OpenStep::CreateDevice => OpenStepView::CreateDevice,
            OpenStep::CreateEventSource { device } => OpenStepView::CreateEventSource { device },
            OpenStep::Open { device } => OpenStepView::Open { device },
            OpenStep::ReadDeviceDescriptor { connection } => OpenStepView::ReadDeviceDescriptor {
                connection,
            },
            OpenStep::CountConfigurations { connection, device_descriptor } =>
            OpenStepView::CountConfigurations { connection, device_descriptor },
            OpenStep::ReadConfiguration { connection, device_descriptor, count, index, configs } =>
            OpenStepView::ReadConfiguration {
                connection,
                device_descriptor,
                count,
                index,
                configs: bytes_of(configs@),
            },
            OpenStep::ProbeInterfaces { connection, device_descriptor, count, configs } =>
            OpenStepView::ProbeInterfaces {
                connection,
                device_descriptor,
                count,
                configs: bytes_of(configs@),
            },
            OpenStep::GetConfiguration { connection, device_descriptor, configs } =>
            OpenStepView::GetConfiguration {
                connection,
                device_descriptor,
                configs: bytes_of(configs@),
            },
        }
    }
}

impl OpenStepView {
    /// Whether every configuration read so far is whole.
    pub open spec fn wf(self) -> bool {
        match self {
            OpenStepView::ReadConfiguration { configs, .. } => all_whole(configs),
            OpenStepView::ProbeInterfaces { configs, .. } => all_whole(configs),
            OpenStepView::GetConfiguration { configs, .. } => all_whole(configs),
            _ => true,
        }
    }
}

/// Whether every one of `configs` is whole.
pub open spec fn all_whole(configs: Seq<Seq<u8>>) -> bool {
    forall|i: int| 0 <= i < configs.len() ==> is_configuration(#[trigger] configs[i])
}

/// The connection that a step has, once there is one.
pub open spec fn connection_of(step: OpenStepView) -> Option<DeviceConnection> {
    match step {
        OpenStepView::FindService => None,
        OpenStepView::CreateDevice => None,
        OpenStepView::CreateEventSource { .. } => None,
        OpenStepView::Open { .. } => None,
        OpenStepView::ReadDeviceDescriptor { connection } => Some(connection),
        OpenStepView::CountConfigurations { connection, .. } => Some(connection),
        OpenStepView::ReadConfiguration { connection, .. } => Some(connection),
        OpenStepView::ProbeInterfaces { connection, .. } => Some(connection),
        OpenStepView::GetConfiguration { connection, .. } => Some(connection),
    }
}

/// The connection that has to be closed where the opening ends at `step` without a device.
pub open spec fn to_close(step: OpenStepView) -> Option<DeviceConnection> {
    match connection_of(step) {
        Some(connection) if connection.needs_close() => Some(connection),
        _ => None,
    }
}

/// A device that is being opened, with the configurations read so far as plain bytes.
#[verifier::ext_equal]
pub struct OpeningView {
    pub info: DeviceInfo,
    pub step: OpenStepView,
}

impl View for Opening {
    type V = OpeningView;

    open spec fn view(&self) -> OpeningView {
        OpeningView { info: self.info, step: self.step@ }
    }
}

/// What comes next, with its contents as plain bytes.
pub open spec fn open_view(next: Next<Opening, Result<MacDevice, Error>>) -> Next<
    OpeningView,
    Result<DeviceView, Error>,
> {
    match next {
        Next::Ask(opening) => Next::Ask(opening@),
        Next::Done(Ok(device)) => Next::Done(Ok(device@)),
        Next::Done(Err(error)) => Next::Done(Err(error)),
    }
}

/// What comes next for the device that `info` tells of.
pub open spec fn open_with_info(
    info: DeviceInfo,
    next: Next<OpenStepView, Result<DeviceView, Error>>,
) -> Next<OpeningView, Result<DeviceView, Error>> {
    match next {
        Next::Ask(step) => Next::Ask(OpeningView { info, step }),
        Next::Done(result) => Next::Done(result),
    }
}

/// The device that was just opened.
pub open spec fn opened_device(
    info: DeviceInfo,
    connection: DeviceConnection,
    device_descriptor: DeviceDescriptor,
    configs: Seq<Seq<u8>>,
    active_config: u8,
) -> DeviceView {
    DeviceView {
        registry_id: info.registry_id,
        state: DeviceState { connection, captured: false },
        device_descriptor,
        configs,
        speed: info.speed,
        active_config,
        claimed_interfaces: 0,
    }
}

/// What comes next where `configs` are read and those from `index` on are not.
pub open spec fn open_configs(
    connection: DeviceConnection,
    device_descriptor: DeviceDescriptor,
    count: u8,
    index: u8,
    configs: Seq<Seq<u8>>,
) -> OpenStepView {
    if index < count {
        OpenStepView::ReadConfiguration { connection, device_descriptor, count, index, configs }
    } else if count == 1 && configs.len() == 1 {
        OpenStepView::ProbeInterfaces { connection, device_descriptor, count, configs }
    } else {
        OpenStepView::GetConfiguration { connection, device_descriptor, configs }
    }
}

/// `configs` with what reading one more configuration returned. It is left out where it could not
/// be read or is not whole.
pub open spec fn with_config(configs: Seq<Seq<u8>>, read: Result<Vec<u8>, IOReturn>) -> Seq<
    Seq<u8>,
> {
    match read {
        Ok(config) if is_configuration(config@) => configs.push(config@),
        _ => configs,
    }
}

/// What comes next after the call that `step` asks for returned `reply`.
pub open spec fn open_next(info: DeviceInfo, step: OpenStepView, reply: OpenReply) -> Next<
    OpenStepView,
    Result<DeviceView, Error>,
> {
    match (step, reply) {
        (OpenStepView::FindService, OpenReply::Service(Ok(_))) => Next::Ask(
            OpenStepView::CreateDevice,
        ),
        (OpenStepView::FindService, OpenReply::Service(Err(error))) => Next::Done(Err(error)),
        (OpenStepView::CreateDevice, OpenReply::Device(Ok(device))) => Next::Ask(
            OpenStepView::CreateEventSource { device },
        ),
        (OpenStepView::CreateDevice, OpenReply::Device(Err(error))) => Next::Done(Err(error)),
        (OpenStepView::CreateEventSource { device }, OpenReply::Status(Ok(_))) => Next::Ask(
            OpenStepView::Open { device },
        ),
        (OpenStepView::CreateEventSource { .. }, OpenReply::Status(Err(code))) => Next::Done(
            Err(iokit_error(code, "failed to create async event source")),
        ),
        // The device can be used without exclusive access, so failing to get it is no error.
        (OpenStepView::Open { device }, OpenReply::Status(opened)) => Next::Ask(
            OpenStepView::ReadDeviceDescriptor {
                connection: if opened is Ok {
                    open_connection(device)
                } else {
                    closed_connection(device)
                },
            },
        ),
        (
            OpenStepView::ReadDeviceDescriptor { connection },
            OpenReply::DeviceDescriptor(Some(device_descriptor)),
        ) => Next::Ask(OpenStepView::CountConfigurations { connection, device_descriptor }),
        (OpenStepView::ReadDeviceDescriptor { .. }, OpenReply::DeviceDescriptor(None)) =>
        Next::Done(
            Err(
                Error::new(ErrorKind::Other, "could not read properties for device descriptor"),
            ),
        ),
        (
            OpenStepView::CountConfigurations { connection, device_descriptor },
            OpenReply::Number(Ok(count)),
        ) => Next::Ask(open_configs(connection, device_descriptor, count, 0, Seq::empty())),
        (OpenStepView::CountConfigurations { .. }, OpenReply::Number(Err(code))) => Next::Done(
            Err(iokit_error(code, "failed to get number of configurations")),
        ),
        (
            OpenStepView::ReadConfiguration { connection, device_descriptor, count, index, configs },
            OpenReply::Configuration(read),
        ) => Next::Ask(
            open_configs(
                connection,
                device_descriptor,
                count,
                if index < count {
                    (index + 1) as u8
                } else {
                    index
                },
                with_config(configs, read),
            ),
        ),
        (
            OpenStepView::ProbeInterfaces { connection, device_descriptor, count, configs },
            OpenReply::HasInterface(probed),
        ) => match guessed_config(count, configs, probed matches Ok(found) && found) {
            Some(active_config) => Next::Done(
                Ok(opened_device(info, connection, device_descriptor, configs, active_config)),
            ),
            None => Next::Ask(
                OpenStepView::GetConfiguration { connection, device_descriptor, configs },
            ),
        },
        (
            OpenStepView::GetConfiguration { connection, device_descriptor, configs },
            OpenReply::Number(active_config),
        ) => Next::Done(
            Ok(
                opened_device(
                    info,
                    connection,
                    device_descriptor,
                    configs,
                    match active_config {
                        Ok(active_config) => active_config,
                        Err(_) => 0,
                    },
                ),
            ),
        ),
        // A reply to something else changes nothing, and the question stands.
        _ => Next::Ask(step),
    }
}

fn make_device(
    info: DeviceInfo,
    connection: DeviceConnection,
    device_descriptor: DeviceDescriptor,
    config_descriptors: Vec<Vec<u8>>,
    active_config: u8,
) -> (r: MacDevice)
    ensures
        r@ == opened_device(
            info,
            connection,
            device_descriptor,
            bytes_of(config_descriptors@),
            active_config,
        ),
        r.registry_id == info.registry_id,
        r.state.connection == connection,
        !r.state.captured,
        r.device_descriptor == device_descriptor,
        r.config_descriptors == config_descriptors,
        r.speed == info.speed,
        r.active_config == active_config,
        r.claimed_interfaces == 0,
{
    MacDevice {
        registry_id: info.registry_id,
        state: DeviceState { connection, captured: false },
        device_descriptor,
        config_descriptors,
        speed: info.speed,
        active_config,
        claimed_interfaces: 0,
    }
}

fn next_config(
    connection: DeviceConnection,
    device_descriptor: DeviceDescriptor,
    count: u8,
    index: u8,
    configs: Vec<Vec<u8>>,
) -> (r: OpenStep)
    ensures
        r@ == open_configs(connection, device_descriptor, count, index, bytes_of(configs@)),
{
    if index < count {
        OpenStep::ReadConfiguration { connection, device_descriptor, count, index, configs }
    } else if count == 1 && configs.len() == 1 {
        OpenStep::ProbeInterfaces { connection, device_descriptor, count, configs }
    } else {
        OpenStep::GetConfiguration { connection, device_descriptor, configs }
    }
}

fn keep_config(configs: Vec<Vec<u8>>, read: Result<Vec<u8>, IOReturn>) -> (r: Vec<Vec<u8>>)
    ensures
        bytes_of(r@) == with_config(bytes_of(configs@), read),
        match read {
            Ok(bytes) if bytes@.len() >= 9 && bytes@[0] >= 9 && bytes@[1] == 2 && bytes@[0]
                <= bytes@[2] + 256 * bytes@[3] <= bytes@.len() => r@ == configs@.push(bytes),
            _ => r@ == configs@,
        },
{
    let mut configs = configs;
    let ghost before = configs@;
    if let Ok(config) = read {
        if ConfigurationDescriptor::new(config.as_slice()).is_some() {
            configs.push(config);
            assert(bytes_of(configs@) == bytes_of(before).push(config@));
        }
    }
    configs
}

impl MacDevice {
    /// Starts to open the device.
    pub fn from_device_info(info: &DeviceInfo) -> (r: Opening)
        ensures
            r@ == (OpeningView { info: *info, step: OpenStepView::FindService }),
            r.info == *info,
            r.step is FindService,
    {
        Opening { info: *info, step: OpenStep::FindService }
    }
}

impl Opening {
    /// The connection that has to be closed where the opening ends here without a device: the one
    /// that holds the device open already.
    pub fn connection_to_close(&self) -> (r: Option<DeviceConnection>)
        ensures
            r == to_close(self.step@),
            r matches Some(connection) ==> connection.is_open_exclusive,
            r == (match self.step {
                OpenStep::ReadDeviceDescriptor { connection } if connection.is_open_exclusive => Some(
                    connection,
                ),
                OpenStep::CountConfigurations { connection, .. } if connection.is_open_exclusive =>
                Some(connection),
                OpenStep::ReadConfiguration { connection, .. } if connection.is_open_exclusive =>
                Some(connection),
                OpenStep::ProbeInterfaces { connection, .. } if connection.is_open_exclusive => Some(
                    connection,
                ),
                OpenStep::GetConfiguration { connection, .. } if connection.is_open_exclusive => Some(
                    connection,
                ),
                _ => None,
            }),
    {
        let connection = match &self.step {
            OpenStep::FindService => {
                return None;
            },
            OpenStep::CreateDevice => {
                return None;
            },
            OpenStep::CreateEventSource { .. } => {
                return None;
            },
            OpenStep::Open { .. } => {
                return None;
            },
            OpenStep::ReadDeviceDescriptor { connection } => *connection,
            OpenStep::CountConfigurations { connection, .. } => *connection,
            OpenStep::ReadConfiguration { connection, .. } => *connection,
            OpenStep::ProbeInterfaces { connection, .. } => *connection,
            OpenStep::GetConfiguration { connection, .. } => *connection,
        };
        if connection.needs_close() {
            Some(connection)
        } else {
            None
        }
    }

    /// Goes on with opening the device after the call that the step asks for returned `reply`.
    pub fn next(self, reply: OpenReply) -> (r: Next<Opening, Result<MacDevice, Error>>)
        ensures
            open_view(r) == open_with_info(self@.info, open_next(self@.info, self@.step, reply)),
            r matches Next::Ask(opening) ==> opening.info == self.info,
            r matches Next::Done(Ok(device)) ==> {
                &&& device.registry_id == self.info.registry_id
                &&& device.speed == self.info.speed
                &&& !device.state.captured
                &&& device.claimed_interfaces == 0
            },
            self.step@.wf() ==> (match r {
                Next::Ask(opening) => opening.step@.wf(),
                Next::Done(Ok(device)) => device.wf(),
                Next::Done(Err(_)) => true,
            }),
    {
        let info = self.info;
        match (self.step, reply) {
            (OpenStep::FindService, OpenReply::Service(found)) => match found {
                Ok(_) => Next::Ask(Opening { info, step: OpenStep::CreateDevice }),
                Err(error) => Next::Done(Err(error)),
            },
            (OpenStep::CreateDevice, OpenReply::Device(created)) => match created {
                Ok(device) => Next::Ask(
                    Opening { info, step: OpenStep::CreateEventSource { device } },
                ),
                Err(error) => Next::Done(Err(error)),
            },
            (OpenStep::CreateEventSource { device }, OpenReply::Status(created)) => {
                match DeviceConnection::new(device, created) {
                    Ok(connection) => Next::Ask(
                        Opening { info, step: OpenStep::Open { device: connection.device } },
                    ),
                    Err(error) => Next::Done(Err(error)),
                }
            },
            (OpenStep::Open { device }, OpenReply::Status(opened)) => {
                let mut connection = DeviceConnection { device, is_open_exclusive: false };
                let _ = connection.open(opened);
                Next::Ask(Opening { info, step: OpenStep::ReadDeviceDescriptor { connection } })
            },
            (OpenStep::ReadDeviceDescriptor { connection }, OpenReply::DeviceDescriptor(read)) => {
                match read {
                    Some(device_descriptor) => Next::Ask(
                        Opening {
                            info,
                            step: OpenStep::CountConfigurations { connection, device_descriptor },
                        },
                    ),
                    None => Next::Done(
                        Err(
                            Error::new(
                                ErrorKind::Other,
                                "could not read properties for device descriptor",
                            ),
                        ),
                    ),
                }
            },
            (
                OpenStep::CountConfigurations { connection, device_descriptor },
                OpenReply::Number(counted),
            ) => match counted {
                Ok(count) => {
                    let configs: Vec<Vec<u8>> = Vec::new();
                    assert(bytes_of(configs@) == Seq::<Seq<u8>>::empty());
                    let step = next_config(connection, device_descriptor, count, 0, configs);
                    Next::Ask(Opening { info, step })
                },
                Err(code) => Next::Done(
                    Err(iokit_error(code, "failed to get number of configurations")),
                ),
            },
            (
                OpenStep::ReadConfiguration {
                    connection,
                    device_descriptor,
                    count,
                    index,
                    configs,
                },
                OpenReply::Configuration(read),
            ) => {
                let next_index: u8 = if index < count {
                    index + 1
                } else {
                    index
                };
                let configs = keep_config(configs, read);
                let step = next_config(connection, device_descriptor, count, next_index, configs);
                Next::Ask(Opening { info, step })
            },
            (
                OpenStep::ProbeInterfaces { connection, device_descriptor, count, configs },
                OpenReply::HasInterface(probed),
            ) => {
                let has_interface = match probed {
                    Ok(found) => found,
                    Err(_) => false,
                };
                match guess_active_config(count, configs.as_slice(), has_interface) {
                    Some(active_config) => Next::Done(
                        Ok(
                            make_device(
                                info,
                                connection,
                                device_descriptor,
                                configs,
                                active_config,
                            ),
                        ),
                    ),
                    None => Next::Ask(
                        Opening {
                            info,
                            step: OpenStep::GetConfiguration {
                                connection,
                                device_descriptor,
                                configs,
                            },
                        },
                    ),
                }
            },
            (
                OpenStep::GetConfiguration { connection, device_descriptor, configs },
                OpenReply::Number(read),
            ) => {
                let active_config: u8 = match read {
                    Ok(active_config) => active_config,
                    Err(_) => 0,
                };
                Next::Done(
                    Ok(make_device(info, connection, device_descriptor, configs, active_config)),
                )
            },
            (step, _) => Next::Ask(Opening { info, step }),
        }
    }
}

/// What the system and the device answer to each call of one opening.
pub struct OpenReplies {
    pub service: Result<(), Error>,
    pub device: Result<u64, Error>,
    pub event_source: Result<(), IOReturn>,
    pub open: Result<(), IOReturn>,
    pub device_descriptor: Option<DeviceDescriptor>,
    pub count: Result<u8, IOReturn>,
    pub configuration: spec_fn(u8) -> Result<Vec<u8>, IOReturn>,
    pub has_interface: Result<bool, IOReturn>,
    pub active_config: Result<u8, IOReturn>,
}

impl OpenReplies {
    /// The answer to what `step` asks.
    pub open spec fn answer(self, step: OpenStepView) -> OpenReply {
        match step {
            OpenStepView::FindService => OpenReply::Service(self.service),
            OpenStepView::CreateDevice => OpenReply::Device(self.device),
            OpenStepView::CreateEventSource { .. } => OpenReply::Status(self.event_source),
            OpenStepView::Open { .. } => OpenReply::Status(self.open),
            OpenStepView::ReadDeviceDescriptor { .. } => OpenReply::DeviceDescriptor(
                self.device_descriptor,
            ),
            OpenStepView::CountConfigurations { .. } => OpenReply::Number(self.count),
            OpenStepView::ReadConfiguration { index, .. } => OpenReply::Configuration(
                (self.configuration)(index),
            ),
            OpenStepView::ProbeInterfaces { .. } => OpenReply::HasInterface(self.has_interface),
            OpenStepView::GetConfiguration { .. } => OpenReply::Number(self.active_config),
        }
    }

    /// The whole ones among the first `count` configurations, in order.
    pub open spec fn kept_configs(self, count: nat) -> Seq<Seq<u8>>
        decreases count,
    {
        if count == 0 {
            Seq::empty()
        } else {
            with_config(
                self.kept_configs((count - 1) as nat),
                (self.configuration)((count - 1) as u8),
            )
        }
    }

    /// Whether the device shows an interface.
    pub open spec fn shows_interface(self) -> bool {
        self.has_interface matches Ok(found) && found
    }
}

/// How many calls can follow at most.
pub open spec fn open_rank(next: Next<OpenStepView, Result<DeviceView, Error>>) -> nat {
    match next {
        Next::Done(_) => 0,
        Next::Ask(OpenStepView::FindService) => 265,
        Next::Ask(OpenStepView::CreateDevice) => 264,
        Next::Ask(OpenStepView::CreateEventSource { .. }) => 263,
        Next::Ask(OpenStepView::Open { .. }) => 262,
        Next::Ask(OpenStepView::ReadDeviceDescriptor { .. }) => 261,
        Next::Ask(OpenStepView::CountConfigurations { .. }) => 260,
        Next::Ask(OpenStepView::ReadConfiguration { count, index, .. }) => if index < count {
            (3 + count - index) as nat
        } else {
            3
        },
        Next::Ask(OpenStepView::ProbeInterfaces { .. }) => 2,
        Next::Ask(OpenStepView::GetConfiguration { .. }) => 1,
    }
}

/// The result once every question from `next` on is answered.
pub open spec fn open_run(
    info: DeviceInfo,
    next: Next<OpenStepView, Result<DeviceView, Error>>,
    replies: OpenReplies,
) -> Result<DeviceView, Error>
    decreases open_rank(next),
{
    match next {
        Next::Done(result) => result,
        Next::Ask(step) => open_run(info, open_next(info, step, replies.answer(step)), replies),
    }
}

/// Whether some question from `next` on asks the device for its active configuration.
pub open spec fn open_asks_configuration(
    info: DeviceInfo,
    next: Next<OpenStepView, Result<DeviceView, Error>>,
    replies: OpenReplies,
) -> bool
    decreases open_rank(next),
{
    match next {
        Next::Done(_) => false,
        Next::Ask(step) => step is GetConfiguration || open_asks_configuration(
            info,
            open_next(info, step, replies.answer(step)),
            replies,
        ),
    }
}

/// The connection that is left to be closed once every question from `next` on is answered: that
/// of the step at which the opening fails.
pub open spec fn open_leftover(
    info: DeviceInfo,
    next: Next<OpenStepView, Result<DeviceView, Error>>,
    replies: OpenReplies,
) -> Option<DeviceConnection>
    decreases open_rank(next),
{
    match next {
        Next::Done(_) => None,
        Next::Ask(step) => {
            let then_next = open_next(info, step, replies.answer(step));
            if then_next matches Next::Done(Err(_)) {
                to_close(step)
            } else {
                open_leftover(info, then_next, replies)
            }
        },
    }
}

/// The value of the active configuration of a device with `count` configurations that was just
/// opened.
pub open spec fn initial_config(count: u8, configs: Seq<Seq<u8>>, replies: OpenReplies) -> u8 {
    match guessed_config(count, configs, replies.shows_interface()) {
        Some(value) => value,
        None => match replies.active_config {
            Ok(value) => value,
            Err(_) => 0,
        },
    }
}

/// The result of opening a device, where the system and the device answer with `replies`.
pub open spec fn open_outcome(info: DeviceInfo, replies: OpenReplies) -> Result<
    DeviceView,
    Error,
> {
    if replies.service is Err {
        Err(replies.service->Err_0)
    } else if replies.device is Err {
        Err(replies.device->Err_0)
    } else if replies.event_source is Err {
        Err(iokit_error(replies.event_source->Err_0, "failed to create async event source"))
    } else if replies.device_descriptor is None {
        Err(Error::new(ErrorKind::Other, "could not read properties for device descriptor"))
    } else if replies.count is Err {
        Err(iokit_error(replies.count->Err_0, "failed to get number of configurations"))
    } else {
        let configs = replies.kept_configs(replies.count->Ok_0 as nat);
        Ok(
            opened_device(
                info,
                if replies.open is Ok {
                    open_connection(replies.device->Ok_0)
                } else {
                    closed_connection(replies.device->Ok_0)
                },
                replies.device_descriptor->0,
                configs,
                initial_config(replies.count->Ok_0, configs, replies),
            ),
        )
    }
}

/// From the first unread configuration on, opening a device ends with the device.
proof fn lemma_open_configs(
    info: DeviceInfo,
    connection: DeviceConnection,
    device_descriptor: DeviceDescriptor,
    count: u8,
    index: u8,
    replies: OpenReplies,
)
    requires
        index <= count,
    ensures
        ({
            let configs = replies.kept_configs(count as nat);
            let next = Next::Ask(
                open_configs(
                    connection,
                    device_descriptor,
                    count,
                    index,
                    replies.kept_configs(index as nat),
                ),
            );
            &&& open_run(info, next, replies) == Ok::<DeviceView, Error>(
                opened_device(
                    info,
                    connection,
                    device_descriptor,
                    configs,
                    initial_config(count, configs, replies),
                ),
            )
            &&& open_asks_configuration(info, next, replies) <==> guessed_config(
                count,
                configs,
                replies.shows_interface(),
            ) is None
            &&& open_leftover(info, next, replies) is None
        }),
    decreases count - index,
{
    if index < count {
        lemma_open_configs(
            info,
            connection,
            device_descriptor,
            count,
            (index + 1) as u8,
            replies,
        );
    } else {
        reveal_with_fuel(open_run, 3);
        reveal_with_fuel(open_asks_configuration, 3);
        reveal_with_fuel(open_leftover, 3);
    }
}

/// Carried through to its end, opening a device comes out as `open_outcome` says, and each of its
/// questions gets a reply of the right sort.
pub proof fn law_open_outcome(info: DeviceInfo, replies: OpenReplies)
    ensures
        open_run(info, Next::Ask(OpenStepView::FindService), replies) == open_outcome(
            info,
            replies,
        ),
        forall|step: OpenStepView| open_answers(step, #[trigger] replies.answer(step)),
{
    reveal_with_fuel(open_run, 7);
    if replies.device is Ok && replies.device_descriptor is Some && replies.count is Ok {
        let connection = if replies.open is Ok {
            open_connection(replies.device->Ok_0)
        } else {
            closed_connection(replies.device->Ok_0)
        };
        lemma_open_configs(
            info,
            connection,
            replies.device_descriptor->0,
            replies.count->Ok_0,
            0,
            replies,
        );
    }
}

/// A device with a single configuration, which could be read, that shows an interface is not asked
/// for its active configuration.
pub proof fn law_configured_device_is_not_asked(info: DeviceInfo, replies: OpenReplies)
    requires
        replies.count == Ok::<u8, IOReturn>(1),
        replies.kept_configs(1).len() == 1,
        replies.shows_interface(),
    ensures
        !open_asks_configuration(info, Next::Ask(OpenStepView::FindService), replies),
{
    reveal_with_fuel(open_asks_configuration, 7);
    let count = replies.count->Ok_0;
    lemma_kept_configs_are_whole(replies, count as nat);
    assert(is_configuration(replies.kept_configs(count as nat)[0]));
    if replies.device is Ok && replies.device_descriptor is Some {
        let connection = if replies.open is Ok {
            open_connection(replies.device->Ok_0)
        } else {
            closed_connection(replies.device->Ok_0)
        };
        lemma_open_configs(
            info,
            connection,
            replies.device_descriptor->0,
            count,
            0,
            replies,
        );
    }
}

/// An opening that fails closes the device where it was opened before: a connection is left to be
/// closed exactly where the device was opened and no device came of it.
pub proof fn law_failed_opening_closes_the_device(info: DeviceInfo, replies: OpenReplies)
    ensures
        open_leftover(info, Next::Ask(OpenStepView::FindService), replies) == (if open_outcome(
            info,
            replies,
        ) is Err && replies.service is Ok && replies.device is Ok && replies.event_source is Ok
            && replies.open is Ok {
            Some(open_connection(replies.device->Ok_0))
        } else {
            None
        }),
{
    reveal_with_fuel(open_leftover, 7);
    if replies.device is Ok && replies.device_descriptor is Some && replies.count is Ok {
        let connection = if replies.open is Ok {
            open_connection(replies.device->Ok_0)
        } else {
            closed_connection(replies.device->Ok_0)
        };
        lemma_open_configs(
            info,
            connection,
            replies.device_descriptor->0,
            replies.count->Ok_0,
            0,
            replies,
        );
    }
}

/// A device that reports more than one configuration is asked for the active one, however many of
/// them could be read, and so is a device that shows no interface.
pub proof fn law_active_configuration_is_the_answer(info: DeviceInfo, replies: OpenReplies)
    requires
        replies.count matches Ok(count) && (count != 1 || !replies.shows_interface()),
        replies.active_config is Ok,
    ensures
        open_outcome(info, replies) matches Ok(device) ==> device.active_config
            == replies.active_config->Ok_0,
{
}

proof fn lemma_kept_configs_are_whole(replies: OpenReplies, count: nat)
    ensures
        all_whole(replies.kept_configs(count)),
    decreases count,
{
    if count > 0 {
        lemma_kept_configs_are_whole(replies, (count - 1) as nat);
    }
}

/// A device that was opened has only whole configurations, is not captured, and has no claimed
/// interface.
pub proof fn law_opened_device_is_fresh(info: DeviceInfo, replies: OpenReplies)
    ensures
        open_outcome(info, replies) matches Ok(device) ==> {
            &&& device.wf()
            &&& !device.state.captured
            &&& device.claimed_interfaces == 0
            &&& device.registry_id == info.registry_id
            &&& device.speed == info.speed
        },
{
    if replies.count is Ok {
        lemma_kept_configs_are_whole(replies, replies.count->Ok_0 as nat);
    }
}

/// Exclusive access is not needed to open a device: only the connection tells whether it was had.
pub proof fn law_open_without_exclusive_access(
    info: DeviceInfo,
    replies: OpenReplies,
    open: Result<(), IOReturn>,
)
    ensures
        ({
            let other = open_outcome(info, OpenReplies { open, ..replies });
            match open_outcome(info, replies) {
                Ok(device) => other matches Ok(other_device) && other_device == DeviceView {
                    state: other_device.state,
                    ..device
                },
                Err(error) => other == Err::<DeviceView, Error>(error),
            }
        }),
{
    if replies.count is Ok {
        lemma_kept_configs_do_not_depend_on_open(replies, open, replies.count->Ok_0 as nat);
    }
}

proof fn lemma_kept_configs_do_not_depend_on_open(
    replies: OpenReplies,
    open: Result<(), IOReturn>,
    count: nat,
)
    ensures
        replies.kept_configs(count) == (OpenReplies { open, ..replies }).kept_configs(count),
    decreases count,
{
    if count > 0 {
        lemma_kept_configs_do_not_depend_on_open(replies, open, (count - 1) as nat);
    }
}

/// The view of a device that is being opened shows all that is known of it.
pub proof fn law_view_shows_the_opening(opening: Opening)
    ensures
        opening@.info == opening.info,
        match opening.step {
            OpenStep::FindService => opening@.step == OpenStepView::FindService,
            OpenStep::CreateDevice => opening@.step == OpenStepView::CreateDevice,
            OpenStep::CreateEventSource { device } => opening@.step == (
            OpenStepView::CreateEventSource { device }),
            OpenStep::Open { device } => opening@.step == (OpenStepView::Open { device }),
            OpenStep::ReadDeviceDescriptor { connection } => opening@.step == (
            OpenStepView::ReadDeviceDescriptor { connection }),
            OpenStep::CountConfigurations { connection, device_descriptor } => opening@.step == (
            OpenStepView::CountConfigurations { connection, device_descriptor }),
            OpenStep::ReadConfiguration { connection, device_descriptor, count, index, configs } =>
            opening@.step == (OpenStepView::ReadConfiguration {
                connection,
                device_descriptor,
                count,
                index,
                configs: configs@.map_values(|bytes: Vec<u8>| bytes@),
            }),
            OpenStep::ProbeInterfaces { connection, device_descriptor, count, configs } =>
            opening@.step == (OpenStepView::ProbeInterfaces {
                connection,
                device_descriptor,
                count,
                configs: configs@.map_values(|bytes: Vec<u8>| bytes@),
            }),
            OpenStep::GetConfiguration { connection, device_descriptor, configs } => opening@.step
                == (OpenStepView::GetConfiguration {
                connection,
                device_descriptor,
                configs: configs@.map_values(|bytes: Vec<u8>| bytes@),
            }),
        },
{
}

/// Whether reading a configuration gave a whole one: at least nine bytes that start with a
/// configuration descriptor, and as many as it announces.
pub open spec fn read_whole(read: Result<Vec<u8>, IOReturn>) -> bool {
    read matches Ok(bytes) && bytes@.len() >= 9 && bytes@[0] >= 9 && bytes@[1] == 2 && bytes@[0]
        <= bytes@[2] + 256 * bytes@[3] <= bytes@.len()
}

impl OpenReplies {
    /// What reading each of the first `count` configurations returns, in order.
    pub open spec fn reads(self, count: nat) -> Seq<Result<Vec<u8>, IOReturn>> {
        Seq::new(count, |i: int| (self.configuration)(i as u8))
    }
}

proof fn lemma_kept_configs(replies: OpenReplies, count: nat)
    requires
        count <= 256,
    ensures
        replies.kept_configs(count) == replies.reads(count).filter(
            |read: Result<Vec<u8>, IOReturn>| read_whole(read),
        ).map_values(|read: Result<Vec<u8>, IOReturn>| read->Ok_0@),
    decreases count,
{
    reveal(Seq::filter);
    let whole = |read: Result<Vec<u8>, IOReturn>| read_whole(read);
    let bytes = |read: Result<Vec<u8>, IOReturn>| read->Ok_0@;
    let reads = replies.reads(count);
    if count == 0 {
        assert(reads.filter(whole).map_values(bytes) =~= Seq::<Seq<u8>>::empty());
    } else {
        let before = replies.reads((count - 1) as nat);
        lemma_kept_configs(replies, (count - 1) as nat);
        assert(reads.drop_last() =~= before);
        let last = (replies.configuration)((count - 1) as u8);
        assert(reads.last() == last);
        assert(replies.kept_configs(count) == with_config(
            replies.kept_configs((count - 1) as nat),
            last,
        ));
        if whole(last) {
            assert(reads.filter(whole) == before.filter(whole).push(last));
            assert(reads.filter(whole).map_values(bytes) =~= before.filter(whole).map_values(
                bytes,
            ).push(bytes(last)));
        }
    }
}

/// A device has exactly the configurations that could be read whole: each of them, for whatever
/// index below the number that the device reports, and no other, in the order of their indices,
/// and with all the bytes that were read.
pub proof fn law_every_whole_configuration_is_kept(info: DeviceInfo, replies: OpenReplies)
    ensures
        open_run(info, Next::Ask(OpenStepView::FindService), replies) matches Ok(device) ==> {
            let count = replies.count->Ok_0;
            let reads = Seq::new(count as nat, |i: int| (replies.configuration)(i as u8));
            let kept = reads.filter(
                |read: Result<Vec<u8>, IOReturn>|
                    read matches Ok(bytes) && bytes@.len() >= 9 && bytes@[0] >= 9 && bytes@[1] == 2
                        && bytes@[0] <= bytes@[2] + 256 * bytes@[3] <= bytes@.len(),
            );
            &&& device.configs.len() == kept.len()
            &&& device.configs == kept.map_values(|read: Result<Vec<u8>, IOReturn>| read->Ok_0@)
        },
        open_run(info, Next::Ask(OpenStepView::FindService), replies) matches Ok(device) ==> forall|
            index: u8,
        |
            index < replies.count->Ok_0 && read_whole(
                #[trigger] (replies.configuration)(index),
            ) ==> device.configs.contains((replies.configuration)(index)->Ok_0@),
        open_run(info, Next::Ask(OpenStepView::FindService), replies) matches Ok(device) ==> (forall|
            index: u8,
        |
            index < replies.count->Ok_0 ==> read_whole(#[trigger] (replies.configuration)(index)))
            ==> device.configs.len() == replies.count->Ok_0,
{
    law_open_outcome(info, replies);
    if open_outcome(info, replies) is Ok {
        let count = replies.count->Ok_0 as nat;
        let device = open_outcome(info, replies)->Ok_0;
        lemma_kept_configs(replies, count);
        let whole = |read: Result<Vec<u8>, IOReturn>| read_whole(read);
        let spelled = |read: Result<Vec<u8>, IOReturn>|
            read matches Ok(bytes) && bytes@.len() >= 9 && bytes@[0] >= 9 && bytes@[1] == 2
                && bytes@[0] <= bytes@[2] + 256 * bytes@[3] <= bytes@.len();
        let bytes = |read: Result<Vec<u8>, IOReturn>| read->Ok_0@;
        assert(whole =~= spelled);
        let reads = replies.reads(count);
        assert forall|index: u8|
            index < replies.count->Ok_0 && read_whole(
                #[trigger] (replies.configuration)(index),
            ) implies device.configs.contains((replies.configuration)(index)->Ok_0@) by {
            assert(reads[index as int] == (replies.configuration)(index));
            assert(whole(reads[index as int]));
            reads.lemma_filter_contains(whole, index as int);
            let place = reads.filter(whole).index_of(reads[index as int]);
            assert(reads.filter(whole)[place] == reads[index as int]);
            assert(device.configs[place] == bytes(reads[index as int]));
        }
        if forall|index: u8|
            index < replies.count->Ok_0 ==> read_whole(#[trigger] (replies.configuration)(index)) {
            assert forall|i: int| 0 <= i < reads.len() implies whole(#[trigger] reads[i]) by {
                assert(read_whole((replies.configuration)(i as u8)));
            }
            lemma_filter_keeps_all(reads, whole);
        }
    }
}

proof fn lemma_filter_keeps_all<A>(s: Seq<A>, pred: spec_fn(A) -> bool)
    requires
        forall|i: int| 0 <= i < s.len() ==> pred(#[trigger] s[i]),
    ensures
        s.filter(pred) == s,
    decreases s.len(),
{
    reveal(Seq::filter);
    if s.len() > 0 {
        assert forall|i: int| 0 <= i < s.drop_last().len() implies pred(
            #[trigger] s.drop_last()[i],
        ) by {
            assert(s.drop_last()[i] == s[i]);
        }
        lemma_filter_keeps_all(s.drop_last(), pred);
        assert(pred(s[s.len() - 1]));
        assert(s.drop_last().push(s.last()) =~= s);
    }
}

/// What was read of a device is what the device has: the object that was created for it, open
/// exactly where opening it succeeded, its descriptor, and its active configuration, which is that
/// of its only configuration where it has one that was read whole and shows an interface, and
/// otherwise what the device answers, or 0 where it does not.
pub proof fn law_opened_device_has_what_was_read(info: DeviceInfo, replies: OpenReplies)
    ensures
        ({
            let result = open_run(info, Next::Ask(OpenStepView::FindService), replies);
            let told = replies.count == Ok::<u8, IOReturn>(1) && read_whole(
                (replies.configuration)(0),
            ) && replies.has_interface == Ok::<bool, IOReturn>(true);
            &&& result is Ok <==> replies.service is Ok && replies.device is Ok
                && replies.event_source is Ok && replies.device_descriptor is Some && replies.count
                is Ok
            &&& result matches Ok(device) ==> {
                &&& device.registry_id == info.registry_id
                &&& device.speed == info.speed
                &&& Ok::<u64, Error>(device.state.connection.device) == replies.device
                &&& device.state.connection.is_open_exclusive <==> replies.open is Ok
                &&& !device.state.captured
                &&& Some(device.device_descriptor) == replies.device_descriptor
                &&& device.claimed_interfaces == 0
                &&& told ==> device.active_config == (replies.configuration)(0)->Ok_0@[5]
                &&& !told ==> (match replies.active_config {
                    Ok(value) => device.active_config == value,
                    Err(_) => device.active_config == 0,
                })
            }
        }),
{
    law_open_outcome(info, replies);
    if replies.count == Ok::<u8, IOReturn>(1) {
        let configs = replies.kept_configs(1);
        assert(replies.kept_configs(0) == Seq::<Seq<u8>>::empty());
        assert(configs == with_config(replies.kept_configs(0), (replies.configuration)(0)));
    }
}

/// An opening that fails tells of the call that failed, with its code.
pub proof fn law_opening_tells_what_failed(info: DeviceInfo, replies: OpenReplies)
    ensures
        open_run(info, Next::Ask(OpenStepView::FindService), replies) matches Err(error) ==> {
            match (replies.service, replies.device, replies.event_source) {
                (Err(cause), _, _) => error == cause,
                (Ok(_), Err(cause), _) => error == cause,
                (Ok(_), Ok(_), Err(code)) => error.code == Some(code) && error.kind == iokit_error(
                    code,
                    "",
                ).kind && error.message == "failed to create async event source",
                (Ok(_), Ok(_), Ok(_)) => match (replies.device_descriptor, replies.count) {
                    (None, _) => error == (Error {
                        kind: ErrorKind::Other,
                        message: "could not read properties for device descriptor",
                        code: None,
                    }),
                    (Some(_), Err(code)) => error.code == Some(code) && error.kind == iokit_error(
                        code,
                        "",
                    ).kind && error.message == "failed to get number of configurations",
                    (Some(_), Ok(_)) => false,
                },
            }
        },
{
    law_open_outcome(info, replies);
}

/// A reply to something else changes nothing, and the question stands.
pub proof fn law_opening_waits_for_its_reply(
    info: DeviceInfo,
    step: OpenStepView,
    reply: OpenReply,
)
    requires
        match step {
            OpenStepView::FindService => !(reply is Service),
            OpenStepView::CreateDevice => !(reply is Device),
            OpenStepView::CreateEventSource { .. } => !(reply is Status),
            OpenStepView::Open { .. } => !(reply is Status),
            OpenStepView::ReadDeviceDescriptor { .. } => !(reply is DeviceDescriptor),
            OpenStepView::CountConfigurations { .. } => !(reply is Number),
            OpenStepView::ReadConfiguration { .. } => !(reply is Configuration),
            OpenStepView::ProbeInterfaces { .. } => !(reply is HasInterface),
            OpenStepView::GetConfiguration { .. } => !(reply is Number),
        },
    ensures
        open_next(info, step, reply) == Next::<OpenStepView, Result<DeviceView, Error>>::Ask(step),
        !open_answers(step, reply),
{
}

/// The connection that has to be closed where an opening ends is the one that the step has, where
/// that one holds the device open.
pub proof fn law_only_an_open_connection_is_left(step: OpenStepView)
    ensures
        to_close(step) matches Some(connection) ==> connection.is_open_exclusive,
        match step {
            OpenStepView::FindService => to_close(step) is None,
            OpenStepView::CreateDevice => to_close(step) is None,
            OpenStepView::CreateEventSource { .. } => to_close(step) is None,
            OpenStepView::Open { .. } => to_close(step) is None,
            OpenStepView::ReadDeviceDescriptor { connection } => connection.is_open_exclusive
                ==> to_close(step) == Some(connection),
            OpenStepView::CountConfigurations { connection, .. } => connection.is_open_exclusive
                ==> to_close(step) == Some(connection),
            OpenStepView::ReadConfiguration { connection, .. } => connection.is_open_exclusive
                ==> to_close(step) == Some(connection),
            OpenStepView::ProbeInterfaces { connection, .. } => connection.is_open_exclusive
                ==> to_close(step) == Some(connection),
            OpenStepView::GetConfiguration { connection, .. } => connection.is_open_exclusive
                ==> to_close(step) == Some(connection),
        },
{
}

/// The calls that are made from `next` on, in order.
pub open spec fn open_calls(
    info: DeviceInfo,
    next: Next<OpenStepView, Result<DeviceView, Error>>,
    replies: OpenReplies,
) -> Seq<OpenStepView>
    decreases open_rank(next),
{
    match next {
        Next::Done(_) => Seq::empty(),
        Next::Ask(step) => seq![step] + open_calls(
            info,
            open_next(info, step, replies.answer(step)),
            replies,
        ),
    }
}

proof fn lemma_calls_from_configs(
    info: DeviceInfo,
    connection: DeviceConnection,
    device_descriptor: DeviceDescriptor,
    count: u8,
    index: u8,
    replies: OpenReplies,
)
    requires
        index <= count,
    ensures
        ({
            let probes = count == 1 && read_whole((replies.configuration)(0));
            let asks = !(probes && replies.has_interface == Ok::<bool, IOReturn>(true));
            let calls = open_calls(
                info,
                Next::Ask(
                    open_configs(
                        connection,
                        device_descriptor,
                        count,
                        index,
                        replies.kept_configs(index as nat),
                    ),
                ),
                replies,
            );
            &&& calls.len() == (count - index) + (if probes {
                1int
            } else {
                0
            }) + (if asks {
                1int
            } else {
                0
            })
            &&& forall|i: int|
                0 <= i < count - index ==> (#[trigger] calls[i]) is ReadConfiguration
                    && calls[i]->ReadConfiguration_index == index + i
            &&& probes ==> calls[count - index] is ProbeInterfaces
            &&& asks ==> calls.last() is GetConfiguration
        }),
    decreases count - index,
{
    if index < count {
        lemma_calls_from_configs(
            info,
            connection,
            device_descriptor,
            count,
            (index + 1) as u8,
            replies,
        );
        let step = open_configs(
            connection,
            device_descriptor,
            count,
            index,
            replies.kept_configs(index as nat),
        );
        let others = open_calls(info, open_next(info, step, replies.answer(step)), replies);
        let calls = seq![step] + others;
        assert(open_calls(info, Next::Ask(step), replies) == calls);
        assert(calls.last() == others.last() || others.len() == 0);
        assert forall|i: int| 0 <= i < count - index implies (
        #[trigger] calls[i]) is ReadConfiguration && calls[i]->ReadConfiguration_index == index
            + i by {
            if i > 0 {
                assert(calls[i] == others[i - 1]);
            }
        }
    } else {
        reveal_with_fuel(open_calls, 3);
        if count == 1 {
            assert(replies.kept_configs(0) == Seq::<Seq<u8>>::empty());
            assert(replies.kept_configs(1) == with_config(
                replies.kept_configs(0),
                (replies.configuration)(0),
            ));
        }
    }
}

/// The calls of an opening, one after another, each made once the one before it succeeded; only
/// opening the device object need not succeed. They go to the device object that was created.
/// Each configuration that the device reports is read once, in the order of their indices. The
/// device is asked for its active configuration unless it has a single configuration that was read
/// whole and shows an interface, which is looked for only then.
pub proof fn law_opening_makes_its_calls_in_order(info: DeviceInfo, replies: OpenReplies)
    ensures
        ({
            let calls = open_calls(info, Next::Ask(OpenStepView::FindService), replies);
            let created = replies.service is Ok && replies.device is Ok;
            let connected = created && replies.event_source is Ok;
            let described = connected && replies.device_descriptor is Some;
            let counted = described && replies.count is Ok;
            let device = replies.device->Ok_0;
            let count = replies.count->Ok_0;
            let probes = count == 1 && read_whole((replies.configuration)(0));
            let asks = !(probes && replies.has_interface == Ok::<bool, IOReturn>(true));
            &&& calls.len() >= 1 && calls[0] == OpenStepView::FindService
            &&& calls.len() > 1 <==> replies.service is Ok
            &&& calls.len() > 1 ==> calls[1] == OpenStepView::CreateDevice
            &&& calls.len() > 2 <==> created
            &&& created ==> calls[2] == (OpenStepView::CreateEventSource { device })
            &&& calls.len() > 3 <==> connected
            &&& connected ==> calls.len() > 4 && calls[3] == (OpenStepView::Open { device })
            &&& connected ==> (calls[4] matches OpenStepView::ReadDeviceDescriptor { connection }
                && connection.device == device && (connection.is_open_exclusive <==> replies.open
                is Ok))
            &&& calls.len() > 5 <==> described
            &&& described ==> (calls[5] matches OpenStepView::CountConfigurations {
                connection,
                device_descriptor,
            } && connection.device == device && Some(device_descriptor)
                == replies.device_descriptor)
            &&& calls.len() > 6 <==> counted
            &&& counted ==> {
                &&& calls.len() == 6 + count + (if probes {
                    1int
                } else {
                    0
                }) + (if asks {
                    1int
                } else {
                    0
                })
                &&& forall|i: int|
                    6 <= i < 6 + count ==> (#[trigger] calls[i]) is ReadConfiguration
                        && calls[i]->ReadConfiguration_index == i - 6
                &&& probes ==> calls[6 + count] is ProbeInterfaces
                &&& asks ==> calls.last() is GetConfiguration
            }
        }),
{
    reveal_with_fuel(open_calls, 7);
    if replies.service is Ok && replies.device is Ok && replies.event_source is Ok
        && replies.device_descriptor is Some && replies.count is Ok {
        let connection = if replies.open is Ok {
            open_connection(replies.device->Ok_0)
        } else {
            closed_connection(replies.device->Ok_0)
        };
        let device_descriptor = replies.device_descriptor->0;
        let count = replies.count->Ok_0;
        lemma_calls_from_configs(info, connection, device_descriptor, count, 0, replies);
        let from_configs = open_calls(
            info,
            Next::Ask(open_configs(connection, device_descriptor, count, 0, Seq::empty())),
            replies,
        );
        assert(replies.kept_configs(0) == Seq::<Seq<u8>>::empty());
        let calls = open_calls(info, Next::Ask(OpenStepView::FindService), replies);
        let device = replies.device->Ok_0;
        let first = seq![
            OpenStepView::FindService,
            OpenStepView::CreateDevice,
            OpenStepView::CreateEventSource { device },
            OpenStepView::Open { device },
            OpenStepView::ReadDeviceDescriptor { connection },
            OpenStepView::CountConfigurations { connection, device_descriptor },
        ];
        assert(calls =~= first + from_configs);
        assert forall|i: int| 6 <= i < 6 + count implies (
        #[trigger] calls[i]) is ReadConfiguration && calls[i]->ReadConfiguration_index == i - 6 by {
            assert(calls[i] == from_configs[i - 6]);
        }
    }
}

} // verus!
