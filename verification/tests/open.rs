use mac_usb::connection::DeviceConnection;
use mac_usb::descriptors::DeviceDescriptor;
use mac_usb::device::{MacDevice, Speed};
use mac_usb::error::{iokit_error, Error, ErrorKind};
use mac_usb::open::{guess_active_config, DeviceInfo, OpenReply, OpenStep};
use mac_usb::ret::{kIOReturnExclusiveAccess, IOReturn};
use mac_usb::step::Next;

const INFO: DeviceInfo = DeviceInfo { registry_id: 42, speed: Some(Speed::Super) };
const DESCRIPTOR: DeviceDescriptor = DeviceDescriptor { bytes: [7; 18] };

fn config(value: u8) -> Vec<u8> {
    vec![9, 2, 9, 0, 0, value, 0, 0x80, 50]
}

struct Replies {
    service: Result<(), Error>,
    device: Result<u64, Error>,
    event_source: Result<(), IOReturn>,
    open: Result<(), IOReturn>,
    descriptor: Option<DeviceDescriptor>,
    count: Result<u8, IOReturn>,
    configs: Vec<Result<Vec<u8>, IOReturn>>,
    has_interface: Result<bool, IOReturn>,
    active: Result<u8, IOReturn>,
}

fn good(configs: Vec<Result<Vec<u8>, IOReturn>>) -> Replies {
    Replies {
        service: Ok(()),
        device: Ok(3),
        event_source: Ok(()),
        open: Ok(()),
        descriptor: Some(DESCRIPTOR),
        count: Ok(configs.len() as u8),
        configs,
        has_interface: Ok(true),
        active: Ok(99),
    }
}

/// Opens a device, and tells whether it was looked at for interfaces and asked for its active
/// configuration.
fn open(replies: Replies) -> (bool, bool, Result<MacDevice, Error>) {
    let (probed, asked, _, result) = run(replies);
    (probed, asked, result)
}

/// Opens a device, and tells which connection the last step would have closed.
fn open_and_look(replies: Replies) -> (Option<DeviceConnection>, Result<MacDevice, Error>) {
    let (_, _, leftover, result) = run(replies);
    (leftover, result)
}

fn run(replies: Replies) -> (bool, bool, Option<DeviceConnection>, Result<MacDevice, Error>) {
    let mut opening = MacDevice::from_device_info(&INFO);
    let (mut probed, mut asked) = (false, false);
    loop {
        assert_eq!(opening.info, INFO);
        let reply = match &opening.step {
            OpenStep::FindService => OpenReply::Service(replies.service),
            OpenStep::CreateDevice => OpenReply::Device(replies.device),
            OpenStep::CreateEventSource { .. } => OpenReply::Status(replies.event_source),
            OpenStep::Open { .. } => OpenReply::Status(replies.open),
            OpenStep::ReadDeviceDescriptor { .. } => {
                OpenReply::DeviceDescriptor(replies.descriptor)
            }
            OpenStep::CountConfigurations { .. } => OpenReply::Number(replies.count),
            OpenStep::ReadConfiguration { index, .. } => {
                OpenReply::Configuration(replies.configs[*index as usize].clone())
            }
            OpenStep::ProbeInterfaces { .. } => {
                probed = true;
                OpenReply::HasInterface(replies.has_interface)
            }
            OpenStep::GetConfiguration { .. } => {
                asked = true;
                OpenReply::Number(replies.active)
            }
        };
        let leftover = opening.connection_to_close();
        match opening.next(reply) {
            Next::Ask(next) => opening = next,
            Next::Done(result) => return (probed, asked, leftover, result),
        }
    }
}

#[test]
fn a_configured_device_with_one_configuration_is_not_asked() {
    let (probed, asked, result) = open(good(vec![Ok(config(5))]));
    let device = result.unwrap();
    assert!(probed && !asked);
    assert_eq!(device.active_configuration_value(), 5);
    assert_eq!(device.registry_id, 42);
    assert_eq!(device.speed(), Some(Speed::Super));
    assert_eq!(device.device_descriptor(), DESCRIPTOR);
    assert_eq!(device.config_descriptors, vec![config(5)]);
    assert_eq!(device.claimed_interfaces, 0);
    assert!(!device.state.captured);
    assert_eq!(device.state.connection.device, 3);
    assert!(device.state.connection.is_open_exclusive);
}

#[test]
fn a_device_without_interfaces_is_asked() {
    for has_interface in [Ok(false), Err(4)] {
        let (probed, asked, result) =
            open(Replies { has_interface, ..good(vec![Ok(config(5))]) });
        assert!(probed && asked);
        assert_eq!(result.unwrap().active_configuration_value(), 99);
    }
}

#[test]
fn a_device_with_several_configurations_is_asked() {
    let (probed, asked, result) = open(good(vec![Ok(config(5)), Ok(config(6))]));
    assert!(!probed && asked);
    assert_eq!(result.unwrap().active_configuration_value(), 99);

    let none = good(vec![]);
    let (probed, asked, result) = open(Replies { active: Err(1), ..none });
    assert!(!probed && asked);
    assert_eq!(result.unwrap().active_configuration_value(), 0);
}

#[test]
fn configurations_that_cannot_be_used_are_left_out() {
    let mut cut = config(8);
    cut.pop();
    let (probed, asked, result) =
        open(good(vec![Err(1), Ok(config(6)), Ok(cut), Ok(vec![]), Err(2)]));
    let device = result.unwrap();
    assert!(!probed && asked);
    assert_eq!(device.config_descriptors, vec![config(6)]);
    assert_eq!(device.active_configuration_value(), 99);
}

#[test]
fn a_device_with_an_unreadable_configuration_is_asked() {
    let replies = Replies { active: Ok(2), ..good(vec![Ok(config(1)), Err(1)]) };
    let (probed, asked, result) = open(replies);
    assert!(!probed && asked);
    assert_eq!(result.unwrap().active_configuration_value(), 2);

    let replies = Replies { active: Ok(2), ..good(vec![Err(1)]) };
    let (probed, asked, result) = open(replies);
    assert!(!probed && asked);
    assert_eq!(result.unwrap().active_configuration_value(), 2);
}

#[test]
fn a_failed_opening_tells_what_to_close() {
    let held = Some(DeviceConnection { device: 3, is_open_exclusive: true });
    let cases = [
        (Replies { event_source: Err(2), ..good(vec![]) }, None),
        (Replies { descriptor: None, ..good(vec![]) }, held),
        (Replies { descriptor: None, open: Err(1), ..good(vec![]) }, None),
        (Replies { count: Err(3), ..good(vec![]) }, held),
        (Replies { count: Err(3), open: Err(1), ..good(vec![]) }, None),
    ];
    for (replies, expected) in cases {
        let (leftover, result) = open_and_look(replies);
        assert!(result.is_err());
        assert_eq!(leftover, expected);
    }
}

#[test]
fn a_device_opens_without_exclusive_access() {
    let (_, _, result) =
        open(Replies { open: Err(kIOReturnExclusiveAccess), ..good(vec![Ok(config(5))]) });
    assert!(!result.unwrap().state.connection.is_open_exclusive);
}

#[test]
fn the_most_configurations_are_read() {
    let configs: Vec<_> = (0..255u8).map(|value| Ok(config(value))).collect();
    let device = open(good(configs)).2.unwrap();
    assert_eq!(device.config_descriptors.len(), 255);
    assert_eq!(device.config_descriptors[254], config(254));
}

#[test]
fn failures_end_the_opening() {
    let gone = Error::new(ErrorKind::Disconnected, "gone");
    let cases = [
        (Replies { service: Err(gone), ..good(vec![]) }, gone),
        (Replies { device: Err(gone), ..good(vec![]) }, gone),
        (
            Replies { event_source: Err(2), ..good(vec![]) },
            iokit_error(2, "failed to create async event source"),
        ),
        (
            Replies { descriptor: None, ..good(vec![]) },
            Error::new(ErrorKind::Other, "could not read properties for device descriptor"),
        ),
        (
            Replies { count: Err(3), ..good(vec![]) },
            iokit_error(3, "failed to get number of configurations"),
        ),
    ];
    for (replies, error) in cases {
        assert_eq!(open(replies).2.unwrap_err(), error);
    }
}

#[test]
fn the_active_configuration_is_guessed_only_where_it_is_certain() {
    assert_eq!(guess_active_config(1, &[config(5)], true), Some(5));
    assert_eq!(guess_active_config(1, &[config(5)], false), None);
    assert_eq!(guess_active_config(2, &[config(5)], true), None);
    assert_eq!(guess_active_config(2, &[config(5), config(6)], true), None);
    assert_eq!(guess_active_config(1, &[], true), None);
    assert_eq!(guess_active_config(1, &[vec![9, 2, 9, 0, 0]], true), None);
}
