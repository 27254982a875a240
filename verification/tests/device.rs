use mac_usb::claim::{ClaimReply, ClaimRequest, ClaimStep};
use mac_usb::connection::DeviceConnection;
use mac_usb::descriptors::DeviceDescriptor;
use mac_usb::detach::{DetachReply, DetachStep};
use mac_usb::device::{DeviceState, ExclusiveRequest, ExclusiveStep, MacDevice, Speed};
use mac_usb::error::{iokit_error, Error, ErrorKind};
use mac_usb::interface::MacInterface;
use mac_usb::ret::{kIOReturnBusy, kIOReturnNoDevice, kIOReturnNotPermitted, IOReturn};
use mac_usb::step::Next;

fn configuration(value: u8, interface: u8, class: u8) -> Vec<u8> {
    vec![
        9, 2, 18, 0, 1, value, 0, 0x80, 50, // configuration
        9, 4, interface, 0, 0, class, 0, 0, 0, // interface
    ]
}

fn device() -> MacDevice {
    MacDevice {
        registry_id: 77,
        state: DeviceState {
            connection: DeviceConnection { device: 1, is_open_exclusive: false },
            captured: false,
        },
        device_descriptor: DeviceDescriptor { bytes: [18; 18] },
        config_descriptors: vec![configuration(1, 0, 0xff), configuration(2, 3, 0x08)],
        speed: Some(Speed::High),
        active_config: 1,
        claimed_interfaces: 0,
    }
}

fn ask<S, T>(next: Next<S, T>) -> S {
    match next {
        Next::Ask(step) => step,
        Next::Done(_) => panic!("the operation is over"),
    }
}

fn done<S, T>(next: Next<S, T>) -> T {
    match next {
        Next::Done(result) => result,
        Next::Ask(_) => panic!("the operation goes on"),
    }
}

struct Replies {
    user: u32,
    authorize: Result<(), IOReturn>,
    created: Result<u64, Error>,
    event_source: Result<(), IOReturn>,
    capture: Result<(), IOReturn>,
    open: Result<(), IOReturn>,
    release: Result<(), IOReturn>,
}

const GOOD: Replies = Replies {
    user: 0,
    authorize: Err(-9),
    created: Ok(2),
    event_source: Ok(()),
    capture: Ok(()),
    open: Ok(()),
    release: Ok(()),
};

fn detach(device: &mut MacDevice, replies: &Replies) -> (Vec<DetachStep>, Result<(), Error>) {
    let mut asked = Vec::new();
    let mut next = device.detach_kernel_driver(0);
    loop {
        let step = match next {
            Next::Ask(step) => step,
            Next::Done(result) => return (asked, result),
        };
        asked.push(step);
        let reply = match step {
            DetachStep::FindService => DetachReply::Service(Ok(())),
            DetachStep::EffectiveUser => DetachReply::EffectiveUser(replies.user),
            DetachStep::Authorize => DetachReply::Status(replies.authorize),
            DetachStep::CreateDevice => DetachReply::Device(replies.created),
            DetachStep::CreateEventSource { .. } => DetachReply::Status(replies.event_source),
            DetachStep::Capture { .. } => DetachReply::Status(replies.capture),
            DetachStep::Open { .. } => DetachReply::Status(replies.open),
            DetachStep::Release { .. } => DetachReply::Status(replies.release),
        };
        next = device.detach_step(step, reply);
    }
}

fn state(device: u64, is_open_exclusive: bool, captured: bool) -> DeviceState {
    DeviceState {
        connection: DeviceConnection { device, is_open_exclusive },
        captured,
    }
}

#[test]
fn getters_show_the_device() {
    let device = device();
    assert_eq!(device.device_descriptor(), DeviceDescriptor { bytes: [18; 18] });
    assert_eq!(device.speed(), Some(Speed::High));
    assert_eq!(device.active_configuration_value(), 1);
    let configs = device.configuration_descriptors();
    assert_eq!(configs.len(), 2);
    assert_eq!(configs[0].configuration_value(), 1);
    assert_eq!(configs[1].bytes, &device.config_descriptors[1][..]);
}

#[test]
fn root_captures_without_authorization() {
    let mut device = device();
    let (asked, result) = detach(&mut device, &GOOD);
    assert_eq!(result, Ok(()));
    assert_eq!(
        asked,
        vec![
            DetachStep::FindService,
            DetachStep::EffectiveUser,
            DetachStep::CreateDevice,
            DetachStep::CreateEventSource { device: 2 },
            DetachStep::Capture { device: 2 },
            DetachStep::Open { device: 2 },
        ]
    );
    assert_eq!(device.state, state(2, true, true));

    // Once captured, nothing more is asked.
    assert_eq!(done(device.detach_kernel_driver(0)), Ok(()));
}

#[test]
fn a_capture_tells_which_connection_to_close() {
    for (was_open, replies, expected) in [
        (true, GOOD, true),
        (true, Replies { open: Err(1), ..GOOD }, true),
        (true, Replies { open: Err(1), release: Err(2), ..GOOD }, true),
        (true, Replies { capture: Err(1), ..GOOD }, false),
        (false, GOOD, false),
    ] {
        let mut device = device();
        device.state.connection.is_open_exclusive = was_open;
        let before = device.state.connection;
        let _ = detach(&mut device, &replies);
        let to_close = before.to_close(&device.state.connection);
        assert_eq!(to_close, if expected { Some(before) } else { None });
    }

    // A release closes the device itself, and keeps the connection.
    let mut device = device();
    detach(&mut device, &GOOD).1.unwrap();
    let before = device.state.connection;
    device.attach_kernel_driver(0, Ok(())).unwrap();
    assert_eq!(before.to_close(&device.state.connection), None);
}

#[test]
fn other_users_need_authorization() {
    let mut refused = device();
    let replies = Replies { user: 501, authorize: Err(kIOReturnNotPermitted), ..GOOD };
    let (asked, result) = detach(&mut refused, &replies);
    assert_eq!(asked.last(), Some(&DetachStep::Authorize));
    assert_eq!(
        result,
        Err(iokit_error(
            kIOReturnNotPermitted,
            "failed to authorize USB device; capture requires root or the com.apple.vm.device-access entitlement"
        ))
    );
    assert_eq!(result.unwrap_err().kind(), ErrorKind::PermissionDenied);
    assert_eq!(refused.state, state(1, false, false));

    let mut authorized = device();
    let replies = Replies { user: 501, authorize: Ok(()), ..GOOD };
    assert_eq!(detach(&mut authorized, &replies).1, Ok(()));
    assert!(authorized.state.captured);
}

#[test]
fn capture_failures_before_the_capture_change_nothing() {
    let no_device = Error::new(ErrorKind::Disconnected, "gone");
    let cases = [
        (Replies { created: Err(no_device), ..GOOD }, no_device),
        (
            Replies { event_source: Err(5), ..GOOD },
            iokit_error(5, "failed to create async event source"),
        ),
        (
            Replies { capture: Err(kIOReturnBusy), ..GOOD },
            iokit_error(kIOReturnBusy, "failed to capture USB device"),
        ),
    ];
    for (replies, error) in cases {
        let mut device = device();
        assert_eq!(detach(&mut device, &replies).1, Err(error));
        assert_eq!(device.state, state(1, false, false));
    }

    let mut device = device();
    let step = ask(device.detach_kernel_driver(0));
    let next = device.detach_step(step, DetachReply::Service(Err(no_device)));
    assert_eq!(done(next), Err(no_device));
}

#[test]
fn a_capture_that_cannot_be_opened_is_rolled_back() {
    let mut device = device();
    let replies = Replies { open: Err(kIOReturnNoDevice), ..GOOD };
    let (asked, result) = detach(&mut device, &replies);
    assert_eq!(
        asked.last(),
        Some(&DetachStep::Release { device: 2, open_error: kIOReturnNoDevice })
    );
    assert_eq!(
        result,
        Err(iokit_error(kIOReturnNoDevice, "failed to reopen USB device after capture"))
    );
    assert_eq!(device.state, state(2, false, false));
}

#[test]
fn a_failed_rollback_keeps_the_capture_for_a_later_release() {
    let mut device = device();
    let replies = Replies { open: Err(1), release: Err(kIOReturnBusy), ..GOOD };
    assert_eq!(
        detach(&mut device, &replies).1,
        Err(iokit_error(
            kIOReturnBusy,
            "failed to release USB device after capture setup failed"
        ))
    );
    assert_eq!(device.state, state(2, false, true));
    assert_eq!(device.attach_allowed(), Ok(()));
    assert_eq!(device.attach_kernel_driver(0, Ok(())), Ok(()));
    assert_eq!(device.state, state(2, false, false));
}

#[test]
fn attach_releases_the_capture() {
    let mut device = device();
    let not_captured = Err(Error::new(ErrorKind::Busy, "USB device is not captured"));
    assert_eq!(device.attach_allowed(), not_captured);
    assert_eq!(device.attach_kernel_driver(0, Ok(())), not_captured);

    assert_eq!(detach(&mut device, &GOOD).1, Ok(()));
    assert_eq!(
        device.attach_kernel_driver(0, Err(kIOReturnBusy)),
        Err(iokit_error(kIOReturnBusy, "failed to release captured USB device"))
    );
    assert_eq!(device.state, state(2, true, true));

    // The interface number does not count.
    assert_eq!(device.attach_kernel_driver(200, Ok(())), Ok(()));
    assert_eq!(device.state, state(2, false, false));
}

#[test]
fn capture_is_refused_for_mass_storage_and_claimed_devices() {
    let mut device = device();
    assert_eq!(
        done(device.detach_kernel_driver(3)).unwrap_err().kind(),
        ErrorKind::NotFound
    );
    device.active_config = 2;
    assert_eq!(
        done(device.detach_kernel_driver(3)).unwrap_err().kind(),
        ErrorKind::Unsupported
    );

    device.active_config = 1;
    device.claimed_interfaces = 1;
    assert_eq!(
        done(device.detach_kernel_driver(0)),
        Err(Error::new(
            ErrorKind::Busy,
            "cannot capture device while interfaces are claimed"
        ))
    );
    assert_eq!(
        device.attach_kernel_driver(0, Ok(())),
        Err(Error::new(
            ErrorKind::Busy,
            "cannot release captured device while interfaces are claimed"
        ))
    );
    let busy = Err(Error::new(
        ErrorKind::Busy,
        "cannot perform this operation while interfaces are claimed",
    ));
    assert_eq!(done(device.set_configuration(1)), busy);
    assert_eq!(done(device.reset()), busy);
    assert_eq!(device.require_open_exclusive(Ok(())), busy);
}

#[test]
fn a_reply_to_another_question_is_ignored() {
    let mut device = device();
    let step = ask(device.detach_kernel_driver(0));
    let next = device.detach_step(step, DetachReply::EffectiveUser(0));
    assert_eq!(ask(next), DetachStep::FindService);
    let claim = device.claim_interface(0);
    assert_eq!(ask(device.claim_step(claim, ClaimReply::Status(Ok(())))), claim);
}

#[test]
fn selecting_a_configuration_opens_the_device_first() {
    let mut device = device();
    let request = ExclusiveRequest::SetConfiguration(2);
    let step = ask(device.set_configuration(2));
    assert_eq!(step, ExclusiveStep::Open(request));
    let step = ask(device.exclusive_step(step, Ok(())));
    assert_eq!(step, ExclusiveStep::Perform(request));
    assert!(device.state.connection.is_open_exclusive);
    assert_eq!(device.active_configuration_value(), 1);
    assert_eq!(done(device.exclusive_step(step, Ok(()))), Ok(()));
    assert_eq!(device.active_configuration_value(), 2);

    // The device stays open.
    assert_eq!(
        ask(device.reset()),
        ExclusiveStep::Perform(ExclusiveRequest::Reset)
    );
}

#[test]
fn exclusive_requests_report_their_failures() {
    let mut device = device();
    let step = ask(device.set_configuration(2));
    assert_eq!(
        done(device.exclusive_step(step, Err(kIOReturnBusy))),
        Err(iokit_error(kIOReturnBusy, "could not open device for exclusive access"))
    );
    assert!(!device.state.connection.is_open_exclusive);

    assert_eq!(device.require_open_exclusive(Ok(())), Ok(()));
    let step = ask(device.set_configuration(2));
    assert_eq!(
        done(device.exclusive_step(step, Err(7))),
        Err(iokit_error(7, "failed to set configuration"))
    );
    assert_eq!(device.active_configuration_value(), 1);

    let step = ask(device.reset());
    assert_eq!(
        done(device.exclusive_step(step, Err(8))),
        Err(iokit_error(8, "failed to reset device"))
    );
    let step = ask(device.reset());
    assert_eq!(done(device.exclusive_step(step, Ok(()))), Ok(()));
}

#[test]
fn a_connection_is_opened_once() {
    let mut connection = DeviceConnection::new(4, Ok(())).unwrap();
    assert!(connection.needs_open());
    assert!(!connection.needs_close());
    assert_eq!(connection.open(Err(3)), Err(3));
    assert!(connection.needs_open());
    assert_eq!(connection.open(Ok(())), Ok(()));
    assert!(!connection.needs_open());
    assert!(connection.needs_close());
    assert_eq!(connection.open(Err(3)), Ok(()));
    connection.mark_closed();
    assert_eq!(connection, DeviceConnection { device: 4, is_open_exclusive: false });
    assert_eq!(
        DeviceConnection::new(4, Err(6)),
        Err(iokit_error(6, "failed to create async event source"))
    );
}

#[test]
fn claiming_finds_the_interface_by_its_number() {
    let mut device = device();
    let request = ClaimRequest { interface_number: 5, seize: true };
    let step = device.detach_and_claim_interface(5);
    assert_eq!(step, ClaimStep::ListInterfaces(request));
    let numbers = vec![None, Some(261), Some(5), Some(5)];
    let step = ask(device.claim_step(step, ClaimReply::Interfaces(Ok(numbers))));
    assert_eq!(step, ClaimStep::CreateInterface(request, 2));
    let step = ask(device.claim_step(step, ClaimReply::Interface(Ok(()))));
    assert_eq!(step, ClaimStep::CreateEventSource(request));
    let step = ask(device.claim_step(step, ClaimReply::Status(Ok(()))));
    assert_eq!(step, ClaimStep::Open(request));
    assert_eq!(device.claimed_interfaces, 0);
    let interface = done(device.claim_step(step, ClaimReply::Status(Ok(())))).unwrap();
    assert_eq!(interface.interface_number, 5);
    assert_eq!(interface.registry_id, device.registry_id);
    assert_eq!(interface.get_alt_setting(), 0);
    assert_eq!(device.claimed_interfaces, 1);

    assert_eq!(
        MacInterface::release(None, &mut device),
        Err(Error::new(ErrorKind::Busy, "interface is still in use"))
    );
    assert_eq!(device.claimed_interfaces, 1);
    assert_eq!(MacInterface::release(Some(interface), &mut device), Ok(()));
    assert_eq!(device.claimed_interfaces, 0);
}

#[test]
fn claims_that_fail_do_not_count() {
    let mut device = device();
    let request = ClaimRequest { interface_number: 0, seize: false };
    let list = device.claim_interface(0);
    assert_eq!(list, ClaimStep::ListInterfaces(request));
    let gone = Error::new(ErrorKind::Disconnected, "gone");
    let cases = [
        (
            list,
            ClaimReply::Interfaces(Err(9)),
            iokit_error(9, "failed to create interface iterator"),
        ),
        (
            list,
            ClaimReply::Interfaces(Ok(vec![Some(1), None])),
            Error::new(ErrorKind::NotFound, "interface not found"),
        ),
        (
            ClaimStep::CreateInterface(request, 0),
            ClaimReply::Interface(Err(gone)),
            gone,
        ),
        (
            ClaimStep::CreateEventSource(request),
            ClaimReply::Status(Err(10)),
            iokit_error(10, "failed to create async event source"),
        ),
        (
            ClaimStep::Open(request),
            ClaimReply::Status(Err(kIOReturnBusy)),
            iokit_error(kIOReturnBusy, "failed to open interface"),
        ),
    ];
    for (step, reply, error) in cases {
        assert_eq!(done(device.claim_step(step, reply)), Err(error));
        assert_eq!(device.claimed_interfaces, 0);
    }
}

#[test]
fn the_claim_count_wraps_around() {
    let mut device = device();
    device.claimed_interfaces = usize::MAX;
    let interface = device.interface_claimed(1);
    assert_eq!(device.claimed_interfaces, 0);
    device.interface_dropped(interface);
    assert_eq!(device.claimed_interfaces, usize::MAX);
}
