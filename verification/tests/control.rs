use mac_usb::connection::DeviceConnection;
use mac_usb::control::{
    ControlIn, ControlOut, ControlType, IOUSBDevRequestTO, Recipient, Timeout,
};
use mac_usb::descriptors::DeviceDescriptor;
use mac_usb::device::{DeviceState, MacDevice};
use mac_usb::interface::MacInterface;
use mac_usb::ret::{kIOReturnNoDevice, kIOReturnSuccess};
use mac_usb::transfer::{transfer_callback, Direction, TransferError};

fn device() -> MacDevice {
    MacDevice {
        registry_id: 1,
        state: DeviceState {
            connection: DeviceConnection { device: 31, is_open_exclusive: true },
            captured: false,
        },
        device_descriptor: DeviceDescriptor { bytes: [0; 18] },
        config_descriptors: vec![],
        speed: None,
        active_config: 0,
        claimed_interfaces: 0,
    }
}

const READ: ControlIn = ControlIn {
    control_type: ControlType::Vendor,
    recipient: Recipient::Interface,
    request: 0xb0,
    value: 0x1234,
    index: 0x5678,
    length: 300,
};

const SECOND: Timeout = Timeout { secs: 1, subsec_nanos: 2_999_999 };

#[test]
fn timeouts_count_whole_milliseconds() {
    assert_eq!(SECOND.as_millis(), 1002);
    assert_eq!(Timeout { secs: 0, subsec_nanos: 999_999 }.as_millis(), 0);
    assert_eq!(
        Timeout { secs: u64::MAX, subsec_nanos: 999_999_999 }.as_millis(),
        u64::MAX as u128 * 1000 + 999
    );
}

#[test]
fn request_types_hold_direction_group_and_recipient() {
    assert_eq!(READ.request_type(), 0xc1);
    let read = ControlIn {
        control_type: ControlType::Standard,
        recipient: Recipient::Device,
        ..READ
    };
    assert_eq!(read.request_type(), 0x80);
    let write = ControlOut {
        control_type: ControlType::Class,
        recipient: Recipient::Endpoint,
        request: 0,
        value: 0,
        index: 0,
        data: &[],
    };
    assert_eq!(write.request_type(), 0x22);
    let write = ControlOut { recipient: Recipient::Other, ..write };
    assert_eq!(write.request_type(), 0x23);
}

#[test]
fn control_in_asks_for_the_length() {
    let made = device().control_in(READ, SECOND, 8);
    assert_eq!(made.device, 31);
    assert_eq!(made.direction, Direction::In);
    assert_eq!(
        made.request,
        IOUSBDevRequestTO {
            bmRequestType: 0xc1,
            bRequest: 0xb0,
            wValue: 0x1234,
            wIndex: 0x5678,
            wLength: 300,
            wLenDone: 0,
            completionTimeout: 1002,
            noDataTimeout: 1002,
        }
    );
    assert_eq!(made.transfer.id, 8);
    assert_eq!(made.transfer.requested_len, 300);
    assert_eq!(made.transfer.memory, vec![0; 300]);
}

#[test]
fn control_out_carries_the_data() {
    let device = device();
    let interface = MacInterface::new(1, 0);
    let data = ControlOut {
        control_type: ControlType::Vendor,
        recipient: Recipient::Device,
        request: 1,
        value: 2,
        index: 3,
        data: &[4, 5, 6],
    };
    for made in [
        device.control_out(data, SECOND, 9),
        interface.control_out(&device, data, SECOND, 9),
    ] {
        assert_eq!(made.device, 31);
        assert_eq!(made.direction, Direction::Out);
        assert_eq!(made.request.bmRequestType, 0x40);
        assert_eq!(made.request.wLength, 3);
        assert_eq!(made.transfer.memory, vec![4, 5, 6]);
        assert_eq!(made.transfer.requested_len, 3);
        let refused = Err(TransferError::Stall);
        let transfer = MacDevice::submit_control(made.transfer, kIOReturnSuccess);
        assert_eq!(MacDevice::control_out_result(transfer, refused), refused);
    }
    let transfer = device.control_out(data, SECOND, 9).transfer;
    assert_eq!(MacDevice::control_out_result(transfer, Ok(())), Ok(()));
}

#[test]
fn an_interface_reads_through_its_device() {
    let device = device();
    let made = MacInterface::new(1, 0).control_in(&device, READ, SECOND, 8);
    assert_eq!(made.device, 31);
    assert_eq!(made.request, device.control_in(READ, SECOND, 8).request);
    assert_eq!(made.transfer.memory.len(), 300);
}

#[test]
fn a_control_transfer_ends_by_report_or_by_refusal() {
    let made = device().control_in(READ, SECOND, 8);
    let mut transfer = MacDevice::submit_control(made.transfer, kIOReturnSuccess);
    assert!(!transfer.complete);
    transfer.memory = vec![1, 2, 0, 0];
    transfer_callback(&mut transfer, kIOReturnSuccess, 2);
    assert!(transfer.complete);
    assert_eq!((transfer.actual_len, transfer.status), (2, kIOReturnSuccess));
    assert_eq!(MacDevice::control_in_result(transfer, Ok(())), Ok(vec![1, 2]));

    let made = device().control_in(READ, SECOND, 8);
    let refused = MacDevice::submit_control(made.transfer, kIOReturnNoDevice);
    assert!(refused.complete);
    assert_eq!((refused.actual_len, refused.status), (0, kIOReturnNoDevice));
    assert_eq!(
        MacDevice::control_in_result(refused, Err(TransferError::Disconnected)),
        Err(TransferError::Disconnected)
    );
}
