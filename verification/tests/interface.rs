use mac_usb::bitset::EndpointBitSet;
use mac_usb::descriptors::EndpointDescriptor;
use mac_usb::endpoint::MacEndpoint;
use mac_usb::error::{iokit_error, Error, ErrorKind};
use mac_usb::interface::MacInterface;
use mac_usb::ret::kIOReturnNotFound;

fn descriptor(address: u8) -> EndpointDescriptor {
    EndpointDescriptor { address, max_packet_size: 512 }
}

fn take(
    interface: &mut MacInterface,
    address: u8,
    pipe_ref: Option<u8>,
) -> Result<MacEndpoint<u32>, Error> {
    interface.endpoint(descriptor(address), pipe_ref)
}

#[test]
fn the_alternate_setting_follows_success() {
    let mut interface = MacInterface::new(77, 2);
    assert_eq!(interface.get_alt_setting(), 0);
    assert_eq!(interface.set_alt_setting_allowed(), Ok(()));
    assert_eq!(interface.set_alt_setting(3, Ok(())), Ok(()));
    assert_eq!(interface.get_alt_setting(), 3);
    assert_eq!(
        interface.set_alt_setting(4, Err(kIOReturnNotFound)),
        Err(iokit_error(kIOReturnNotFound, "failed to set alternate interface"))
    );
    assert_eq!(interface.get_alt_setting(), 3);
}

#[test]
fn the_alternate_setting_is_fixed_while_an_endpoint_is_used() {
    let mut interface = MacInterface::new(77, 2);
    let endpoint = take(&mut interface, 0x81, Some(1)).unwrap();
    let busy = Err(Error::new(
        ErrorKind::Busy,
        "can't change alternate setting while endpoints are in use",
    ));
    assert_eq!(interface.set_alt_setting_allowed(), busy);
    assert_eq!(interface.set_alt_setting(1, Ok(())), busy);
    assert_eq!(interface.get_alt_setting(), 0);
    interface.endpoint_dropped(endpoint.endpoint_address());
    assert_eq!(interface.set_alt_setting(1, Ok(())), Ok(()));
}

#[test]
fn an_endpoint_has_one_user() {
    let mut interface = MacInterface::new(77, 0);
    let endpoint = take(&mut interface, 0x81, Some(4)).unwrap();
    assert_eq!(endpoint.endpoint_address(), 0x81);
    assert_eq!(endpoint.pipe_ref, 4);
    assert_eq!(endpoint.max_packet_size, 512);
    assert_eq!(endpoint.pending(), 0);
    assert!(!endpoint.needs_cancel());

    assert_eq!(
        take(&mut interface, 0x81, Some(4)).unwrap_err(),
        Error::new(ErrorKind::Busy, "endpoint already in use")
    );
    assert!(take(&mut interface, 0x01, Some(5)).is_ok());
    assert!(take(&mut interface, 0x82, Some(6)).is_ok());

    interface.endpoint_dropped(0x81);
    assert!(take(&mut interface, 0x81, Some(4)).is_ok());
}

#[test]
fn an_endpoint_without_a_pipe_does_not_exist() {
    let mut interface = MacInterface::new(77, 0);
    assert_eq!(
        take(&mut interface, 0x81, None).unwrap_err(),
        Error::new(
            ErrorKind::NotFound,
            "specified endpoint does not exist on IOKit interface"
        )
    );
    assert_eq!(interface, MacInterface::new(77, 0));
}

#[test]
fn endpoint_sets_hold_each_endpoint_by_itself() {
    let addresses: Vec<u8> = (0..=255u8).collect();
    let mut set = EndpointBitSet::default();
    assert!(set.is_empty());
    for (i, &address) in addresses.iter().enumerate() {
        assert!(!set.is_set(address));
        set.set(address);
        assert!(!set.is_empty());
        for (j, &other) in addresses.iter().enumerate() {
            assert_eq!(set.is_set(other), j <= i);
        }
    }
    for &address in &addresses {
        assert!(!set.is_empty());
        set.clear(address);
        assert!(!set.is_set(address));
    }
    assert!(set.is_empty());
    set.clear(0x81);
    assert!(set.is_empty());
}
