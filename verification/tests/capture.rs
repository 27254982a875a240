use mac_usb::capture::validate_capture_interface;
use mac_usb::error::{Error, ErrorKind};

fn configuration(value: u8, num_interfaces: u8, settings: &[(u8, u8, u8)]) -> Vec<u8> {
    let total_length = 9 + settings.len() * 9;
    let mut descriptor = vec![
        9,
        2,
        total_length as u8,
        (total_length >> 8) as u8,
        num_interfaces,
        value,
        0,
        0x80,
        50,
    ];
    for &(interface, alternate_setting, class) in settings {
        descriptor.extend_from_slice(&[9, 4, interface, alternate_setting, 0, class, 0, 0, 0]);
    }
    descriptor
}

#[test]
fn test_capture_validation_uses_only_the_active_configuration() {
    let configs = vec![
        configuration(1, 1, &[(1, 0, 0xff)]),
        configuration(2, 1, &[(2, 0, 0xff)]),
    ];

    assert!(validate_capture_interface(&configs, 2, 2).is_ok());

    let inactive_interface = validate_capture_interface(&configs, 2, 1).unwrap_err();
    assert_eq!(
        inactive_interface.kind(),
        ErrorKind::NotFound,
        "an interface that exists only in an inactive configuration must be rejected"
    );
}

#[test]
fn test_capture_rejects_mass_storage_in_any_alternate_setting() {
    let configs = vec![configuration(1, 1, &[(3, 0, 0xff), (3, 1, 0x08)])];

    let mass_storage = validate_capture_interface(&configs, 1, 3).unwrap_err();
    assert_eq!(
        mass_storage.kind(),
        ErrorKind::Unsupported,
        "Apple leaves mass-storage drivers attached during device capture"
    );
}

#[test]
fn capture_errors_say_what_is_missing() {
    let configs = vec![configuration(1, 2, &[(0, 0, 3), (1, 0, 8)])];

    assert_eq!(
        validate_capture_interface(&configs, 2, 0),
        Err(Error::new(ErrorKind::NotFound, "active configuration not found"))
    );
    assert_eq!(
        validate_capture_interface(&[], 1, 0),
        Err(Error::new(ErrorKind::NotFound, "active configuration not found"))
    );
    assert_eq!(
        validate_capture_interface(&configs, 1, 2),
        Err(Error::new(ErrorKind::NotFound, "interface not found"))
    );
    assert_eq!(
        validate_capture_interface(&configs, 1, 1),
        Err(Error::new(
            ErrorKind::Unsupported,
            "macOS cannot detach mass-storage interface drivers"
        ))
    );
    assert_eq!(validate_capture_interface(&configs, 1, 0), Ok(()));
}

#[test]
fn capture_takes_the_first_configuration_with_the_active_value() {
    let configs = vec![
        configuration(1, 1, &[(0, 0, 0xff)]),
        configuration(1, 1, &[(0, 0, 0x08)]),
        vec![9],
    ];
    assert_eq!(validate_capture_interface(&configs, 1, 0), Ok(()));
}

#[test]
fn mass_storage_of_another_interface_does_not_matter() {
    let configs = vec![configuration(1, 2, &[(0, 0, 0x08), (1, 0, 0xff), (0, 1, 0xff)])];
    assert_eq!(validate_capture_interface(&configs, 1, 1), Ok(()));
    assert_eq!(
        validate_capture_interface(&configs, 1, 0).unwrap_err().kind(),
        ErrorKind::Unsupported
    );
}
