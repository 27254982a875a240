use mac_usb::descriptors::ConfigurationDescriptor;

const CONFIG: [u8; 34] = [
    9, 2, 34, 0, 1, 7, 0, 0x80, 50, // configuration 7
    9, 4, 0, 0, 1, 3, 1, 2, 0, // interface 0, class 3
    9, 0x21, 0x11, 1, 0, 1, 0x22, 65, 0, // class-specific
    7, 5, 0x81, 3, 8, 0, 10, // endpoint
];

#[test]
fn a_whole_configuration_is_accepted_and_trimmed() {
    let mut bytes = CONFIG.to_vec();
    bytes.extend_from_slice(&[1, 2, 3]);
    let config = ConfigurationDescriptor::new(&bytes).unwrap();
    assert_eq!(config.bytes, &CONFIG[..]);
    assert_eq!(config.configuration_value(), 7);
}

#[test]
fn an_unchecked_configuration_is_taken_as_it_is() {
    let bytes = [0u8, 1, 2, 3, 4, 5];
    let config = ConfigurationDescriptor::new_unchecked(&bytes);
    assert_eq!(config.bytes, &bytes[..]);
    assert_eq!(config.configuration_value(), 5);
}

#[test]
fn malformed_configurations_are_refused() {
    assert!(ConfigurationDescriptor::new(&[]).is_none());
    assert!(ConfigurationDescriptor::new(&CONFIG[..8]).is_none());
    assert!(ConfigurationDescriptor::new(&CONFIG[..33]).is_none());

    let mut short = CONFIG;
    short[0] = 8;
    assert!(ConfigurationDescriptor::new(&short).is_none());

    let mut other_type = CONFIG;
    other_type[1] = 1;
    assert!(ConfigurationDescriptor::new(&other_type).is_none());

    let mut too_short_total = CONFIG;
    too_short_total[2] = 8;
    assert!(ConfigurationDescriptor::new(&too_short_total).is_none());

    let mut too_long_total = CONFIG;
    too_long_total[3] = 1;
    assert!(ConfigurationDescriptor::new(&too_long_total).is_none());
}

#[test]
fn the_total_length_has_two_bytes() {
    let mut bytes = vec![0u8; 0x0103];
    bytes[..9].copy_from_slice(&[9, 2, 3, 1, 0, 1, 0, 0, 0]);
    assert_eq!(ConfigurationDescriptor::new(&bytes).unwrap().bytes.len(), 0x0103);
    bytes.pop();
    assert!(ConfigurationDescriptor::new(&bytes).is_none());
}

#[test]
fn interface_settings_are_found_among_other_descriptors() {
    let settings = ConfigurationDescriptor::new_unchecked(&CONFIG).interface_alt_settings();
    assert_eq!(settings.len(), 1);
    assert_eq!(settings[0].interface_number(), 0);
    assert_eq!(settings[0].class(), 3);
}

#[test]
fn interface_settings_end_at_the_first_malformed_descriptor() {
    let interface = [9u8, 4, 2, 0, 0, 0xff, 0, 0, 0];
    let mut bytes = CONFIG[..9].to_vec();
    bytes.extend_from_slice(&interface);
    bytes.extend_from_slice(&[8, 4, 3, 0, 0, 8, 0, 0]); // too short to be an interface
    bytes.extend_from_slice(&interface);
    bytes.extend_from_slice(&[1, 4]); // no descriptor
    bytes.extend_from_slice(&interface);
    let settings = ConfigurationDescriptor::new_unchecked(&bytes).interface_alt_settings();
    assert_eq!(settings.len(), 2);
    assert_eq!(settings[1].interface_number(), 2);

    let cut = &bytes[..17];
    assert!(ConfigurationDescriptor::new_unchecked(cut)
        .interface_alt_settings()
        .is_empty());
}
