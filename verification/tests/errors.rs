use mac_usb::error::{iokit_error, Error, ErrorKind};
use mac_usb::ret;

#[test]
fn iokit_codes_have_their_kinds() {
    let kinds = [
        (ret::kIOReturnNoDevice, 0xe000_02c0u32, ErrorKind::Disconnected),
        (ret::kIOReturnNotOpen, 0xe000_02cd, ErrorKind::Disconnected),
        (ret::kIOReturnBusy, 0xe000_02d5, ErrorKind::Busy),
        (ret::kIOReturnExclusiveAccess, 0xe000_02c5, ErrorKind::Busy),
        (ret::kIOReturnNotPermitted, 0xe000_02e2, ErrorKind::PermissionDenied),
        (ret::kIOReturnNotPrivileged, 0xe000_02c1, ErrorKind::PermissionDenied),
        (ret::kIOReturnNotFound, 0xe000_02f0, ErrorKind::NotFound),
        (ret::kIOReturnUnsupported, 0xe000_02c7, ErrorKind::Unsupported),
        (ret::kIOReturnBadArgument, 0xe000_02c2, ErrorKind::Other),
        (ret::kIOReturnSuccess, 0, ErrorKind::Other),
        (-1, 0xffff_ffff, ErrorKind::Other),
    ];
    for (code, bits, kind) in kinds {
        assert_eq!(code as u32, bits);
        let error = iokit_error(code, "what failed");
        assert_eq!(error.kind(), kind);
        assert_eq!(error.message, "what failed");
        assert_eq!(error.code, Some(code));
    }
}

#[test]
fn own_errors_have_no_code() {
    let error = Error::new(ErrorKind::Busy, "busy");
    assert_eq!(error.kind(), ErrorKind::Busy);
    assert_eq!(error.message, "busy");
    assert_eq!(error.code, None);
    assert_eq!(Error::new_os(ErrorKind::Busy, "busy", 3).code, Some(3));
}
