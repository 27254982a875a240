//! The errors that operations on a device report.
use crate::ret::{
    kIOReturnBusy, kIOReturnExclusiveAccess, kIOReturnNoDevice, kIOReturnNotFound,
    kIOReturnNotOpen, kIOReturnNotPermitted, kIOReturnNotPrivileged, kIOReturnUnsupported,
    IOReturn,
};
use vstd::prelude::*;

verus! {

/// What went wrong, in terms that do not depend on the operating system.
#[derive(Clone, Copy, Debug, PartialEq, Eq, Structural)]
pub enum ErrorKind {
    /// The device is gone or its connection is closed.
    Disconnected,
    /// The device, interface or endpoint is in use.
    Busy,
    /// The process may not do this.
    PermissionDenied,
    /// What was named does not exist.
    NotFound,
    /// The operation is not available here.
    Unsupported,
    /// Any other failure.
    Other,
}

/// Why an operation on a device, interface or endpoint failed.
#[derive(Clone, Copy, Debug, PartialEq, Eq)]
pub struct Error {
    /// The kind of failure.
    pub kind: ErrorKind,
    /// What the library was doing.
    pub message: &'static str,
    /// The code of the IOKit call that failed, where one did.
    pub code: Option<IOReturn>,
}

impl Error {
    /// An error that the library itself found.
    #[verifier::allow_in_spec]
    pub fn new(kind: ErrorKind, message: &'static str) -> Error
        returns
            (Error { kind, message, code: None }),
    {
        Error { kind, message, code: None }
    }

    /// An error that an IOKit call reported with `code`.
    #[verifier::allow_in_spec]
    pub fn new_os(kind: ErrorKind, message: &'static str, code: IOReturn) -> Error
        returns
            (Error { kind, message, code: Some(code) }),
    {
        Error { kind, message, code: Some(code) }
    }

    /// The kind of failure.
    #[verifier::allow_in_spec]
    pub fn kind(&self) -> ErrorKind
        returns
            self.kind,
    {
        self.kind
    }
}

/// The kind of failure that an IOKit code stands for.
pub open spec fn iokit_error_kind(code: IOReturn) -> ErrorKind {
    if code == kIOReturnNoDevice || code == kIOReturnNotOpen {
        ErrorKind::Disconnected
    } else if code == kIOReturnBusy || code == kIOReturnExclusiveAccess {
        ErrorKind::Busy
    } else if code == kIOReturnNotPermitted || code == kIOReturnNotPrivileged {
        ErrorKind::PermissionDenied
    } else if code == kIOReturnNotFound {
        ErrorKind::NotFound
    } else if code == kIOReturnUnsupported {
        ErrorKind::Unsupported
    } else {
        ErrorKind::Other
    }
}

/// The error for an IOKit call that failed with `code` while doing what `message` says.
#[verifier::allow_in_spec]
#[allow(non_upper_case_globals)]
pub fn iokit_error(code: IOReturn, message: &'static str) -> Error
    returns
        Error::new_os(iokit_error_kind(code), message, code),
{
    let kind = match code {
        kIOReturnNoDevice | kIOReturnNotOpen => ErrorKind::Disconnected,
        kIOReturnBusy | kIOReturnExclusiveAccess => ErrorKind::Busy,
        kIOReturnNotPermitted | kIOReturnNotPrivileged => ErrorKind::PermissionDenied,
        kIOReturnNotFound => ErrorKind::NotFound,
        kIOReturnUnsupported => ErrorKind::Unsupported,
        _ => ErrorKind::Other,
    };

    Error::new_os(kind, message, code)
}

/// An error keeps what it was made of. One that the library found itself has no code, and one
/// that an IOKit call reported has that call's code, whatever the code is.
pub proof fn law_error_keeps_what_it_was_made_of(
    kind: ErrorKind,
    message: &'static str,
    code: IOReturn,
)
    ensures
        Error::new(kind, message).kind == kind,
        Error::new(kind, message).message == message,
        Error::new(kind, message).code is None,
        Error::new_os(kind, message, code).kind == kind,
        Error::new_os(kind, message, code).message == message,
        Error::new_os(kind, message, code).code == Some(code),
        Error::new(kind, message).kind() == kind,
        Error::new_os(kind, message, code).kind() == kind,
        iokit_error(code, message).message == message,
        iokit_error(code, message).code == Some(code),
{
}

/// Which codes stand for which kind of failure, by the numbers that the system gives them. Every
/// code that is not among them is some other failure.
pub proof fn law_kind_of_each_code(code: IOReturn, message: &'static str)
    ensures
        ({
            let kind = iokit_error(code, message).kind;
            let number = code + 0x2000_0000;
            &&& kind == ErrorKind::Disconnected <==> number == 0x2c0 || number == 0x2cd
            &&& kind == ErrorKind::Busy <==> number == 0x2c5 || number == 0x2d5
            &&& kind == ErrorKind::PermissionDenied <==> number == 0x2c1 || number == 0x2e2
            &&& kind == ErrorKind::NotFound <==> number == 0x2f0
            &&& kind == ErrorKind::Unsupported <==> number == 0x2c7
        }),
{
}

} // verus!
