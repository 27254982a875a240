//! The status codes of IOKit calls that the rest of the library tells apart.
//!
//! They carry the names and values of `<IOKit/IOReturn.h>`: the IOKit system code in the top six
//! bits, the common subsystem below it, and the code itself in the low bits.
use vstd::prelude::*;

verus! {

/// What an IOKit call returns.
pub type IOReturn = i32;

/// The bits that every common IOKit code shares: `0xe000_0000` as a signed number.
pub const SYS_IOKIT: IOReturn = -0x2000_0000;

/// The call succeeded.
#[allow(non_upper_case_globals)]
pub const kIOReturnSuccess: IOReturn = 0;

/// There is no such device.
#[allow(non_upper_case_globals)]
pub const kIOReturnNoDevice: IOReturn = SYS_IOKIT + 0x2c0;

/// The caller lacks a privilege.
#[allow(non_upper_case_globals)]
pub const kIOReturnNotPrivileged: IOReturn = SYS_IOKIT + 0x2c1;

/// An argument is invalid.
#[allow(non_upper_case_globals)]
pub const kIOReturnBadArgument: IOReturn = SYS_IOKIT + 0x2c2;

/// The device is already open for exclusive access.
#[allow(non_upper_case_globals)]
pub const kIOReturnExclusiveAccess: IOReturn = SYS_IOKIT + 0x2c5;

/// The function is not supported.
#[allow(non_upper_case_globals)]
pub const kIOReturnUnsupported: IOReturn = SYS_IOKIT + 0x2c7;

/// The device is not open.
#[allow(non_upper_case_globals)]
pub const kIOReturnNotOpen: IOReturn = SYS_IOKIT + 0x2cd;

/// The device is busy.
#[allow(non_upper_case_globals)]
pub const kIOReturnBusy: IOReturn = SYS_IOKIT + 0x2d5;

/// The call is not permitted.
#[allow(non_upper_case_globals)]
pub const kIOReturnNotPermitted: IOReturn = SYS_IOKIT + 0x2e2;

/// What was asked for was not found.
#[allow(non_upper_case_globals)]
pub const kIOReturnNotFound: IOReturn = SYS_IOKIT + 0x2f0;

/// The codes are those of the system: `0xe000_0000` and a number of its own for each, read as a
/// signed 32-bit number.
pub proof fn law_codes_are_those_of_the_system()
    ensures
        kIOReturnSuccess == 0,
        kIOReturnNoDevice + 0x1_0000_0000 == 0xe000_02c0,
        kIOReturnNotPrivileged + 0x1_0000_0000 == 0xe000_02c1,
        kIOReturnBadArgument + 0x1_0000_0000 == 0xe000_02c2,
        kIOReturnExclusiveAccess + 0x1_0000_0000 == 0xe000_02c5,
        kIOReturnUnsupported + 0x1_0000_0000 == 0xe000_02c7,
        kIOReturnNotOpen + 0x1_0000_0000 == 0xe000_02cd,
        kIOReturnBusy + 0x1_0000_0000 == 0xe000_02d5,
        kIOReturnNotPermitted + 0x1_0000_0000 == 0xe000_02e2,
        kIOReturnNotFound + 0x1_0000_0000 == 0xe000_02f0,
{
}

} // verus!
