//! The connection to a device.
use crate::error::{iokit_error, Error};
use crate::ret::IOReturn;
use vstd::prelude::*;

verus! {

/// A connection to a device, and whether it holds the device open for exclusive access.
#[derive(Clone, Copy, Debug, PartialEq, Eq)]
pub struct DeviceConnection {
    /// The system's device object that the connection belongs to.
    pub device: u64,
    /// Whether the device is open for exclusive access through this connection.
    pub is_open_exclusive: bool,
}

/// A connection through `device` that does not hold it open.
pub open spec fn closed_connection(device: u64) -> DeviceConnection {
    DeviceConnection { device, is_open_exclusive: false }
}

/// A connection through `device` that holds it open.
pub open spec fn open_connection(device: u64) -> DeviceConnection {
    DeviceConnection { device, is_open_exclusive: true }
}

/// The connection that has to be closed where `after` takes the place of `before`.
pub open spec fn connection_to_close(
    before: DeviceConnection,
    after: DeviceConnection,
) -> Option<DeviceConnection> {
    if before.device != after.device && before.needs_close() {
        Some(before)
    } else {
        None
    }
}

impl DeviceConnection {
    /// The connection through `device`, given what creating its event source returned.
    pub fn new(device: u64, event_source: Result<(), IOReturn>) -> (r: Result<
        DeviceConnection,
        Error,
    >)
        ensures
            r == (match event_source {
                Ok(_) => Ok::<DeviceConnection, Error>(closed_connection(device)),
                Err(code) => Err(iokit_error(code, "failed to create async event source")),
            }),
            match (event_source, r) {
                (Ok(_), Ok(connection)) => connection.device == device
                    && !connection.is_open_exclusive,
                (Err(code), Err(error)) => error.code == Some(code),
                _ => false,
            },
    {
        match event_source {
            Ok(_) => Ok(DeviceConnection { device, is_open_exclusive: false }),
            Err(code) => Err(iokit_error(code, "failed to create async event source")),
        }
    }

    /// Whether the device has to be opened before the connection holds it open.
    #[verifier::allow_in_spec]
    pub fn needs_open(&self) -> bool
        returns
            !self.is_open_exclusive,
    {
        !self.is_open_exclusive
    }

    /// Makes the connection hold its device open, given what opening the device returned.
    ///
    /// A connection that holds the device open already is left as it is. Its device is not opened
    /// a second time, so `attempt` does not count.
    pub fn open(&mut self, attempt: Result<(), IOReturn>) -> (r: Result<(), IOReturn>)
        ensures
            final(self).device == old(self).device,
            final(self).is_open_exclusive <==> old(self).is_open_exclusive || attempt is Ok,
            r == (match attempt {
                Err(code) if !old(self).is_open_exclusive => Err::<(), IOReturn>(code),
                _ => Ok(()),
            }),
    {
        if !self.is_open_exclusive {
            match attempt {
                Ok(_) => {},
                Err(code) => {
                    return Err(code);
                },
            }
            self.is_open_exclusive = true;
        }
        Ok(())
    }

    /// Records that the system has closed the device.
    pub fn mark_closed(&mut self)
        ensures
            *final(self) == closed_connection(old(self).device),
            final(self).device == old(self).device,
            !final(self).is_open_exclusive,
    {
        self.is_open_exclusive = false;
    }

    /// The connection that has to be closed where `after` takes the place of this one: this one,
    /// where it holds its device open and `after` belongs to another device object.
    pub fn to_close(&self, after: &DeviceConnection) -> (r: Option<DeviceConnection>)
        ensures
            r == connection_to_close(*self, *after),
            r is Some <==> self.is_open_exclusive && self.device != after.device,
            r matches Some(connection) ==> connection == *self,
    {
        if self.device != after.device && self.needs_close() {
            Some(*self)
        } else {
            None
        }
    }

    /// Whether the device has to be closed when the connection goes away.
    #[verifier::allow_in_spec]
    pub fn needs_close(&self) -> bool
        returns
            self.is_open_exclusive,
    {
        self.is_open_exclusive
    }
}

/// A connection that was just made does not hold its device open, and one that was opened does.
pub proof fn law_connection_belongs_to_its_device(device: u64)
    ensures
        closed_connection(device).device == device,
        closed_connection(device).needs_open(),
        !closed_connection(device).needs_close(),
        open_connection(device).device == device,
        !open_connection(device).needs_open(),
        open_connection(device).needs_close(),
{
}

/// A connection has to be closed exactly where it holds its device open and another device object
/// takes its place.
pub proof fn law_only_a_replaced_open_connection_is_closed(
    before: DeviceConnection,
    after: DeviceConnection,
)
    ensures
        connection_to_close(before, after) is Some <==> before.is_open_exclusive && before.device
            != after.device,
        connection_to_close(before, after) matches Some(connection) ==> connection == before,
{
}

} // verus!
