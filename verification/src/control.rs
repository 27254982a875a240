//! Control transfers.
use crate::device::MacDevice;
use crate::ret::IOReturn;
use crate::transfer::{new_transfer, submitted, Buffer, Direction, Transfer, TransferError};
use vstd::prelude::*;

verus! {

/// The group of requests that a control transfer belongs to.
#[derive(Clone, Copy, Debug, PartialEq, Eq, Structural)]
pub enum ControlType {
    /// Requests that the USB standard defines.
    Standard,
    /// Requests that a class specification defines.
    Class,
    /// Requests that the vendor defines.
    Vendor,
}

/// The part of the device that a control transfer addresses.
#[derive(Clone, Copy, Debug, PartialEq, Eq, Structural)]
pub enum Recipient {
    /// The device as a whole.
    Device,
    /// An interface.
    Interface,
    /// An endpoint.
    Endpoint,
    /// Something else.
    Other,
}

/// A control transfer that reads from the device.
#[derive(Clone, Copy, Debug, PartialEq, Eq)]
pub struct ControlIn {
    /// The group of the request.
    pub control_type: ControlType,
    /// What the request addresses.
    pub recipient: Recipient,
    /// `bRequest`.
    pub request: u8,
    /// `wValue`.
    pub value: u16,
    /// `wIndex`.
    pub index: u16,
    /// How many bytes to read at most.
    pub length: u16,
}

/// A control transfer that writes to the device.
#[derive(Clone, Copy, Debug, PartialEq, Eq)]
pub struct ControlOut<'a> {
    /// The group of the request.
    pub control_type: ControlType,
    /// What the request addresses.
    pub recipient: Recipient,
    /// `bRequest`.
    pub request: u8,
    /// `wValue`.
    pub value: u16,
    /// `wIndex`.
    pub index: u16,
    /// The bytes to write.
    pub data: &'a [u8],
}

/// The group of a request in bits 5 and 6 of `bmRequestType`.
pub open spec fn control_type_bits(control_type: ControlType) -> int {
    match control_type {
        ControlType::Standard => 0,
        ControlType::Class => 1,
        ControlType::Vendor => 2,
    }
}

/// The recipient of a request in the low bits of `bmRequestType`.
pub open spec fn recipient_bits(recipient: Recipient) -> int {
    match recipient {
        Recipient::Device => 0,
        Recipient::Interface => 1,
        Recipient::Endpoint => 2,
        Recipient::Other => 3,
    }
}

/// `bmRequestType`: the direction in the top bit, the group below it, the recipient at the bottom.
pub open spec fn request_type(
    direction: Direction,
    control_type: ControlType,
    recipient: Recipient,
) -> int {
    (if direction == Direction::In {
        0x80int
    } else {
        0
    }) + 0x20 * control_type_bits(control_type) + recipient_bits(recipient)
}

fn make_request_type(direction: Direction, control_type: ControlType, recipient: Recipient) -> (r:
    u8)
    ensures
        r == request_type(direction, control_type, recipient),
{
    let direction: u8 = match direction {
        Direction::Out => 0,
        Direction::In => 0x80,
    };
    let control_type: u8 = match control_type {
        ControlType::Standard => 0,
        ControlType::Class => 0x20,
        ControlType::Vendor => 0x40,
    };
    let recipient: u8 = match recipient {
        Recipient::Device => 0,
        Recipient::Interface => 1,
        Recipient::Endpoint => 2,
        Recipient::Other => 3,
    };
    direction + control_type + recipient
}

impl ControlIn {
    /// `bmRequestType`.
    pub fn request_type(&self) -> (r: u8)
        ensures
            r == request_type(Direction::In, self.control_type, self.recipient),
            r == 0x80 + 0x20 * (match self.control_type {
                ControlType::Standard => 0int,
                ControlType::Class => 1,
                ControlType::Vendor => 2,
            }) + (match self.recipient {
                Recipient::Device => 0int,
                Recipient::Interface => 1,
                Recipient::Endpoint => 2,
                Recipient::Other => 3,
            }),
    {
        make_request_type(Direction::In, self.control_type, self.recipient)
    }
}

impl<'a> ControlOut<'a> {
    /// `bmRequestType`.
    pub fn request_type(&self) -> (r: u8)
        ensures
            r == request_type(Direction::Out, self.control_type, self.recipient),
            r == 0x20 * (match self.control_type {
                ControlType::Standard => 0int,
                ControlType::Class => 1,
                ControlType::Vendor => 2,
            }) + (match self.recipient {
                Recipient::Device => 0int,
                Recipient::Interface => 1,
                Recipient::Endpoint => 2,
                Recipient::Other => 3,
            }),
    {
        make_request_type(Direction::Out, self.control_type, self.recipient)
    }
}

/// A span of time, in whole seconds and the nanoseconds beyond them.
#[derive(Clone, Copy, Debug, PartialEq, Eq)]
pub struct Timeout {
    /// The whole seconds.
    pub secs: u64,
    /// The nanoseconds beyond the whole seconds.
    pub subsec_nanos: u32,
}

impl Timeout {
    /// The whole milliseconds in the span.
    pub open spec fn millis(self) -> int {
        (self.secs * 1_000_000_000 + self.subsec_nanos) / 1_000_000
    }

    /// The whole milliseconds in the span.
    pub fn as_millis(&self) -> (r: u128)
        ensures
            r == self.millis(),
            r * 1_000_000 <= self.secs * 1_000_000_000 + self.subsec_nanos < (r + 1) * 1_000_000,
    {
        assert((self.secs * 1_000_000_000 + self.subsec_nanos) / 1_000_000 == self.secs * 1000
            + self.subsec_nanos / 1_000_000) by (nonlinear_arith);
        self.secs as u128 * 1000 + (self.subsec_nanos / 1_000_000) as u128
    }
}

/// A control request as the system takes it. The buffer goes with it.
#[derive(Clone, Copy, Debug, PartialEq, Eq)]
#[allow(non_snake_case)]
pub struct IOUSBDevRequestTO {
    /// Direction, group and recipient of the request.
    pub bmRequestType: u8,
    /// The request.
    pub bRequest: u8,
    /// The value that the request takes.
    pub wValue: u16,
    /// The index that the request takes.
    pub wIndex: u16,
    /// The length of the data.
    pub wLength: u16,
    /// How many bytes were moved.
    pub wLenDone: u32,
    /// After how many milliseconds the whole transfer is given up.
    pub completionTimeout: u32,
    /// After how many milliseconds without data the transfer is given up.
    pub noDataTimeout: u32,
}

/// A control transfer that is ready to be handed to the system.
#[derive(Debug)]
pub struct ControlTransfer {
    /// The device object whose connection was in use when the transfer was made. The transfer
    /// keeps this connection, whatever connection the device has later.
    pub device: u64,
    /// The direction of the data.
    pub direction: Direction,
    /// The request.
    pub request: IOUSBDevRequestTO,
    /// The transfer with its buffer.
    pub transfer: Transfer<Vec<u8>>,
}

/// The request for a control transfer that reads.
pub open spec fn control_in_request(data: ControlIn, timeout: Timeout) -> IOUSBDevRequestTO {
    IOUSBDevRequestTO {
        bmRequestType: request_type(Direction::In, data.control_type, data.recipient) as u8,
        bRequest: data.request,
        wValue: data.value,
        wIndex: data.index,
        wLength: data.length,
        wLenDone: 0,
        completionTimeout: timeout.millis() as u32,
        noDataTimeout: timeout.millis() as u32,
    }
}

/// The request for a control transfer that writes.
pub open spec fn control_out_request(data: ControlOut<'_>, timeout: Timeout) -> IOUSBDevRequestTO {
    IOUSBDevRequestTO {
        bmRequestType: request_type(Direction::Out, data.control_type, data.recipient) as u8,
        bRequest: data.request,
        wValue: data.value,
        wIndex: data.index,
        wLength: data.data@.len() as u16,
        wLenDone: 0,
        completionTimeout: timeout.millis() as u32,
        noDataTimeout: timeout.millis() as u32,
    }
}

/// Whether `made` is the transfer numbered `id` that reads as `data` says through `device`, in
/// a buffer of as many bytes as `data` asks for, none of which is filled yet.
pub open spec fn is_control_in(
    made: ControlTransfer,
    device: u64,
    data: ControlIn,
    timeout: Timeout,
    id: u64,
) -> bool {
    &&& made.device == device
    &&& made.direction == Direction::In
    &&& made.request == control_in_request(data, timeout)
    &&& made.transfer.memory@ == Seq::new(data.length as nat, |i: int| 0u8)
    &&& made.transfer == new_transfer(
        id,
        Buffer { memory: made.transfer.memory, len: 0, requested_len: data.length as u32 },
        Direction::In,
    )
}

/// Whether `made` is the transfer numbered `id` that writes as `data` says through `device`, with
/// the bytes of `data` in its buffer.
pub open spec fn is_control_out(
    made: ControlTransfer,
    device: u64,
    data: ControlOut<'_>,
    timeout: Timeout,
    id: u64,
) -> bool {
    let len = data.data@.len() as u32;
    &&& made.device == device
    &&& made.direction == Direction::Out
    &&& made.request == control_out_request(data, timeout)
    &&& made.transfer.memory@ == data.data@
    &&& made.transfer == new_transfer(
        id,
        Buffer { memory: made.transfer.memory, len, requested_len: len },
        Direction::Out,
    )
}

/// The bytes that a control transfer moved into its buffer.
pub open spec fn moved_bytes(transfer: Transfer<Vec<u8>>) -> Seq<u8> {
    if transfer.actual_len < transfer.memory@.len() {
        transfer.memory@.take(transfer.actual_len as int)
    } else {
        transfer.memory@
    }
}

impl MacDevice {
    /// Makes a control transfer that reads from the device, numbered `id`. Its buffer has as
    /// many bytes as it asks for.
    pub fn control_in(&self, data: ControlIn, timeout: Timeout, id: u64) -> (r: ControlTransfer)
        requires
            timeout.millis() <= u32::MAX,
        ensures
            is_control_in(r, self@.state.connection.device, data, timeout, id),
            r.device == self.state.connection.device,
            r.direction == Direction::In,
            r.request.bmRequestType / 0x80 == 1,
            r.request.bmRequestType / 0x20 % 4 == (match data.control_type {
                ControlType::Standard => 0int,
                ControlType::Class => 1,
                ControlType::Vendor => 2,
            }),
            r.request.bmRequestType % 0x20 == (match data.recipient {
                Recipient::Device => 0int,
                Recipient::Interface => 1,
                Recipient::Endpoint => 2,
                Recipient::Other => 3,
            }),
            r.request.bRequest == data.request,
            r.request.wValue == data.value,
            r.request.wIndex == data.index,
            r.request.wLength == data.length,
            r.request.wLenDone == 0,
            r.request.completionTimeout * 1_000_000 <= timeout.secs * 1_000_000_000
                + timeout.subsec_nanos < (r.request.completionTimeout + 1) * 1_000_000,
            r.request.noDataTimeout == r.request.completionTimeout,
            r.transfer.id == id,
            r.transfer.requested_len == data.length,
            r.transfer.actual_len == 0,
            r.transfer.status == 0,
            !r.transfer.complete,
            r.transfer.memory@.len() == data.length,
            forall|i: int| 0 <= i < data.length ==> #[trigger] r.transfer.memory@[i] == 0,
    {
        let timeout_millis: u32 = timeout.as_millis() as u32;
        let buffer = Buffer {
            memory: vec![0u8; data.length as usize],
            len: 0,
            requested_len: data.length as u32,
        };
        assert(buffer.memory@ =~= Seq::new(data.length as nat, |i: int| 0u8));
        ControlTransfer {
            device: self.state.connection.device,
            direction: Direction::In,
            request: IOUSBDevRequestTO {
                bmRequestType: data.request_type(),
                bRequest: data.request,
                wValue: data.value,
                wIndex: data.index,
                wLength: data.length,
                wLenDone: 0,
                completionTimeout: timeout_millis,
                noDataTimeout: timeout_millis,
            },
            transfer: Transfer::new(id, buffer, Direction::In),
        }
    }

    /// Makes a control transfer that writes to the device, numbered `id`.
    pub fn control_out(&self, data: ControlOut<'_>, timeout: Timeout, id: u64) -> (r:
        ControlTransfer)
        requires
            timeout.millis() <= u32::MAX,
            data.data@.len() <= u16::MAX,
        ensures
            is_control_out(r, self@.state.connection.device, data, timeout, id),
            r.device == self.state.connection.device,
            r.direction == Direction::Out,
            r.request.bmRequestType / 0x80 == 0,
            r.request.bmRequestType / 0x20 % 4 == (match data.control_type {
                ControlType::Standard => 0int,
                ControlType::Class => 1,
                ControlType::Vendor => 2,
            }),
            r.request.bmRequestType % 0x20 == (match data.recipient {
                Recipient::Device => 0int,
                Recipient::Interface => 1,
                Recipient::Endpoint => 2,
                Recipient::Other => 3,
            }),
            r.request.bRequest == data.request,
            r.request.wValue == data.value,
            r.request.wIndex == data.index,
            r.request.wLength == data.data@.len(),
            r.request.wLenDone == 0,
            r.request.completionTimeout * 1_000_000 <= timeout.secs * 1_000_000_000
                + timeout.subsec_nanos < (r.request.completionTimeout + 1) * 1_000_000,
            r.request.noDataTimeout == r.request.completionTimeout,
            r.transfer.id == id,
            r.transfer.requested_len == data.data@.len(),
            r.transfer.actual_len == 0,
            r.transfer.status == 0,
            !r.transfer.complete,
            r.transfer.memory@ == data.data@,
    {
        let timeout_millis: u32 = timeout.as_millis() as u32;
        let len: u16 = data.data.len() as u16;
        let buffer = Buffer {
            memory: vstd::slice::slice_to_vec(data.data),
            len: len as u32,
            requested_len: len as u32,
        };
        ControlTransfer {
            device: self.state.connection.device,
            direction: Direction::Out,
            request: IOUSBDevRequestTO {
                bmRequestType: data.request_type(),
                bRequest: data.request,
                wValue: data.value,
                wIndex: data.index,
                wLength: len,
                wLenDone: 0,
                completionTimeout: timeout_millis,
                noDataTimeout: timeout_millis,
            },
            transfer: Transfer::new(id, buffer, Direction::Out),
        }
    }

    /// Records what handing a control transfer to the system returned.
    ///
    /// Nothing was moved yet. A transfer that the system did not take is over at once, with the
    /// system's code.
    pub fn submit_control(transfer: Transfer<Vec<u8>>, result: IOReturn) -> (r: Transfer<Vec<u8>>)
        ensures
            r == submitted(Transfer { actual_len: 0, ..transfer }, result),
            r.id == transfer.id,
            r.memory == transfer.memory,
            r.requested_len == transfer.requested_len,
            r.actual_len == 0,
            result == 0 ==> r.complete == transfer.complete && r.status == transfer.status,
            result != 0 ==> r.complete && r.status == result,
    {
        let mut transfer = transfer;
        transfer.actual_len = 0;
        transfer.submit(result);
        transfer
    }

    /// The result of a control transfer that wrote and is over, given what its status means.
    pub fn control_out_result(transfer: Transfer<Vec<u8>>, status: Result<(), TransferError>) -> (r:
        Result<(), TransferError>)
        ensures
            r == status,
    {
        let _completion = transfer.take_completion(Direction::Out);
        status
    }

    /// The result of a control transfer that read and is over, given what its status means: the
    /// bytes of its buffer that were moved, or why it failed.
    pub fn control_in_result(transfer: Transfer<Vec<u8>>, status: Result<(), TransferError>) -> (r:
        Result<Vec<u8>, TransferError>)
        ensures
            match status {
                Ok(_) => r matches Ok(bytes) && bytes@ == moved_bytes(transfer),
                Err(error) => r == Err::<Vec<u8>, TransferError>(error),
            },
            r is Ok <==> status is Ok,
            r matches Ok(bytes) ==> {
                &&& bytes@.len() <= transfer.actual_len
                &&& bytes@.len() <= transfer.memory@.len()
                &&& bytes@.len() == transfer.actual_len || bytes@.len() == transfer.memory@.len()
                &&& forall|i: int|
                    0 <= i < bytes@.len() ==> #[trigger] bytes@[i] == transfer.memory@[i]
            },
    {
        let completion = transfer.take_completion(Direction::In);
        match status {
            Ok(_) => {
                let mut bytes = completion.buffer.memory;
                let len: u32 = completion.buffer.len;
                if (len as usize) < bytes.len() {
                    bytes.truncate(len as usize);
                }
                Ok(bytes)
            },
            Err(error) => Err(error),
        }
    }
}

/// The parts of `bmRequestType` can be told from it: the direction from the top bit, the group from
/// the two bits below it, the recipient from the rest.
pub proof fn law_request_type_holds_its_parts(
    direction: Direction,
    control_type: ControlType,
    recipient: Recipient,
)
    ensures
        ({
            let byte = request_type(direction, control_type, recipient);
            &&& 0 <= byte < 0x100
            &&& byte / 0x80 == 1 <==> direction == Direction::In
            &&& byte / 0x20 % 4 == 0 <==> control_type == ControlType::Standard
            &&& byte / 0x20 % 4 == 1 <==> control_type == ControlType::Class
            &&& byte / 0x20 % 4 == 2 <==> control_type == ControlType::Vendor
            &&& byte % 0x20 == 0 <==> recipient == Recipient::Device
            &&& byte % 0x20 == 1 <==> recipient == Recipient::Interface
            &&& byte % 0x20 == 2 <==> recipient == Recipient::Endpoint
            &&& byte % 0x20 == 3 <==> recipient == Recipient::Other
        }),
{
}

/// A span of time has so many whole milliseconds as fit into it.
pub proof fn law_millis_fit_into_the_span(timeout: Timeout)
    ensures
        timeout.millis() * 1_000_000 <= timeout.secs * 1_000_000_000 + timeout.subsec_nanos,
        timeout.secs * 1_000_000_000 + timeout.subsec_nanos < (timeout.millis() + 1) * 1_000_000,
{
}

/// A control transfer that reads carries what it was asked for: each field of the request is the
/// field of the same meaning, and the buffer has room for as much as is to be read.
pub proof fn law_control_in_carries_the_request(
    made: ControlTransfer,
    device: u64,
    data: ControlIn,
    timeout: Timeout,
    id: u64,
)
    requires
        is_control_in(made, device, data, timeout, id),
        timeout.secs * 1000 + timeout.subsec_nanos / 1_000_000 <= u32::MAX,
    ensures
        made.device == device,
        made.direction == Direction::In,
        made.request.bmRequestType >= 0x80,
        made.request.bRequest == data.request,
        made.request.wValue == data.value,
        made.request.wIndex == data.index,
        made.request.wLength == data.length,
        made.request.wLenDone == 0,
        made.request.completionTimeout == timeout.secs * 1000 + timeout.subsec_nanos / 1_000_000,
        made.request.noDataTimeout == timeout.secs * 1000 + timeout.subsec_nanos / 1_000_000,
        made.transfer.id == id,
        made.transfer.memory@.len() == data.length,
        made.transfer.requested_len == data.length,
        made.transfer.actual_len == 0,
        !made.transfer.complete,
{
}

/// A control transfer that writes carries what it was asked for: each field of the request is the
/// field of the same meaning, and the buffer holds the bytes that are to be written.
pub proof fn law_control_out_carries_the_request(
    made: ControlTransfer,
    device: u64,
    data: ControlOut<'_>,
    timeout: Timeout,
    id: u64,
)
    requires
        is_control_out(made, device, data, timeout, id),
        timeout.secs * 1000 + timeout.subsec_nanos / 1_000_000 <= u32::MAX,
        data.data@.len() <= u16::MAX,
    ensures
        made.device == device,
        made.direction == Direction::Out,
        made.request.bmRequestType < 0x80,
        made.request.bRequest == data.request,
        made.request.wValue == data.value,
        made.request.wIndex == data.index,
        made.request.wLength == data.data@.len(),
        made.request.wLenDone == 0,
        made.request.completionTimeout == timeout.secs * 1000 + timeout.subsec_nanos / 1_000_000,
        made.request.noDataTimeout == timeout.secs * 1000 + timeout.subsec_nanos / 1_000_000,
        made.transfer.id == id,
        made.transfer.memory@ == data.data@,
        made.transfer.requested_len == data.data@.len(),
        made.transfer.actual_len == 0,
        !made.transfer.complete,
{
}

/// What a control transfer moved into its buffer is the start of the buffer, as far as was moved
/// and no further than the buffer goes.
pub proof fn law_moved_bytes_are_the_start_of_the_buffer(transfer: Transfer<Vec<u8>>)
    ensures
        moved_bytes(transfer).len() <= transfer.actual_len,
        moved_bytes(transfer).len() <= transfer.memory@.len(),
        moved_bytes(transfer).len() == transfer.actual_len || moved_bytes(transfer).len()
            == transfer.memory@.len(),
        forall|i: int|
            0 <= i < moved_bytes(transfer).len() ==> #[trigger] moved_bytes(transfer)[i]
                == transfer.memory@[i],
{
}

} // verus!
