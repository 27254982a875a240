//! A claimed interface.
use crate::bitset::EndpointBitSet;
use crate::control::{
    is_control_in, is_control_out, ControlIn, ControlOut, ControlTransfer, ControlType, Recipient,
    Timeout,
};
use crate::descriptors::EndpointDescriptor;
use crate::device::{DeviceView, MacDevice};
use crate::endpoint::{EndpointView, MacEndpoint};
use crate::error::{iokit_error, Error, ErrorKind};
use crate::ret::IOReturn;
use crate::transfer::Direction;
use std::collections::VecDeque;
use vstd::prelude::*;

verus! {

/// The part of an interface's state that changes.
#[derive(Clone, Copy, Debug, PartialEq, Eq)]
pub struct InterfaceState {
    /// The selected alternate setting.
    pub alt_setting: u8,
    /// The endpoints in use.
    pub endpoints_used: EndpointBitSet,
}

impl Default for InterfaceState {
    /// Alternate setting 0, with no endpoint in use.
    fn default() -> (r: InterfaceState)
        ensures
            r == (InterfaceState { alt_setting: 0, endpoints_used: EndpointBitSet { out_bits: 0, in_bits: 0 } }),
            r.endpoints_used@ == Set::<u8>::empty(),
    {
        InterfaceState { alt_setting: 0, endpoints_used: EndpointBitSet::default() }
    }
}

/// A claimed interface. There is one for each claim.
#[derive(Debug, PartialEq, Eq)]
pub struct MacInterface {
    /// The registry number of the device that the interface was claimed on.
    pub registry_id: u64,
    /// The number of the interface.
    pub interface_number: u8,
    /// The alternate setting and the endpoints in use.
    pub state: InterfaceState,
}

/// What an interface is, with the addresses of the endpoints in use.
#[verifier::ext_equal]
pub struct InterfaceView {
    pub registry_id: u64,
    pub interface_number: u8,
    pub alt_setting: u8,
    pub endpoints_used: Set<u8>,
}

impl View for MacInterface {
    type V = InterfaceView;

    open spec fn view(&self) -> InterfaceView {
        InterfaceView {
            registry_id: self.registry_id,
            interface_number: self.interface_number,
            alt_setting: self.state.alt_setting,
            endpoints_used: self.state.endpoints_used@,
        }
    }
}

/// An interface as it is when it was just claimed on the device with this registry number.
pub open spec fn claimed_interface(registry_id: u64, interface_number: u8) -> InterfaceView {
    InterfaceView { registry_id, interface_number, alt_setting: 0, endpoints_used: Set::empty() }
}

/// The interface with this number, as it is when it was just claimed.
pub open spec fn new_interface(registry_id: u64, interface_number: u8) -> MacInterface {
    MacInterface {
        registry_id,
        interface_number,
        state: InterfaceState { alt_setting: 0, endpoints_used: EndpointBitSet { out_bits: 0, in_bits: 0 } },
    }
}

/// An endpoint as it is when it was just taken into use.
pub open spec fn new_endpoint<B>(descriptor: EndpointDescriptor, pipe_ref: u8) -> EndpointView<B> {
    EndpointView {
        pipe_ref,
        address: descriptor.address,
        max_packet_size: descriptor.max_packet_size,
        pending: Seq::empty(),
        idle_transfer: None,
    }
}

/// Whether the alternate setting may be changed, and the error where not.
pub open spec fn alt_setting_check(interface: InterfaceView) -> Result<(), Error> {
    if interface.endpoints_used != Set::<u8>::empty() {
        Err(
            Error::new(
                ErrorKind::Busy,
                "can't change alternate setting while endpoints are in use",
            ),
        )
    } else {
        Ok(())
    }
}

/// Whether an endpoint can be taken into use, and the error where not.
pub open spec fn endpoint_check(
    interface: InterfaceView,
    address: u8,
    pipe_ref: Option<u8>,
) -> Result<u8, Error> {
    match pipe_ref {
        None => Err(
            Error::new(
                ErrorKind::NotFound,
                "specified endpoint does not exist on IOKit interface",
            ),
        ),
        Some(pipe_ref) => if interface.endpoints_used.contains(address) {
            Err(Error::new(ErrorKind::Busy, "endpoint already in use"))
        } else {
            Ok(pipe_ref)
        },
    }
}

/// The interface with the endpoint in use.
pub open spec fn with_endpoint(interface: InterfaceView, address: u8) -> InterfaceView {
    InterfaceView {
        endpoints_used: interface.endpoints_used.insert(address),
        ..interface
    }
}

/// The interface with the endpoint not in use.
pub open spec fn without_endpoint(interface: InterfaceView, address: u8) -> InterfaceView {
    InterfaceView {
        endpoints_used: interface.endpoints_used.remove(address),
        ..interface
    }
}

/// The device with one claimed interface more. The count wraps around.
pub open spec fn with_claim(device: DeviceView) -> DeviceView {
    DeviceView {
        claimed_interfaces: if device.claimed_interfaces == usize::MAX {
            0
        } else {
            (device.claimed_interfaces + 1) as usize
        },
        ..device
    }
}

/// The device with one claimed interface less. The count wraps around.
pub open spec fn without_claim(device: DeviceView) -> DeviceView {
    DeviceView {
        claimed_interfaces: if device.claimed_interfaces == 0 {
            usize::MAX
        } else {
            (device.claimed_interfaces - 1) as usize
        },
        ..device
    }
}

impl MacInterface {
    /// The interface with this number, as it is when it was just claimed on the device with this
    /// registry number.
    pub fn new(registry_id: u64, interface_number: u8) -> (r: MacInterface)
        ensures
            r == new_interface(registry_id, interface_number),
            r@ == claimed_interface(registry_id, interface_number),
            r.registry_id == registry_id,
            r.interface_number == interface_number,
            r.state.alt_setting == 0,
            forall|address: u8| !#[trigger] r.state.endpoints_used@.contains(address),
    {
        MacInterface { registry_id, interface_number, state: InterfaceState::default() }
    }

    /// Tests whether `set_alt_setting` may ask the system for another alternate setting.
    pub fn set_alt_setting_allowed(&self) -> (r: Result<(), Error>)
        ensures
            r == alt_setting_check(self@),
            r is Ok <==> forall|address: u8|
                !#[trigger] self.state.endpoints_used@.contains(address),
            r matches Err(error) ==> error.kind == ErrorKind::Busy,
    {
        proof {
            if forall|address: u8| !#[trigger] self.state.endpoints_used@.contains(address) {
                assert(self.state.endpoints_used@ =~= Set::<u8>::empty());
            }
        }
        if !self.state.endpoints_used.is_empty() {
            return Err(
                Error::new(
                    ErrorKind::Busy,
                    "can't change alternate setting while endpoints are in use",
                ),
            );
        }
        Ok(())
    }

    /// Selects an alternate setting, given what asking the system for it returned.
    ///
    /// Where `set_alt_setting_allowed` fails, nothing is asked of the system, and `reply` does not
    /// count.
    pub fn set_alt_setting(&mut self, alt_setting: u8, reply: Result<(), IOReturn>) -> (r: Result<
        (),
        Error,
    >)
        ensures
            r == (match (alt_setting_check(old(self)@), reply) {
                (Err(error), _) => Err::<(), Error>(error),
                (Ok(_), Err(code)) => Err(iokit_error(code, "failed to set alternate interface")),
                (Ok(_), Ok(_)) => Ok(()),
            }),
            final(self)@ == (if r is Ok {
                InterfaceView { alt_setting, ..old(self)@ }
            } else {
                old(self)@
            }),
            r is Ok <==> reply is Ok && forall|address: u8|
                !#[trigger] old(self).state.endpoints_used@.contains(address),
            (forall|address: u8| !#[trigger] old(self).state.endpoints_used@.contains(address)) ==> (
            reply matches Err(code) ==> r matches Err(error) && error.code == Some(code)),
            r is Ok ==> final(self).state.alt_setting == alt_setting,
            r is Err ==> final(self).state.alt_setting == old(self).state.alt_setting,
            final(self).registry_id == old(self).registry_id,
            final(self).interface_number == old(self).interface_number,
            final(self).state.endpoints_used == old(self).state.endpoints_used,
    {
        match self.set_alt_setting_allowed() {
            Err(error) => {
                return Err(error);
            },
            Ok(_) => {},
        }
        match reply {
            Err(code) => {
                return Err(iokit_error(code, "failed to set alternate interface"));
            },
            Ok(_) => {},
        }
        self.state.alt_setting = alt_setting;
        Ok(())
    }

    /// The selected alternate setting.
    pub fn get_alt_setting(&self) -> (r: u8)
        ensures
            r == self@.alt_setting,
            r == self.state.alt_setting,
    {
        self.state.alt_setting
    }

    /// Makes a control transfer that reads from the interface's device, numbered `id`.
    pub fn control_in(
        &self,
        device: &MacDevice,
        data: ControlIn,
        timeout: Timeout,
        id: u64,
    ) -> (r: ControlTransfer)
        requires
            self@.registry_id == device@.registry_id,
            timeout.millis() <= u32::MAX,
        ensures
            is_control_in(r, device@.state.connection.device, data, timeout, id),
            r.device == device.state.connection.device,
            r.direction == Direction::In,
            r.request.bmRequestType / 0x80 == 1,
            r.request.bmRequestType / 0x20 % 4 == (match data.control_type {
                ControlType::Standard => 0int,
                ControlType::Class => 1,
                ControlType::Vendor => 2,
            }),
            r.request.bmRequestType % 0x20 == (match data.recipient {
                Recipient::Device => 0int,
                Recipient::Interface => 1,
                Recipient::Endpoint => 2,
                Recipient::Other => 3,
            }),
            r.request.bRequest == data.request,
            r.request.wValue == data.value,
            r.request.wIndex == data.index,
            r.request.wLength == data.length,
            r.request.wLenDone == 0,
            r.request.completionTimeout * 1_000_000 <= timeout.secs * 1_000_000_000
                + timeout.subsec_nanos < (r.request.completionTimeout + 1) * 1_000_000,
            r.request.noDataTimeout == r.request.completionTimeout,
            r.transfer.id == id,
            r.transfer.requested_len == data.length,
            r.transfer.actual_len == 0,
            r.transfer.status == 0,
            !r.transfer.complete,
            r.transfer.memory@.len() == data.length,
            forall|i: int| 0 <= i < data.length ==> #[trigger] r.transfer.memory@[i] == 0,
    {
        device.control_in(data, timeout, id)
    }

    /// Makes a control transfer that writes to the interface's device, numbered `id`.
    pub fn control_out(
        &self,
        device: &MacDevice,
        data: ControlOut<'_>,
        timeout: Timeout,
        id: u64,
    ) -> (r: ControlTransfer)
        requires
            self@.registry_id == device@.registry_id,
            timeout.millis() <= u32::MAX,
            data.data@.len() <= u16::MAX,
        ensures
            is_control_out(r, device@.state.connection.device, data, timeout, id),
            r.device == device.state.connection.device,
            r.direction == Direction::Out,
            r.request.bmRequestType / 0x80 == 0,
            r.request.bmRequestType / 0x20 % 4 == (match data.control_type {
                ControlType::Standard => 0int,
                ControlType::Class => 1,
                ControlType::Vendor => 2,
            }),
            r.request.bmRequestType % 0x20 == (match data.recipient {
                Recipient::Device => 0int,
                Recipient::Interface => 1,
                Recipient::Endpoint => 2,
                Recipient::Other => 3,
            }),
            r.request.bRequest == data.request,
            r.request.wValue == data.value,
            r.request.wIndex == data.index,
            r.request.wLength == data.data@.len(),
            r.request.wLenDone == 0,
            r.request.completionTimeout * 1_000_000 <= timeout.secs * 1_000_000_000
                + timeout.subsec_nanos < (r.request.completionTimeout + 1) * 1_000_000,
            r.request.noDataTimeout == r.request.completionTimeout,
            r.transfer.id == id,
            r.transfer.requested_len == data.data@.len(),
            r.transfer.actual_len == 0,
            r.transfer.status == 0,
            !r.transfer.complete,
            r.transfer.memory@ == data.data@,
    {
        device.control_out(data, timeout, id)
    }

    /// Takes an endpoint into use, given the pipe that the system has for it.
    pub fn endpoint<B>(&mut self, descriptor: EndpointDescriptor, pipe_ref: Option<u8>) -> (r:
        Result<MacEndpoint<B>, Error>)
        ensures
            match endpoint_check(old(self)@, descriptor.address, pipe_ref) {
                Ok(pipe_ref) => {
                    &&& r matches Ok(endpoint) && endpoint@ == new_endpoint::<B>(
                        descriptor,
                        pipe_ref,
                    ) && endpoint.wf()
                    &&& final(self)@ == with_endpoint(old(self)@, descriptor.address)
                },
                Err(error) => {
                    &&& r == Err::<MacEndpoint<B>, Error>(error)
                    &&& final(self)@ == old(self)@
                },
            },
            r is Ok <==> pipe_ref is Some && !old(self).state.endpoints_used@.contains(
                descriptor.address,
            ),
            r matches Ok(endpoint) ==> {
                &&& Some(endpoint.pipe_ref) == pipe_ref
                &&& endpoint.address == descriptor.address
                &&& endpoint.max_packet_size == descriptor.max_packet_size
                &&& endpoint.pending@.len() == 0
                &&& endpoint.idle_transfer is None
            },
            r matches Err(error) ==> error.kind == (if pipe_ref is None {
                ErrorKind::NotFound
            } else {
                ErrorKind::Busy
            }),
            forall|address: u8| #[trigger]
                final(self).state.endpoints_used@.contains(address) <==> old(self).state.endpoints_used@.contains(address) || (r is Ok && address
                    == descriptor.address),
            final(self).state.alt_setting == old(self).state.alt_setting,
            final(self).registry_id == old(self).registry_id,
            final(self).interface_number == old(self).interface_number,
    {
        let address: u8 = descriptor.address();
        let max_packet_size: usize = descriptor.max_packet_size();
        let pipe_ref: u8 = match pipe_ref {
            Some(pipe_ref) => pipe_ref,
            None => {
                return Err(
                    Error::new(
                        ErrorKind::NotFound,
                        "specified endpoint does not exist on IOKit interface",
                    ),
                );
            },
        };
        if self.state.endpoints_used.is_set(address) {
            return Err(Error::new(ErrorKind::Busy, "endpoint already in use"));
        }
        self.state.endpoints_used.set(address);
        Ok(
            MacEndpoint {
                pipe_ref,
                address,
                max_packet_size,
                pending: VecDeque::new(),
                idle_transfer: None,
            },
        )
    }

    /// Records that the endpoint with this address went away.
    pub fn endpoint_dropped(&mut self, address: u8)
        ensures
            final(self)@ == without_endpoint(old(self)@, address),
            forall|other: u8| #[trigger]
                final(self).state.endpoints_used@.contains(other) <==> old(self).state.endpoints_used@.contains(other) && other != address,
            final(self).state.alt_setting == old(self).state.alt_setting,
            final(self).registry_id == old(self).registry_id,
            final(self).interface_number == old(self).interface_number,
    {
        self.state.endpoints_used.clear(address);
    }

    /// Gives an interface up, where nothing else uses it: `interface` is the interface itself, or
    /// `None` where it is still shared.
    pub fn release(interface: Option<MacInterface>, device: &mut MacDevice) -> (r: Result<
        (),
        Error,
    >)
        requires
            interface matches Some(interface) ==> interface@.registry_id
                == old(device)@.registry_id,
        ensures
            r == (match interface {
                Some(_) => Ok::<(), Error>(()),
                None => Err(Error::new(ErrorKind::Busy, "interface is still in use")),
            }),
            final(device)@ == (match interface {
                Some(_) => without_claim(old(device)@),
                None => old(device)@,
            }),
            r is Ok <==> interface is Some,
            r matches Err(error) ==> error.kind == ErrorKind::Busy,
            interface is None ==> final(device).claimed_interfaces == old(device).claimed_interfaces,
            interface is Some && old(device).claimed_interfaces > 0 ==> final(device).claimed_interfaces + 1 == old(device).claimed_interfaces,
            final(device).registry_id == old(device).registry_id,
            final(device).state == old(device).state,
            final(device).device_descriptor == old(device).device_descriptor,
            final(device).config_descriptors == old(device).config_descriptors,
            final(device).speed == old(device).speed,
            final(device).active_config == old(device).active_config,
            old(device).wf() ==> final(device).wf(),
    {
        match interface {
            Some(interface) => {
                device.interface_dropped(interface);
                Ok(())
            },
            None => Err(Error::new(ErrorKind::Busy, "interface is still in use")),
        }
    }
}

impl MacDevice {
    /// Records that an interface of the device was claimed.
    pub fn interface_claimed(&mut self, interface_number: u8) -> (r: MacInterface)
        ensures
            r == new_interface(old(self)@.registry_id, interface_number),
            r@ == claimed_interface(old(self)@.registry_id, interface_number),
            final(self)@ == with_claim(old(self)@),
            r.registry_id == old(self).registry_id,
            r.interface_number == interface_number,
            r.state.alt_setting == 0,
            forall|address: u8| !#[trigger] r.state.endpoints_used@.contains(address),
            old(self).claimed_interfaces < usize::MAX ==> final(self).claimed_interfaces == old(self).claimed_interfaces + 1,
            old(self).claimed_interfaces == usize::MAX ==> final(self).claimed_interfaces == 0,
            final(self).registry_id == old(self).registry_id,
            final(self).state == old(self).state,
            final(self).device_descriptor == old(self).device_descriptor,
            final(self).config_descriptors == old(self).config_descriptors,
            final(self).speed == old(self).speed,
            final(self).active_config == old(self).active_config,
    {
        self.claimed_interfaces = self.claimed_interfaces.wrapping_add(1);
        MacInterface::new(self.registry_id, interface_number)
    }

    /// Records that a claimed interface of the device went away.
    pub fn interface_dropped(&mut self, _interface: MacInterface)
        requires
            _interface@.registry_id == old(self)@.registry_id,
        ensures
            final(self)@ == without_claim(old(self)@),
            old(self).claimed_interfaces > 0 ==> final(self).claimed_interfaces + 1 == old(self).claimed_interfaces,
            old(self).claimed_interfaces == 0 ==> final(self).claimed_interfaces == usize::MAX,
            final(self).registry_id == old(self).registry_id,
            final(self).state == old(self).state,
            final(self).device_descriptor == old(self).device_descriptor,
            final(self).config_descriptors == old(self).config_descriptors,
            final(self).speed == old(self).speed,
            final(self).active_config == old(self).active_config,
    {
        self.claimed_interfaces = self.claimed_interfaces.wrapping_sub(1);
    }
}

/// An endpoint has one user at a time: as long as it is in use it cannot be taken into use again,
/// and the alternate setting does not change.
pub proof fn law_endpoint_has_one_user(interface: InterfaceView, address: u8, pipe_ref: u8)
    ensures
        endpoint_check(with_endpoint(interface, address), address, Some(pipe_ref)) matches Err(error)
            && error.kind == ErrorKind::Busy,
        alt_setting_check(with_endpoint(interface, address)) matches Err(error) && error.kind
            == ErrorKind::Busy,
{
    assert(with_endpoint(interface, address).endpoints_used.contains(address));
}

/// When an endpoint goes away, the interface is as it was before the endpoint was taken into use,
/// and it can be taken into use again.
pub proof fn law_dropping_an_endpoint_undoes_its_use(
    interface: InterfaceView,
    address: u8,
    pipe_ref: u8,
)
    requires
        endpoint_check(interface, address, Some(pipe_ref)) is Ok,
    ensures
        without_endpoint(with_endpoint(interface, address), address) == interface,
        endpoint_check(
            without_endpoint(with_endpoint(interface, address), address),
            address,
            Some(pipe_ref),
        ) == Ok::<u8, Error>(pipe_ref),
{
    assert(without_endpoint(with_endpoint(interface, address), address).endpoints_used
        =~= interface.endpoints_used);
}

/// Whether one endpoint is in use makes no difference to any endpoint with another address.
pub proof fn law_endpoints_are_independent(
    interface: InterfaceView,
    address: u8,
    other: u8,
    pipe_ref: Option<u8>,
)
    requires
        address != other,
    ensures
        endpoint_check(with_endpoint(interface, address), other, pipe_ref) == endpoint_check(
            interface,
            other,
            pipe_ref,
        ),
        endpoint_check(without_endpoint(interface, address), other, pipe_ref) == endpoint_check(
            interface,
            other,
            pipe_ref,
        ),
{
}

/// Giving up a claimed interface takes its claim back.
pub proof fn law_dropping_an_interface_undoes_its_claim(device: DeviceView)
    ensures
        without_claim(with_claim(device)) == device,
{
}

/// How many claimed interfaces are alive after `events`, each of which is a claim (`true`) or an
/// interface going away (`false`), where `alive` were before.
pub open spec fn alive_after(alive: int, events: Seq<bool>) -> int
    decreases events.len(),
{
    if events.len() == 0 {
        alive
    } else {
        alive_after(alive, events.drop_last()) + if events.last() {
            1int
        } else {
            -1
        }
    }
}

/// The device after `events`, each of which is a claim (`true`) or an interface going away
/// (`false`).
pub open spec fn device_after(device: DeviceView, events: Seq<bool>) -> DeviceView
    decreases events.len(),
{
    if events.len() == 0 {
        device
    } else if events.last() {
        with_claim(device_after(device, events.drop_last()))
    } else {
        without_claim(device_after(device, events.drop_last()))
    }
}

/// The count of claims is the number of claimed interfaces that are alive, as long as that number
/// is one that the count can hold.
pub proof fn law_count_is_number_of_alive_interfaces(device: DeviceView, events: Seq<bool>)
    requires
        forall|i: int|
            0 <= i <= events.len() ==> 0 <= #[trigger] alive_after(
                device.claimed_interfaces as int,
                events.take(i),
            ) <= usize::MAX,
    ensures
        device_after(device, events).claimed_interfaces == alive_after(
            device.claimed_interfaces as int,
            events,
        ),
    decreases events.len(),
{
    assert(events.take(events.len() as int) == events);
    assert(0 <= alive_after(device.claimed_interfaces as int, events.take(events.len() as int))
        <= usize::MAX);
    if events.len() > 0 {
        let before = events.drop_last();
        assert forall|i: int| 0 <= i <= before.len() implies 0 <= #[trigger] alive_after(
            device.claimed_interfaces as int,
            before.take(i),
        ) <= usize::MAX by {
            assert(before.take(i) == events.take(i));
        }
        law_count_is_number_of_alive_interfaces(device, before);
    }
}

/// The view of an interface shows all that it holds.
pub proof fn law_view_shows_the_interface(interface: MacInterface)
    ensures
        interface@.registry_id == interface.registry_id,
        interface@.interface_number == interface.interface_number,
        interface@.alt_setting == interface.state.alt_setting,
        interface@.endpoints_used == interface.state.endpoints_used@,
{
}

/// An interface that was just claimed has the number it was claimed by, belongs to the device it
/// was claimed on, has alternate setting 0 selected and no endpoint in use.
pub proof fn law_claimed_interface_is_fresh(registry_id: u64, interface_number: u8, address: u8)
    ensures
        new_interface(registry_id, interface_number).registry_id == registry_id,
        new_interface(registry_id, interface_number).interface_number == interface_number,
        new_interface(registry_id, interface_number).state.alt_setting == 0,
        new_interface(registry_id, interface_number).state.endpoints_used.out_bits == 0,
        new_interface(registry_id, interface_number).state.endpoints_used.in_bits == 0,
        claimed_interface(registry_id, interface_number).registry_id == registry_id,
        claimed_interface(registry_id, interface_number).interface_number == interface_number,
        claimed_interface(registry_id, interface_number).alt_setting == 0,
        !claimed_interface(registry_id, interface_number).endpoints_used.contains(address),
        alt_setting_check(claimed_interface(registry_id, interface_number)) is Ok,
{
}

/// The alternate setting may be changed exactly where no endpoint is in use, and an endpoint can
/// be taken into use exactly where the system has a pipe for it and it is not in use. The error
/// tells which of these fails.
pub proof fn law_what_stops_a_change(
    interface: InterfaceView,
    address: u8,
    pipe_ref: Option<u8>,
)
    ensures
        alt_setting_check(interface) is Ok <==> forall|used: u8|
            !#[trigger] interface.endpoints_used.contains(used),
        alt_setting_check(interface) matches Err(error) ==> error == (Error {
            kind: ErrorKind::Busy,
            message: "can't change alternate setting while endpoints are in use",
            code: None,
        }),
        match (pipe_ref, endpoint_check(interface, address, pipe_ref)) {
            (Some(pipe_ref), Ok(used)) => used == pipe_ref && !interface.endpoints_used.contains(
                address,
            ),
            (None, Err(error)) => error == (Error {
                kind: ErrorKind::NotFound,
                message: "specified endpoint does not exist on IOKit interface",
                code: None,
            }),
            (Some(_), Err(error)) => interface.endpoints_used.contains(address) && error == (Error {
                kind: ErrorKind::Busy,
                message: "endpoint already in use",
                code: None,
            }),
            (None, Ok(_)) => false,
        },
{
    if interface.endpoints_used != Set::<u8>::empty() && (forall|used: u8|
        !#[trigger] interface.endpoints_used.contains(used)) {
        assert(interface.endpoints_used =~= Set::<u8>::empty());
    }
}

/// Using an endpoint, and using it no longer, changes whether that endpoint is in use, and nothing
/// else of the interface.
pub proof fn law_endpoint_use_is_all_that_changes(
    interface: InterfaceView,
    address: u8,
    other: u8,
)
    ensures
        with_endpoint(interface, address).endpoints_used.contains(other) <==> other == address
            || interface.endpoints_used.contains(other),
        without_endpoint(interface, address).endpoints_used.contains(other) <==> other != address
            && interface.endpoints_used.contains(other),
        with_endpoint(interface, address).registry_id == interface.registry_id,
        with_endpoint(interface, address).interface_number == interface.interface_number,
        with_endpoint(interface, address).alt_setting == interface.alt_setting,
        without_endpoint(interface, address).registry_id == interface.registry_id,
        without_endpoint(interface, address).interface_number == interface.interface_number,
        without_endpoint(interface, address).alt_setting == interface.alt_setting,
{
}

/// An endpoint that was just taken into use is the one that its descriptor tells of, on the pipe
/// that the system has for it, with no transfer pending or idle.
pub proof fn law_new_endpoint_is_as_described<B>(descriptor: EndpointDescriptor, pipe_ref: u8)
    ensures
        new_endpoint::<B>(descriptor, pipe_ref).pipe_ref == pipe_ref,
        new_endpoint::<B>(descriptor, pipe_ref).address == descriptor.address,
        new_endpoint::<B>(descriptor, pipe_ref).max_packet_size == descriptor.max_packet_size,
        new_endpoint::<B>(descriptor, pipe_ref).pending.len() == 0,
        new_endpoint::<B>(descriptor, pipe_ref).idle_transfer is None,
{
}

/// A claim, and giving it up, changes the count by one and nothing else of the device.
pub proof fn law_claims_change_only_the_count(device: DeviceView)
    ensures
        with_claim(device) == (DeviceView {
            claimed_interfaces: with_claim(device).claimed_interfaces,
            ..device
        }),
        without_claim(device) == (DeviceView {
            claimed_interfaces: without_claim(device).claimed_interfaces,
            ..device
        }),
        device.claimed_interfaces < usize::MAX ==> with_claim(device).claimed_interfaces
            == device.claimed_interfaces + 1,
        device.claimed_interfaces > 0 ==> without_claim(device).claimed_interfaces + 1
            == device.claimed_interfaces,
        with_claim(without_claim(device)) == device,
{
}

} // verus!
