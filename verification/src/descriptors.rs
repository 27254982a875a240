//! The parts of USB descriptors that the library reads.
//!
//! A configuration descriptor comes from the device together with the descriptors of its
//! interfaces and endpoints, as one run of bytes. Each descriptor starts with its length in bytes
//! and its type.
use vstd::prelude::*;

verus! {

/// `bDescriptorType` of a configuration descriptor.
pub const DESCRIPTOR_TYPE_CONFIGURATION: u8 = 0x02;

/// The least `bLength` of a configuration descriptor.
pub const DESCRIPTOR_LEN_CONFIGURATION: u8 = 9;

/// `bDescriptorType` of an interface descriptor.
pub const DESCRIPTOR_TYPE_INTERFACE: u8 = 0x04;

/// The least `bLength` of an interface descriptor.
pub const DESCRIPTOR_LEN_INTERFACE: u8 = 9;

/// `bInterfaceClass` of mass storage.
pub const CLASS_MASS_STORAGE: u8 = 0x08;

/// The standard device descriptor.
#[derive(Clone, Copy, Debug, PartialEq, Eq)]
pub struct DeviceDescriptor {
    /// The descriptor as it is defined on the wire.
    pub bytes: [u8; 18],
}

/// What the library needs of an endpoint descriptor.
#[derive(Clone, Copy, Debug, PartialEq, Eq)]
pub struct EndpointDescriptor {
    /// `bEndpointAddress`.
    pub address: u8,
    /// The packet size out of `wMaxPacketSize`.
    pub max_packet_size: usize,
}

impl EndpointDescriptor {
    /// The endpoint's address, direction bit included.
    #[verifier::allow_in_spec]
    pub fn address(&self) -> u8
        returns
            self.address,
    {
        self.address
    }

    /// The largest packet that the endpoint takes or gives, in bytes.
    #[verifier::allow_in_spec]
    pub fn max_packet_size(&self) -> usize
        returns
            self.max_packet_size,
    {
        self.max_packet_size
    }
}

/// Whether `buf` starts with a descriptor: its length covers the length and type bytes and stays
/// inside `buf`.
pub open spec fn starts_with_descriptor(buf: Seq<u8>) -> bool {
    buf.len() > 0 && 2 <= buf[0] <= buf.len()
}

/// The descriptors that follow one another from the start of `buf`, up to the first place where
/// none starts.
pub open spec fn descriptors(buf: Seq<u8>) -> Seq<Seq<u8>>
    decreases buf.len(),
{
    if starts_with_descriptor(buf) {
        seq![buf.take(buf[0] as int)] + descriptors(buf.skip(buf[0] as int))
    } else {
        Seq::empty()
    }
}

/// Whether `descriptor` is an interface descriptor that has all its standard fields.
pub open spec fn is_interface_descriptor(descriptor: Seq<u8>) -> bool {
    descriptor.len() >= DESCRIPTOR_LEN_INTERFACE && descriptor[1] == DESCRIPTOR_TYPE_INTERFACE
}

/// The interface descriptors among the descriptors in `config`: one for each alternate setting
/// of each interface.
pub open spec fn interface_alt_settings(config: Seq<u8>) -> Seq<Seq<u8>> {
    descriptors(config).filter(|descriptor: Seq<u8>| is_interface_descriptor(descriptor))
}

/// `bConfigurationValue` of a configuration descriptor.
pub open spec fn configuration_value(config: Seq<u8>) -> u8 {
    config[5]
}

/// `wTotalLength` of a configuration descriptor: the length of the descriptor together with those
/// that follow it.
pub open spec fn total_length(config: Seq<u8>) -> nat {
    (config[2] + 256 * config[3]) as nat
}

/// Whether `buf` starts with a whole configuration: the configuration descriptor has all its
/// standard fields, and `buf` holds as many bytes as it announces.
pub open spec fn is_configuration(buf: Seq<u8>) -> bool {
    &&& buf.len() >= DESCRIPTOR_LEN_CONFIGURATION
    &&& buf[0] >= DESCRIPTOR_LEN_CONFIGURATION
    &&& buf[1] == DESCRIPTOR_TYPE_CONFIGURATION
    &&& buf[0] <= total_length(buf) <= buf.len()
}

/// The contents of a list of byte vectors.
pub open spec fn bytes_of(list: Seq<Vec<u8>>) -> Seq<Seq<u8>> {
    list.map_values(|bytes: Vec<u8>| bytes@)
}

/// A configuration descriptor and the descriptors that follow it.
#[derive(Clone, Copy, Debug)]
pub struct ConfigurationDescriptor<'a> {
    /// The bytes of the descriptors.
    pub bytes: &'a [u8],
}

impl<'a> View for ConfigurationDescriptor<'a> {
    type V = Seq<u8>;

    open spec fn view(&self) -> Seq<u8> {
        self.bytes@
    }
}

impl<'a> ConfigurationDescriptor<'a> {
    /// The configuration at the start of `buf`, without the bytes after it, or `None` where
    /// `buf` does not start with a whole configuration.
    pub fn new(buf: &'a [u8]) -> (r: Option<ConfigurationDescriptor<'a>>)
        ensures
            r is Some <==> is_configuration(buf@),
            r is Some <==> buf@.len() >= 9 && buf@[0] >= 9 && buf@[1] == 2 && buf@[0] <= buf@[2]
                + 256 * buf@[3] <= buf@.len(),
            r matches Some(config) ==> config@ == buf@.take(total_length(buf@) as int),
            r matches Some(config) ==> {
                &&& 9 <= config@.len() <= buf@.len()
                &&& config@.len() == buf@[2] + 256 * buf@[3]
                &&& forall|i: int| 0 <= i < config@.len() ==> #[trigger] config@[i] == buf@[i]
            },
    {
        if buf.len() < DESCRIPTOR_LEN_CONFIGURATION as usize {
            return None;
        }
        if buf[0] < DESCRIPTOR_LEN_CONFIGURATION {
            return None;
        }
        if buf[1] != DESCRIPTOR_TYPE_CONFIGURATION {
            return None;
        }
        let total_len: usize = buf[2] as usize + 256 * buf[3] as usize;
        if total_len < buf[0] as usize || total_len > buf.len() {
            return None;
        }
        Some(ConfigurationDescriptor { bytes: vstd::slice::slice_subrange(buf, 0, total_len) })
    }

    /// The configuration that `buf` holds, where that is known already.
    pub fn new_unchecked(buf: &'a [u8]) -> (r: ConfigurationDescriptor<'a>)
        ensures
            r@ == buf@,
            r.bytes@ == buf@,
    {
        ConfigurationDescriptor { bytes: buf }
    }

    /// `bConfigurationValue`: the number by which the configuration is selected.
    pub fn configuration_value(&self) -> (r: u8)
        requires
            self@.len() > 5,
        ensures
            r == configuration_value(self@),
            r == self.bytes@[5],
    {
        self.bytes[5]
    }

    /// The alternate settings of all interfaces, in the order of their descriptors.
    pub fn interface_alt_settings(&self) -> (r: Vec<InterfaceDescriptor<'a>>)
        ensures
            r@.map_values(|d: InterfaceDescriptor<'a>| d@) == interface_alt_settings(self@),
            r@.len() == interface_alt_settings(self.bytes@).len(),
            forall|i: int|
                0 <= i < r@.len() ==> (#[trigger] r@[i]).bytes@ == interface_alt_settings(
                    self.bytes@,
                )[i],
            forall|i: int| 0 <= i < r@.len() ==> is_interface_descriptor(#[trigger] r@[i]@),
    {
        let buf = self.bytes;
        let mut settings: Vec<InterfaceDescriptor<'a>> = Vec::new();
        let mut at: usize = 0;
        let ghost is_interface = |descriptor: Seq<u8>| is_interface_descriptor(descriptor);
        let ghost view = |d: InterfaceDescriptor<'a>| d@;
        assert(buf@.skip(0) == buf@);
        assert(settings@.map_values(view) + descriptors(buf@).filter(is_interface)
            == descriptors(buf@).filter(is_interface));
        while at < buf.len() && buf[at] >= 2 && buf[at] as usize <= buf.len() - at
            invariant
                at <= buf@.len(),
                settings@.map_values(view) + descriptors(buf@.skip(at as int)).filter(is_interface)
                    == descriptors(buf@).filter(is_interface),
                is_interface == (|descriptor: Seq<u8>| is_interface_descriptor(descriptor)),
                view == (|d: InterfaceDescriptor<'a>| d@),
                forall|i: int|
                    0 <= i < settings@.len() ==> is_interface_descriptor(#[trigger] settings@[i]@),
            decreases buf@.len() - at,
        {
            let len: usize = buf[at] as usize;
            let descriptor = vstd::slice::slice_subrange(buf, at, at + len);
            let ghost before = settings@;
            let ghost rest = buf@.skip(at as int);
            proof {
                assert(rest.take(len as int) == descriptor@);
                assert(rest.skip(len as int) == buf@.skip(at + len));
                assert(descriptors(rest) == seq![descriptor@] + descriptors(buf@.skip(at + len)));
                Seq::filter_distributes_over_add(
                    seq![descriptor@],
                    descriptors(buf@.skip(at + len)),
                    is_interface,
                );
                reveal_with_fuel(Seq::filter, 2);
                assert(seq![descriptor@].drop_last() == Seq::<Seq<u8>>::empty());
            }
            if len >= DESCRIPTOR_LEN_INTERFACE as usize && descriptor[1]
                == DESCRIPTOR_TYPE_INTERFACE {
                settings.push(InterfaceDescriptor { bytes: descriptor });
                assert(settings@.map_values(view) == before.map_values(view).push(descriptor@));
            }
            at = at + len;
            proof {
                let here = seq![descriptor@].filter(is_interface);
                let after = descriptors(buf@.skip(at as int)).filter(is_interface);
                assert(settings@.map_values(view) == before.map_values(view) + here);
                assert((before.map_values(view) + here) + after == before.map_values(view) + (here
                    + after));
            }
        }
        proof {
            assert(!starts_with_descriptor(buf@.skip(at as int)));
            reveal_with_fuel(Seq::filter, 1);
            assert(settings@.map_values(view) + Seq::<Seq<u8>>::empty() == settings@.map_values(
                view,
            ));
        }
        settings
    }
}

/// The descriptor of one alternate setting of an interface.
#[derive(Clone, Copy, Debug)]
pub struct InterfaceDescriptor<'a> {
    /// The bytes of the descriptor.
    pub bytes: &'a [u8],
}

impl<'a> View for InterfaceDescriptor<'a> {
    type V = Seq<u8>;

    open spec fn view(&self) -> Seq<u8> {
        self.bytes@
    }
}

/// `bInterfaceNumber` of an interface descriptor.
pub open spec fn interface_number(descriptor: Seq<u8>) -> u8 {
    descriptor[2]
}

/// `bInterfaceClass` of an interface descriptor.
pub open spec fn interface_class(descriptor: Seq<u8>) -> u8 {
    descriptor[5]
}

impl<'a> InterfaceDescriptor<'a> {
    /// `bInterfaceNumber`: the interface that this is a setting of.
    pub fn interface_number(&self) -> (r: u8)
        requires
            is_interface_descriptor(self@),
        ensures
            r == interface_number(self@),
            r == self.bytes@[2],
    {
        self.bytes[2]
    }

    /// `bInterfaceClass`: the class that the interface belongs to under this setting.
    pub fn class(&self) -> (r: u8)
        requires
            is_interface_descriptor(self@),
        ensures
            r == interface_class(self@),
            r == self.bytes@[5],
    {
        self.bytes[5]
    }
}

/// Descriptors that were put one after another, of whatever types, are read back as they were
/// put, and reading goes on behind the last of them.
pub proof fn law_descriptors_are_read_back(parts: Seq<Seq<u8>>, rest: Seq<u8>)
    requires
        forall|i: int|
            0 <= i < parts.len() ==> 2 <= (#[trigger] parts[i]).len() && parts[i][0]
                == parts[i].len(),
    ensures
        descriptors(parts.flatten() + rest) == parts + descriptors(rest),
    decreases parts.len(),
{
    reveal_with_fuel(Seq::flatten, 1);
    if parts.len() == 0 {
        assert(parts.flatten() + rest == rest);
        assert(parts + descriptors(rest) == descriptors(rest));
    } else {
        let first = parts[0];
        let others = parts.drop_first();
        let tail = others.flatten() + rest;
        assert(first.len() == first[0]);
        assert forall|i: int| 0 <= i < others.len() implies 2 <= (#[trigger] others[i]).len()
            && others[i][0] == others[i].len() by {
            assert(others[i] == parts[i + 1]);
        }
        law_descriptors_are_read_back(others, rest);
        assert(parts.flatten() == first + others.flatten());
        let buf = parts.flatten() + rest;
        assert(buf == first + tail);
        assert(buf[0] == first[0]);
        assert(buf.take(first.len() as int) == first);
        assert(buf.skip(first.len() as int) == tail);
        assert(starts_with_descriptor(buf));
        assert(descriptors(buf) == seq![first] + descriptors(tail));
        assert(seq![first] + (others + descriptors(rest)) == parts + descriptors(rest));
    }
}

/// Reading ends where the bytes end, and where a length leaves out the length and type bytes or
/// goes beyond the end.
pub proof fn law_no_descriptor_where_none_fits(rest: Seq<u8>)
    ensures
        descriptors(rest).len() == 0 <==> rest.len() == 0 || rest[0] < 2 || rest[0] > rest.len(),
{
}

/// The alternate settings in a run of descriptors of whatever types are those descriptors that
/// are of type 4 and have at least nine bytes, in their order, wherever among the others they
/// stand.
pub proof fn law_alt_settings_are_the_interface_descriptors(parts: Seq<Seq<u8>>, rest: Seq<u8>)
    requires
        forall|i: int|
            0 <= i < parts.len() ==> 2 <= (#[trigger] parts[i]).len() && parts[i][0]
                == parts[i].len(),
        rest.len() == 0 || rest[0] < 2 || rest[0] > rest.len(),
    ensures
        interface_alt_settings(parts.flatten() + rest) == parts.filter(
            |part: Seq<u8>| part.len() >= 9 && part[1] == 4,
        ),
        forall|i: int|
            0 <= i < parts.len() && (#[trigger] parts[i]).len() >= 9 && parts[i][1] == 4
                ==> interface_alt_settings(parts.flatten() + rest).contains(parts[i]),
        forall|j: int|
            0 <= j < interface_alt_settings(parts.flatten() + rest).len() ==> {
                let setting = #[trigger] interface_alt_settings(parts.flatten() + rest)[j];
                setting.len() >= 9 && setting[1] == 4 && parts.contains(setting)
            },
{
    law_descriptors_are_read_back(parts, rest);
    law_no_descriptor_where_none_fits(rest);
    assert(parts + descriptors(rest) == parts);
    let is_setting = |part: Seq<u8>| part.len() >= 9 && part[1] == 4;
    let is_interface = |descriptor: Seq<u8>| is_interface_descriptor(descriptor);
    assert(is_setting =~= is_interface);
    assert forall|i: int|
        0 <= i < parts.len() && (#[trigger] parts[i]).len() >= 9 && parts[i][1]
            == 4 implies interface_alt_settings(parts.flatten() + rest).contains(parts[i]) by {
        assert(is_interface(parts[i]));
        parts.lemma_filter_contains(is_interface, i);
    }
    assert forall|j: int| 0 <= j < interface_alt_settings(parts.flatten() + rest).len() implies {
        let setting = #[trigger] interface_alt_settings(parts.flatten() + rest)[j];
        setting.len() >= 9 && setting[1] == 4 && parts.contains(setting)
    } by {
        let setting = parts.filter(is_interface)[j];
        parts.lemma_filter_pred(is_interface, j);
        assert(parts.filter(is_interface).contains(setting));
        parts.lemma_filter_contains_rev(is_interface, setting);
        assert(is_interface(setting));
    }
}

/// A configuration is whole once as many bytes are there as its descriptor announces: no fewer
/// will do, and more do no harm. The descriptor itself has type 2 and at least nine bytes.
pub proof fn law_configuration_is_whole_once_it_is_there(buf: Seq<u8>, more: Seq<u8>, part: int)
    ensures
        is_configuration(buf) <==> buf.len() >= 9 && buf[0] >= 9 && buf[1] == 2 && buf[0] <= buf[2]
            + 256 * buf[3] <= buf.len(),
        is_configuration(buf) ==> is_configuration(buf + more),
        is_configuration(buf) && 0 <= part <= buf.len() ==> (is_configuration(buf.take(part))
            <==> part >= buf[2] + 256 * buf[3]),
{
}

/// Where the numbers stand that the library reads out of descriptors.
pub proof fn law_fields_of_descriptors(descriptor: Seq<u8>)
    ensures
        configuration_value(descriptor) == descriptor[5],
        total_length(descriptor) == descriptor[2] + 256 * descriptor[3],
        interface_number(descriptor) == descriptor[2],
        interface_class(descriptor) == descriptor[5],
{
}

/// The contents of a list of byte vectors are those of each vector, in order.
pub proof fn law_bytes_of_each(list: Seq<Vec<u8>>)
    ensures
        bytes_of(list).len() == list.len(),
        forall|i: int| 0 <= i < list.len() ==> #[trigger] bytes_of(list)[i] == list[i]@,
{
}

} // verus!
