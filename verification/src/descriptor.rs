//! Configuration descriptors: a chain of length-prefixed records.
//!
//! A record is `bLength` bytes long; its second byte is its type. An interface
//! record is followed by the endpoint records of that interface, up to the next
//! record of interface type; records of other types may stand anywhere. A record
//! too short for its type says nothing.
use crate::control::le16;
use crate::usb::EndpointType;
use vstd::prelude::*;

verus! {

/// Record type of a configuration header.
pub const TYPE_CONFIGURATION: u8 = 2;

/// Record type of an interface.
pub const TYPE_INTERFACE: u8 = 4;

/// Record type of an endpoint.
pub const TYPE_ENDPOINT: u8 = 5;

/// Why bytes are not a configuration descriptor chain.
#[derive(Copy, Clone, Debug, PartialEq, Eq, Structural)]
pub enum DescriptorError {
    /// The bytes do not start with a configuration header.
    NotConfiguration,
    /// The header announces more bytes than there are.
    Truncated,
}

/// An endpoint record.
#[derive(Copy, Clone, Debug, PartialEq, Eq, Structural)]
pub struct EndpointDescriptor {
    /// Endpoint address: the endpoint number, with bit 7 set for IN.
    pub endpoint_address: u8,
    /// Attributes: the transfer type in the two low bits.
    pub attributes: u8,
    /// Largest packet, in bytes.
    pub max_packet_size: u16,
}

/// An interface record, with the bytes that follow it in the chain.
#[derive(Copy, Clone, Debug)]
pub struct InterfaceDescriptor<'a> {
    /// Interface number.
    pub interface_number: u8,
    /// Alternate setting.
    pub alternate_setting: u8,
    /// Interface class.
    pub interface_class: u8,
    /// What follows the record: its endpoints, then the rest of the chain.
    pub buffer: &'a [u8],
}

/// The bytes of a configuration descriptor: a header and the records after it.
#[derive(Copy, Clone, Debug)]
pub struct ConfigurationDescriptorChain<'a> {
    /// All bytes that the header announces, the header among them.
    pub bytes: &'a [u8],
}

/// What an interface record says, with the endpoints that belong to it.
pub struct Interface {
    /// Interface number.
    pub interface_number: u8,
    /// Alternate setting.
    pub alternate_setting: u8,
    /// Interface class.
    pub interface_class: u8,
    /// The interface's endpoints, in chain order.
    pub endpoints: Seq<EndpointDescriptor>,
}

/// A whole record stands at the start of `bytes`.
pub open spec fn has_record(bytes: Seq<u8>) -> bool {
    bytes.len() >= 2 && 2 <= bytes[0] <= bytes.len()
}

/// What follows the record at the start of `bytes`.
pub open spec fn after_record(bytes: Seq<u8>) -> Seq<u8> {
    bytes.skip(bytes[0] as int)
}

/// The record at the start of `bytes` is an interface record.
pub open spec fn at_interface(bytes: Seq<u8>) -> bool {
    has_record(bytes) && bytes[1] == TYPE_INTERFACE && bytes[0] >= 9
}

/// The record at the start of `bytes` is an endpoint record.
pub open spec fn at_endpoint(bytes: Seq<u8>) -> bool {
    has_record(bytes) && bytes[1] == TYPE_ENDPOINT && bytes[0] >= 7
}

/// The endpoint record at the start of `bytes`.
pub open spec fn endpoint_at(bytes: Seq<u8>) -> EndpointDescriptor {
    EndpointDescriptor {
        endpoint_address: bytes[2],
        attributes: bytes[3],
        max_packet_size: le16(bytes[4], bytes[5]) as u16,
    }
}

/// The endpoints at the start of `bytes`, up to the next record of interface type.
pub open spec fn endpoints(bytes: Seq<u8>) -> Seq<EndpointDescriptor>
    decreases bytes.len(),
{
    if !has_record(bytes) || bytes[1] == TYPE_INTERFACE {
        seq![]
    } else if at_endpoint(bytes) {
        seq![endpoint_at(bytes)] + endpoints(after_record(bytes))
    } else {
        endpoints(after_record(bytes))
    }
}

/// The interface record at the start of `bytes`, with its endpoints.
pub open spec fn interface_at(bytes: Seq<u8>) -> Interface {
    Interface {
        interface_number: bytes[2],
        alternate_setting: bytes[3],
        interface_class: bytes[5],
        endpoints: endpoints(after_record(bytes)),
    }
}

/// The interfaces of a chain of records, in chain order. The chain ends at the
/// first place where no whole record stands.
pub open spec fn interfaces(bytes: Seq<u8>) -> Seq<Interface>
    decreases bytes.len(),
{
    if !has_record(bytes) {
        seq![]
    } else if at_interface(bytes) {
        seq![interface_at(bytes)] + interfaces(after_record(bytes))
    } else {
        interfaces(after_record(bytes))
    }
}

/// `bytes` starts with a configuration header.
pub open spec fn at_configuration(bytes: Seq<u8>) -> bool {
    bytes.len() >= 9 && bytes[0] >= 9 && bytes[1] == TYPE_CONFIGURATION
}

/// The number of bytes that the header at the start of `bytes` announces.
pub open spec fn total_length(bytes: Seq<u8>) -> int {
    le16(bytes[2], bytes[3])
}

/// `bytes` starts with a configuration header and holds all that it announces.
pub open spec fn is_configuration(bytes: Seq<u8>) -> bool {
    at_configuration(bytes) && total_length(bytes) <= bytes.len()
}

/// The interfaces of the configuration descriptor at the start of `bytes`.
pub open spec fn configuration_interfaces(bytes: Seq<u8>) -> Seq<Interface> {
    interfaces(bytes.take(total_length(bytes)))
}

impl EndpointDescriptor {
    /// The endpoint's transfer type.
    pub open spec fn transfer_type(self) -> EndpointType {
        let code = self.attributes as int % 4;
        if code == 0 {
            EndpointType::Control
        } else if code == 1 {
            EndpointType::Isochronous
        } else if code == 2 {
            EndpointType::Bulk
        } else {
            EndpointType::Interrupt
        }
    }

    /// The endpoint sends to the host.
    pub open spec fn sends_in(self) -> bool {
        self.endpoint_address >= 128
    }

    /// The endpoint's transfer type.
    pub fn ep_type(&self) -> (ep_type: EndpointType)
        ensures
            ep_type == self.transfer_type(),
    {
        match self.attributes % 4 {
            0 => EndpointType::Control,
            1 => EndpointType::Isochronous,
            2 => EndpointType::Bulk,
            _ => EndpointType::Interrupt,
        }
    }

    /// Whether the endpoint sends to the host.
    pub fn is_in(&self) -> (is_in: bool)
        ensures
            is_in == self.sends_in(),
    {
        self.endpoint_address >= 128
    }
}

impl<'a> View for InterfaceDescriptor<'a> {
    type V = Interface;

    open spec fn view(&self) -> Interface {
        Interface {
            interface_number: self.interface_number,
            alternate_setting: self.alternate_setting,
            interface_class: self.interface_class,
            endpoints: endpoints(self.buffer@),
        }
    }
}

/// The first endpoint in `bytes` before any record of interface type, and the
/// bytes that follow it.
pub fn next_endpoint<'a>(bytes: &'a [u8]) -> (found: Option<(EndpointDescriptor, &'a [u8])>)
    ensures
        match found {
            Some((endpoint, rest)) => {
                &&& endpoints(bytes@) == seq![endpoint] + endpoints(rest@)
                &&& rest@.len() < bytes@.len()
            },
            None => endpoints(bytes@).len() == 0,
        },
{
    let mut rest: &'a [u8] = bytes;
    while rest.len() >= 2 && 2 <= rest[0] && rest[0] as usize <= rest.len() && rest[1] != TYPE_INTERFACE
        invariant
            endpoints(rest@) == endpoints(bytes@),
            rest@.len() <= bytes@.len(),
        decreases rest@.len(),
    {
        let len: usize = rest[0] as usize;
        let after: &'a [u8] = &rest[len..rest.len()];
        assert(after@ == after_record(rest@));
        if rest[1] == TYPE_ENDPOINT && len >= 7 {
            let endpoint = EndpointDescriptor {
                endpoint_address: rest[2],
                attributes: rest[3],
                max_packet_size: rest[4] as u16 + 256 * (rest[5] as u16),
            };
            assert(endpoint == endpoint_at(rest@));
            return Some((endpoint, after));
        }
        rest = after;
    }
    None
}

/// The first interface in `bytes`.
pub fn next_interface<'a>(bytes: &'a [u8]) -> (found: Option<InterfaceDescriptor<'a>>)
    ensures
        match found {
            Some(interface) => {
                &&& interfaces(bytes@) == seq![interface@] + interfaces(interface.buffer@)
                &&& interface.buffer@.len() < bytes@.len()
            },
            None => interfaces(bytes@).len() == 0,
        },
{
    let mut rest: &'a [u8] = bytes;
    while rest.len() >= 2 && 2 <= rest[0] && rest[0] as usize <= rest.len()
        invariant
            interfaces(rest@) == interfaces(bytes@),
            rest@.len() <= bytes@.len(),
        decreases rest@.len(),
    {
        let len: usize = rest[0] as usize;
        let after: &'a [u8] = &rest[len..rest.len()];
        assert(after@ == after_record(rest@));
        if rest[1] == TYPE_INTERFACE && len >= 9 {
            let interface = InterfaceDescriptor {
                interface_number: rest[2],
                alternate_setting: rest[3],
                interface_class: rest[5],
                buffer: after,
            };
            assert(interface@ == interface_at(rest@));
            return Some(interface);
        }
        rest = after;
    }
    None
}

impl<'a> ConfigurationDescriptorChain<'a> {
    /// Reads the configuration descriptor at the start of `bytes`. Bytes past
    /// the announced length are left out of the chain.
    pub fn try_from_slice(bytes: &'a [u8]) -> (chain: Result<Self, DescriptorError>)
        ensures
            match chain {
                Ok(chain) => is_configuration(bytes@) && chain.bytes@ == bytes@.take(
                    total_length(bytes@),
                ),
                Err(DescriptorError::NotConfiguration) => !at_configuration(bytes@),
                Err(DescriptorError::Truncated) => at_configuration(bytes@) && total_length(bytes@)
                    > bytes@.len(),
            },
    {
        if bytes.len() < 9 || bytes[0] < 9 || bytes[1] != TYPE_CONFIGURATION {
            return Err(DescriptorError::NotConfiguration);
        }
        let total: usize = bytes[2] as usize + 256 * (bytes[3] as usize);
        if total > bytes.len() {
            return Err(DescriptorError::Truncated);
        }
        Ok(ConfigurationDescriptorChain { bytes: &bytes[0..total] })
    }
}

/// Bytes past the announced length change nothing.
pub proof fn law_trailing_bytes_are_ignored(bytes: Seq<u8>, trailing: Seq<u8>)
    requires
        is_configuration(bytes),
    ensures
        is_configuration(bytes + trailing),
        configuration_interfaces(bytes + trailing) == configuration_interfaces(bytes),
{
    assert((bytes + trailing).take(total_length(bytes)) =~= bytes.take(total_length(bytes)));
}

/// An endpoint record says what its bytes say, whatever follows it: the address
/// in byte 2, the attributes in byte 3, the packet size in bytes 4 and 5, low byte
/// first. The endpoints after it are those of what follows.
pub proof fn law_endpoint_record_is_read(record: Seq<u8>, rest: Seq<u8>)
    requires
        record.len() >= 7,
        record[0] == record.len(),
        record[1] == 5,
    ensures
        endpoints(record + rest).len() == 1 + endpoints(rest).len(),
        endpoints(record + rest)[0].endpoint_address == record[2],
        endpoints(record + rest)[0].attributes == record[3],
        endpoints(record + rest)[0].max_packet_size == record[4] + 256 * record[5],
        endpoints(record + rest).drop_first() == endpoints(rest),
{
    let bytes = record + rest;
    assert(after_record(bytes) =~= rest);
    assert(bytes[0] == record[0] && bytes[1] == record[1] && bytes[2] == record[2]);
    assert(bytes[3] == record[3] && bytes[4] == record[4] && bytes[5] == record[5]);
    assert(endpoints(bytes) == seq![endpoint_at(bytes)] + endpoints(rest));
    assert(endpoints(bytes).drop_first() =~= endpoints(rest));
}

/// An interface record says what its bytes say, whatever follows it: the number
/// in byte 2, the alternate setting in byte 3, the class in byte 5. Its endpoints
/// are those that follow it, and so are the interfaces after it.
pub proof fn law_interface_record_is_read(record: Seq<u8>, rest: Seq<u8>)
    requires
        record.len() >= 9,
        record[0] == record.len(),
        record[1] == 4,
    ensures
        interfaces(record + rest).len() == 1 + interfaces(rest).len(),
        interfaces(record + rest)[0].interface_number == record[2],
        interfaces(record + rest)[0].alternate_setting == record[3],
        interfaces(record + rest)[0].interface_class == record[5],
        interfaces(record + rest)[0].endpoints == endpoints(rest),
        interfaces(record + rest).drop_first() == interfaces(rest),
{
    let bytes = record + rest;
    assert(after_record(bytes) =~= rest);
    assert(bytes[0] == record[0] && bytes[1] == record[1] && bytes[2] == record[2]);
    assert(bytes[3] == record[3] && bytes[5] == record[5]);
    assert(interfaces(bytes) == seq![interface_at(bytes)] + interfaces(rest));
    assert(interfaces(bytes).drop_first() =~= interfaces(rest));
}

/// The endpoints of an interface end where the next record of interface type
/// stands, whole or too short.
pub proof fn law_interface_record_ends_endpoints(record: Seq<u8>, rest: Seq<u8>)
    requires
        record.len() >= 2,
        record[0] == record.len(),
        record[1] == 4,
    ensures
        endpoints(record + rest).len() == 0,
{
    assert((record + rest)[1] == record[1]);
}

/// A record that is no interface, or too short for one, adds no interface.
pub proof fn law_other_records_add_no_interface(record: Seq<u8>, rest: Seq<u8>)
    requires
        record.len() >= 2,
        record[0] == record.len(),
        record[1] != 4 || record.len() < 9,
    ensures
        interfaces(record + rest) == interfaces(rest),
{
    assert(after_record(record + rest) =~= rest);
    assert((record + rest)[0] == record[0] && (record + rest)[1] == record[1]);
}

/// A record that is no endpoint, or too short for one, adds no endpoint and does
/// not end the endpoints, unless it is of interface type.
pub proof fn law_other_records_add_no_endpoint(record: Seq<u8>, rest: Seq<u8>)
    requires
        record.len() >= 2,
        record[0] == record.len(),
        record[1] != 4,
        record[1] != 5 || record.len() < 7,
    ensures
        endpoints(record + rest) == endpoints(rest),
{
    assert(after_record(record + rest) =~= rest);
    assert((record + rest)[0] == record[0] && (record + rest)[1] == record[1]);
}

/// Where no whole record stands, nothing is read.
pub proof fn law_nothing_without_a_record(bytes: Seq<u8>)
    requires
        bytes.len() < 2 || bytes[0] < 2 || bytes[0] > bytes.len(),
    ensures
        endpoints(bytes).len() == 0,
        interfaces(bytes).len() == 0,
{
}

/// A configuration header is nine bytes or more, of type 2, with the length of
/// the whole in bytes 2 and 3, low byte first; the interfaces are read from that
/// many bytes.
pub proof fn law_configuration_header_is_read(bytes: Seq<u8>)
    ensures
        at_configuration(bytes) <==> bytes.len() >= 9 && bytes[0] >= 9 && bytes[1] == 2,
        total_length(bytes) == bytes[2] + 256 * bytes[3],
        is_configuration(bytes) <==> bytes.len() >= 9 && bytes[0] >= 9 && bytes[1] == 2 && bytes[2]
            + 256 * bytes[3] <= bytes.len(),
        configuration_interfaces(bytes) == interfaces(bytes.take(bytes[2] + 256 * bytes[3])),
{
}

/// The two low bits of the attributes tell the transfer type, bit 7 of the
/// address the direction; nothing else about the endpoint matters to either.
pub proof fn law_endpoint_bits(endpoint: EndpointDescriptor)
    ensures
        endpoint.transfer_type() == EndpointType::Control <==> endpoint.attributes % 4 == 0,
        endpoint.transfer_type() == EndpointType::Isochronous <==> endpoint.attributes % 4 == 1,
        endpoint.transfer_type() == EndpointType::Bulk <==> endpoint.attributes % 4 == 2,
        endpoint.transfer_type() == EndpointType::Interrupt <==> endpoint.attributes % 4 == 3,
        endpoint.sends_in() <==> endpoint.endpoint_address / 128 == 1,
{
}

/// The fields of an interface that was read are what its record says.
pub proof fn law_interface_fields(interface: InterfaceDescriptor)
    ensures
        interface@.interface_number == interface.interface_number,
        interface@.alternate_setting == interface.alternate_setting,
        interface@.interface_class == interface.interface_class,
        interface@.endpoints == endpoints(interface.buffer@),
{
}

/// An endpoint that is read from `bytes` has a record there.
pub(crate) proof fn lemma_endpoint_stands(bytes: Seq<u8>, k: int) -> (at: int)
    requires
        0 <= k < endpoints(bytes).len(),
    ensures
        0 <= at,
        at + 7 <= at + bytes[at] <= bytes.len(),
        bytes[at + 1] == 5,
        bytes[at + 2] == endpoints(bytes)[k].endpoint_address,
        bytes[at + 3] == endpoints(bytes)[k].attributes,
        bytes[at + 4] + 256 * bytes[at + 5] == endpoints(bytes)[k].max_packet_size,
    decreases bytes.len(),
{
    let rest = after_record(bytes);
    if at_endpoint(bytes) {
        if k == 0 {
            0
        } else {
            assert(endpoints(bytes)[k] == endpoints(rest)[k - 1]);
            lemma_endpoint_stands(rest, k - 1) + bytes[0]
        }
    } else {
        lemma_endpoint_stands(rest, k) + bytes[0]
    }
}

/// An interface that is read from `bytes` has a record there, and its endpoints
/// are read from what follows the record.
pub(crate) proof fn lemma_interface_stands(bytes: Seq<u8>, k: int) -> (at: int)
    requires
        0 <= k < interfaces(bytes).len(),
    ensures
        0 <= at,
        at + 9 <= at + bytes[at] <= bytes.len(),
        bytes[at + 1] == 4,
        bytes[at + 2] == interfaces(bytes)[k].interface_number,
        bytes[at + 3] == interfaces(bytes)[k].alternate_setting,
        bytes[at + 5] == interfaces(bytes)[k].interface_class,
        interfaces(bytes)[k].endpoints == endpoints(bytes.skip(at + bytes[at])),
    decreases bytes.len(),
{
    let rest = after_record(bytes);
    if at_interface(bytes) && k == 0 {
        0
    } else {
        let later = if at_interface(bytes) {
            k - 1
        } else {
            k
        };
        assert(interfaces(bytes)[k] == interfaces(rest)[later]);
        let at = lemma_interface_stands(rest, later);
        assert(rest.skip(at + rest[at]) =~= bytes.skip(at + bytes[0] + bytes[at + bytes[0]]));
        at + bytes[0]
    }
}

} // verus!
