//! Control requests and their 8-byte setup packets.
use crate::usb::Direction;
use vstd::prelude::*;

verus! {

/// Who defines a control request.
#[derive(Copy, Clone, Debug, PartialEq, Eq, Structural)]
pub enum ControlType {
    /// The USB standard.
    Standard,
    /// A device class.
    Class,
    /// The device's vendor.
    Vendor,
}

/// What a control request is addressed to.
#[derive(Copy, Clone, Debug, PartialEq, Eq, Structural)]
pub enum Recipient {
    /// The device as a whole.
    Device,
    /// One of its interfaces.
    Interface,
    /// One of its endpoints.
    Endpoint,
    /// Something else.
    Other,
}

/// The kind of a control request.
#[derive(Copy, Clone, Debug, PartialEq, Eq, Structural)]
pub struct RequestType {
    /// Direction of the data stage.
    pub direction: Direction,
    /// Who defines the request.
    pub control_type: ControlType,
    /// What the request is addressed to.
    pub recipient: Recipient,
}

/// A control request.
#[derive(Copy, Clone, Debug, PartialEq, Eq, Structural)]
pub struct SetupPacket {
    /// `bmRequestType`.
    pub request_type: RequestType,
    /// `bRequest`.
    pub request: u8,
    /// `wValue`.
    pub value: u16,
    /// `wIndex`.
    pub index: u16,
    /// `wLength`: bytes in the data stage.
    pub length: u16,
}

impl RequestType {
    /// The kind as the `bmRequestType` byte: direction in bit 7, definer in
    /// bits 6 and 5, recipient in the bits below.
    pub open spec fn byte(self) -> int {
        let direction: int = match self.direction {
            Direction::Out => 0,
            Direction::In => 1,
        };
        let control_type: int = match self.control_type {
            ControlType::Standard => 0,
            ControlType::Class => 1,
            ControlType::Vendor => 2,
        };
        let recipient: int = match self.recipient {
            Recipient::Device => 0,
            Recipient::Interface => 1,
            Recipient::Endpoint => 2,
            Recipient::Other => 3,
        };
        direction * 128 + control_type * 32 + recipient
    }

    /// The `bmRequestType` byte.
    pub fn to_byte(&self) -> (byte: u8)
        ensures
            byte == self.byte(),
    {
        let direction: u8 = match self.direction {
            Direction::Out => 0,
            Direction::In => 128,
        };
        let control_type: u8 = match self.control_type {
            ControlType::Standard => 0,
            ControlType::Class => 32,
            ControlType::Vendor => 64,
        };
        let recipient: u8 = match self.recipient {
            Recipient::Device => 0,
            Recipient::Interface => 1,
            Recipient::Endpoint => 2,
            Recipient::Other => 3,
        };
        direction + control_type + recipient
    }
}

/// The 16-bit value of two bytes, low byte first.
pub open spec fn le16(low: u8, high: u8) -> int {
    low + 256 * high
}

impl SetupPacket {
    /// `bytes` is the packet as it goes over the wire: 8 bytes, in the order of
    /// the fields, 16-bit fields low byte first.
    pub open spec fn encoded_as(self, bytes: Seq<u8>) -> bool {
        &&& bytes.len() == 8
        &&& bytes[0] == self.request_type.byte()
        &&& bytes[1] == self.request
        &&& le16(bytes[2], bytes[3]) == self.value
        &&& le16(bytes[4], bytes[5]) == self.index
        &&& le16(bytes[6], bytes[7]) == self.length
    }

    /// The packet as it goes over the wire.
    pub fn to_bytes(&self) -> (bytes: [u8; 8])
        ensures
            self.encoded_as(bytes@),
    {
        [
            self.request_type.to_byte(),
            self.request,
            (self.value % 256) as u8,
            (self.value / 256) as u8,
            (self.index % 256) as u8,
            (self.index / 256) as u8,
            (self.length % 256) as u8,
            (self.length / 256) as u8,
        ]
    }
}

/// A packet has one encoding, and no other packet shares it: what the device
/// receives determines the request.
pub proof fn law_encoding_is_unique(
    first: SetupPacket,
    second: SetupPacket,
    first_bytes: Seq<u8>,
    second_bytes: Seq<u8>,
)
    requires
        first.encoded_as(first_bytes),
        second.encoded_as(second_bytes),
    ensures
        first == second <==> first_bytes == second_bytes,
{
    if first == second {
        assert(first_bytes =~= second_bytes);
    }
}

/// The kind byte has the direction in bit 7, the definer in bits 6 and 5, and the
/// recipient in the five bits below.
pub proof fn law_request_type_bits(kind: RequestType)
    ensures
        0 <= kind.byte() < 256,
        kind.byte() / 128 == (match kind.direction {
            Direction::Out => 0int,
            Direction::In => 1,
        }),
        kind.byte() / 32 % 4 == (match kind.control_type {
            ControlType::Standard => 0int,
            ControlType::Class => 1,
            ControlType::Vendor => 2,
        }),
        kind.byte() % 32 == (match kind.recipient {
            Recipient::Device => 0int,
            Recipient::Interface => 1,
            Recipient::Endpoint => 2,
            Recipient::Other => 3,
        }),
{
}

/// On the wire a packet is eight bytes: kind, request, then value, index and
/// length, each with its low byte before its high byte.
pub proof fn law_setup_packet_on_the_wire(packet: SetupPacket, bytes: Seq<u8>)
    ensures
        packet.encoded_as(bytes) <==> {
            &&& bytes.len() == 8
            &&& bytes[0] == packet.request_type.byte()
            &&& bytes[1] == packet.request
            &&& bytes[2] == packet.value % 256 && bytes[3] == packet.value / 256
            &&& bytes[4] == packet.index % 256 && bytes[5] == packet.index / 256
            &&& bytes[6] == packet.length % 256 && bytes[7] == packet.length / 256
        },
{
}

} // verus!
