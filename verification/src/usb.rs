//! USB vocabulary shared by the driver: directions, transfer types, endpoints.
use vstd::prelude::*;

verus! {

/// Direction of a transfer, as the host sees it.
#[derive(Copy, Clone, Debug, PartialEq, Eq, Structural)]
pub enum Direction {
    /// Host to device.
    Out,
    /// Device to host.
    In,
}

/// Transfer type of an endpoint.
#[derive(Copy, Clone, Debug, PartialEq, Eq, Structural)]
pub enum EndpointType {
    /// Control transfers.
    Control,
    /// Isochronous transfers.
    Isochronous,
    /// Bulk transfers.
    Bulk,
    /// Interrupt transfers.
    Interrupt,
}

/// What a host controller has to know of an endpoint to serve it.
#[derive(Copy, Clone, Debug, PartialEq, Eq, Structural)]
pub struct EndpointInfo {
    /// Endpoint address: the endpoint number, with bit 7 set for IN.
    pub addr: u8,
    /// Transfer type.
    pub ep_type: EndpointType,
    /// Largest packet, in bytes.
    pub max_packet_size: u16,
    /// Polling interval in milliseconds.
    pub interval_ms: u8,
}

/// The routing of transfers through a hub's transaction translator, carried
/// from enumeration to pipe allocation without being looked into.
#[verifier::external_type_specification]
#[verifier::external_body]
pub struct ExSplitInfo(embassy_usb_driver::host::SplitInfo);

/// The reason a host controller gives for not allocating a pipe.
#[verifier::external_type_specification]
#[verifier::external_body]
pub struct ExHostError(embassy_usb_driver::host::HostError);

impl Direction {
    /// The direction bit of an endpoint address.
    pub open spec fn address_bit(self) -> u8 {
        match self {
            Direction::Out => 0x00,
            Direction::In => 0x80,
        }
    }
}

/// Calls `embassy_usb_driver::EndpointAddress::from_parts` and hands the address
/// out as a byte. Trusted: the address is the low byte of the endpoint number,
/// with the direction bit set for IN.
#[verifier::external_body]
pub(crate) fn endpoint_address(index: usize, direction: Direction) -> (addr: u8)
    ensures
        addr == (index as u8) | direction.address_bit(),
{
    let dir = match direction {
        Direction::Out => embassy_usb_driver::Direction::Out,
        Direction::In => embassy_usb_driver::Direction::In,
    };
    u8::from(embassy_usb_driver::EndpointAddress::from_parts(index, dir))
}

/// The endpoint number that an endpoint descriptor's address names.
pub open spec fn endpoint_number(address: u8) -> int {
    address as int % 16
}

/// The address of endpoint `number` in direction `direction`.
pub open spec fn address_of(number: int, direction: Direction) -> int {
    match direction {
        Direction::Out => number,
        Direction::In => 128 + number,
    }
}

/// The address of the endpoint that `address` numbers, in direction `direction`.
pub fn directed_address(address: u8, direction: Direction) -> (addr: u8)
    ensures
        addr == address_of(endpoint_number(address), direction),
{
    let index: u8 = address & 0x0F;
    assert(index == address % 16) by (bit_vector)
        requires
            index == address & 0x0F,
    ;
    assert(index | 0x00u8 == index) by (bit_vector);
    assert(index <= 15 ==> index | 0x80u8 == 128 + index) by (bit_vector);
    endpoint_address(index as usize, direction)
}

/// A directed address keeps the low four bits of the address it was made from,
/// has bit 7 set for IN alone, and no other bit.
pub proof fn law_directed_address_bits(address: u8)
    ensures
        address_of(endpoint_number(address), Direction::In) == 128 + address % 16,
        address_of(endpoint_number(address), Direction::Out) == address % 16,
        Direction::In.address_bit() == 0x80,
        Direction::Out.address_bit() == 0,
{
}

} // verus!
