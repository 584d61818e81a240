//! Locating the FTDI data interfaces in a configuration descriptor.
use crate::descriptor::{
    configuration_interfaces, endpoints, interfaces, is_configuration,
    law_endpoint_record_is_read, law_interface_record_is_read, law_nothing_without_a_record,
    law_other_records_add_no_interface, law_trailing_bytes_are_ignored, lemma_endpoint_stands,
    lemma_interface_stands, next_endpoint, next_interface, total_length,
    ConfigurationDescriptorChain, EndpointDescriptor, Interface, InterfaceDescriptor,
};
use crate::usb::{Direction, EndpointType};
use vstd::prelude::*;

verus! {

/// Interface class of vendor-defined interfaces.
pub const VENDOR_CLASS: u8 = 0xFF;

/// Where the data interface of a channel is.
#[derive(Copy, Clone, Debug, PartialEq, Eq, Structural)]
pub struct FtdiInfo {
    /// USB interface number.
    pub interface: u8,
    /// Bulk IN endpoint address.
    pub bulk_in_ep: u8,
    /// Bulk IN max packet size.
    pub bulk_in_mps: u16,
    /// Bulk OUT endpoint address.
    pub bulk_out_ep: u8,
    /// Bulk OUT max packet size.
    pub bulk_out_mps: u16,
}

/// The endpoint makes bulk transfers in direction `direction`.
pub open spec fn is_bulk(endpoint: EndpointDescriptor, direction: Direction) -> bool {
    endpoint.transfer_type() == EndpointType::Bulk && endpoint.sends_in() == (direction
        == Direction::In)
}

/// The last endpoint that makes bulk transfers in direction `direction`.
pub open spec fn last_bulk(list: Seq<EndpointDescriptor>, direction: Direction) -> Option<
    EndpointDescriptor,
>
    decreases list.len(),
{
    if list.len() == 0 {
        None
    } else if is_bulk(list.last(), direction) {
        Some(list.last())
    } else {
        last_bulk(list.drop_last(), direction)
    }
}

/// The channel that an interface carries: one where the interface is of vendor
/// class, in its default setting, and has a bulk endpoint in each direction.
pub open spec fn channel(interface: Interface) -> Option<FtdiInfo> {
    let bulk_in = last_bulk(interface.endpoints, Direction::In);
    let bulk_out = last_bulk(interface.endpoints, Direction::Out);
    if interface.interface_class == VENDOR_CLASS && interface.alternate_setting == 0
        && bulk_in is Some && bulk_out is Some {
        Some(
            FtdiInfo {
                interface: interface.interface_number,
                bulk_in_ep: bulk_in->0.endpoint_address,
                bulk_in_mps: bulk_in->0.max_packet_size,
                bulk_out_ep: bulk_out->0.endpoint_address,
                bulk_out_mps: bulk_out->0.max_packet_size,
            },
        )
    } else {
        None
    }
}

/// The channels that a list of interfaces carries, in order.
pub open spec fn channels(list: Seq<Interface>) -> Seq<FtdiInfo>
    decreases list.len(),
{
    if list.len() == 0 {
        seq![]
    } else {
        match channel(list.last()) {
            Some(info) => channels(list.drop_last()).push(info),
            None => channels(list.drop_last()),
        }
    }
}

/// The channels that a configuration descriptor describes; none where the bytes
/// are no configuration descriptor.
pub open spec fn ftdi_channels(config_desc: Seq<u8>) -> Seq<FtdiInfo> {
    if is_configuration(config_desc) {
        channels(configuration_interfaces(config_desc))
    } else {
        seq![]
    }
}

/// What `find_ftdi` answers.
pub open spec fn found_ftdi(config_desc: Seq<u8>, interface_idx: u8) -> Option<FtdiInfo> {
    if interface_idx < ftdi_channels(config_desc).len() {
        Some(ftdi_channels(config_desc)[interface_idx as int])
    } else {
        None
    }
}

proof fn lemma_channels_append(front: Seq<Interface>, back: Seq<Interface>)
    ensures
        channels(front + back) == channels(front) + channels(back),
    decreases back.len(),
{
    if back.len() == 0 {
        assert(front + back =~= front);
        assert(channels(front) + channels(back) =~= channels(front));
    } else {
        assert((front + back).drop_last() =~= front + back.drop_last());
        lemma_channels_append(front, back.drop_last());
        assert(channels(front + back) =~= channels(front) + channels(back));
    }
}

/// Address and packet size of an endpoint.
spec fn parts(endpoint: Option<EndpointDescriptor>) -> Option<(u8, u16)> {
    match endpoint {
        Some(endpoint) => Some((endpoint.endpoint_address, endpoint.max_packet_size)),
        None => None,
    }
}

/// The channel that `interface` carries, if it carries one.
fn read_channel(interface: &InterfaceDescriptor) -> (info: Option<FtdiInfo>)
    ensures
        info == channel(interface@),
{
    if interface.interface_class != VENDOR_CLASS || interface.alternate_setting != 0 {
        return None;
    }
    let mut in_ep: Option<(u8, u16)> = None;
    let mut out_ep: Option<(u8, u16)> = None;
    let mut rest: &[u8] = interface.buffer;
    let ghost mut seen: Seq<EndpointDescriptor> = seq![];
    loop
        invariant
            seen + endpoints(rest@) == interface@.endpoints,
            in_ep == parts(last_bulk(seen, Direction::In)),
            out_ep == parts(last_bulk(seen, Direction::Out)),
        ensures
            endpoints(rest@).len() == 0,
        decreases rest@.len(),
    {
        let (ep, after) = match next_endpoint(rest) {
            Some(found) => found,
            None => break,
        };
        proof {
            assert(seen + (seq![ep] + endpoints(after@)) =~= seen.push(ep) + endpoints(after@));
            assert(seen.push(ep).drop_last() =~= seen);
            seen = seen.push(ep);
        }
        if ep.ep_type() == EndpointType::Bulk {
            if ep.is_in() {
                in_ep = Some((ep.endpoint_address, ep.max_packet_size));
            } else {
                out_ep = Some((ep.endpoint_address, ep.max_packet_size));
            }
        }
        rest = after;
    }
    assert(seen =~= interface@.endpoints);
    match (in_ep, out_ep) {
        (Some((in_a, in_m)), Some((out_a, out_m))) => Some(
            FtdiInfo {
                interface: interface.interface_number,
                bulk_in_ep: in_a,
                bulk_in_mps: in_m,
                bulk_out_ep: out_a,
                bulk_out_mps: out_m,
            },
        ),
        _ => None,
    }
}

/// Returns the `interface_idx`-th (0-indexed) vendor-class interface in
/// `config_desc` that has a bulk IN and a bulk OUT endpoint. Use
/// `interface_idx = 0` for single-channel parts (FT232R); `0..N` for multi-channel
/// parts (FT2232, FT4232).
pub fn find_ftdi(config_desc: &[u8], interface_idx: u8) -> (info: Option<FtdiInfo>)
    ensures
        info == found_ftdi(config_desc@, interface_idx),
{
    let chain = match ConfigurationDescriptorChain::try_from_slice(config_desc) {
        Ok(chain) => chain,
        Err(_) => return None,
    };
    let mut seen: u8 = 0;
    let mut rest: &[u8] = chain.bytes;
    let ghost all = configuration_interfaces(config_desc@);
    let ghost mut done: Seq<Interface> = seq![];
    assert(done + interfaces(rest@) =~= all);
    loop
        invariant
            is_configuration(config_desc@),
            all == configuration_interfaces(config_desc@),
            done + interfaces(rest@) == all,
            channels(done).len() == seen,
            seen <= interface_idx,
        ensures
            interfaces(rest@).len() == 0,
        decreases rest@.len(),
    {
        let iface = match next_interface(rest) {
            Some(found) => found,
            None => break,
        };
        proof {
            assert(done + (seq![iface@] + interfaces(iface.buffer@)) =~= done.push(iface@)
                + interfaces(iface.buffer@));
            assert(done.push(iface@).drop_last() =~= done);
            lemma_channels_append(done.push(iface@), interfaces(iface.buffer@));
            done = done.push(iface@);
        }
        if let Some(info) = read_channel(&iface) {
            if seen == interface_idx {
                return Some(info);
            }
            seen += 1;
        }
        rest = iface.buffer;
    }
    assert(done =~= all);
    None
}

proof fn lemma_last_bulk_is_listed(list: Seq<EndpointDescriptor>, direction: Direction)
    ensures
        match last_bulk(list, direction) {
            Some(endpoint) => list.contains(endpoint) && is_bulk(endpoint, direction),
            None => forall|i: int| 0 <= i < list.len() ==> !is_bulk(#[trigger] list[i], direction),
        },
    decreases list.len(),
{
    if list.len() > 0 {
        lemma_last_bulk_is_listed(list.drop_last(), direction);
        if is_bulk(list.last(), direction) {
            assert(list[list.len() - 1] == list.last());
        } else {
            match last_bulk(list.drop_last(), direction) {
                Some(endpoint) => {
                    let i = choose|i: int|
                        0 <= i < list.drop_last().len() && list.drop_last()[i] == endpoint;
                    assert(list[i] == endpoint);
                },
                None => {
                    assert forall|i: int| 0 <= i < list.len() implies !is_bulk(
                        #[trigger] list[i],
                        direction,
                    ) by {
                        if i < list.len() - 1 {
                            assert(list[i] == list.drop_last()[i]);
                        }
                    }
                },
            }
        }
    }
}

proof fn lemma_channel_has_interface(list: Seq<Interface>, i: int)
    requires
        0 <= i < channels(list).len(),
    ensures
        exists|k: int|
            0 <= k < list.len() && channel(#[trigger] list[k]) == Some(channels(list)[i]),
    decreases list.len(),
{
    if i < channels(list.drop_last()).len() {
        lemma_channel_has_interface(list.drop_last(), i);
        let k = choose|k: int|
            0 <= k < list.drop_last().len() && channel(#[trigger] list.drop_last()[k]) == Some(
                channels(list.drop_last())[i],
            );
        assert(list[k] == list.drop_last()[k]);
    } else {
        assert(list[list.len() - 1] == list.last());
    }
}

/// The interface has a bulk endpoint in direction `direction` with this address
/// and packet size.
pub open spec fn has_bulk(
    interface: Interface,
    direction: Direction,
    address: u8,
    max_packet_size: u16,
) -> bool {
    exists|endpoint: EndpointDescriptor| #[trigger]
        interface.endpoints.contains(endpoint) && is_bulk(endpoint, direction)
            && endpoint.endpoint_address == address && endpoint.max_packet_size == max_packet_size
}

/// What is found is there: a vendor-class interface of the descriptor, in its
/// default setting, with the bulk IN and the bulk OUT endpoint that were named.
pub proof fn law_found_channel_is_described(config_desc: Seq<u8>, interface_idx: u8)
    requires
        found_ftdi(config_desc, interface_idx) is Some,
    ensures
        is_configuration(config_desc),
        ({
            let info = found_ftdi(config_desc, interface_idx)->0;
            &&& info.bulk_in_ep >= 128
            &&& info.bulk_out_ep < 128
            &&& exists|interface: Interface| #[trigger]
                configuration_interfaces(config_desc).contains(interface) && {
                    &&& interface.interface_number == info.interface
                    &&& interface.interface_class == VENDOR_CLASS
                    &&& interface.alternate_setting == 0
                    &&& has_bulk(interface, Direction::In, info.bulk_in_ep, info.bulk_in_mps)
                    &&& has_bulk(interface, Direction::Out, info.bulk_out_ep, info.bulk_out_mps)
                }
        }),
{
    let list = configuration_interfaces(config_desc);
    lemma_channel_has_interface(list, interface_idx as int);
    let k = choose|k: int|
        0 <= k < list.len() && channel(#[trigger] list[k]) == Some(
            channels(list)[interface_idx as int],
        );
    lemma_last_bulk_is_listed(list[k].endpoints, Direction::In);
    lemma_last_bulk_is_listed(list[k].endpoints, Direction::Out);
    assert(list.contains(list[k]));
}

/// What is there is found: an interface that carries a channel is found under
/// the number of such interfaces before it.
pub proof fn law_described_channel_is_found(config_desc: Seq<u8>, k: int)
    requires
        is_configuration(config_desc),
        0 <= k < configuration_interfaces(config_desc).len(),
        channel(configuration_interfaces(config_desc)[k]) is Some,
    ensures
        ({
            let before = channels(configuration_interfaces(config_desc).take(k)).len();
            before <= u8::MAX ==> found_ftdi(config_desc, before as u8) == channel(
                configuration_interfaces(config_desc)[k],
            )
        }),
{
    let list = configuration_interfaces(config_desc);
    assert(list.take(k + 1) + list.skip(k + 1) =~= list);
    assert(list.take(k + 1).drop_last() =~= list.take(k));
    lemma_channels_append(list.take(k + 1), list.skip(k + 1));
}

/// A vendor-class interface in its default setting carries a channel exactly
/// where it has a bulk endpoint in each direction.
pub proof fn law_bulk_pair_makes_a_channel(interface: Interface)
    requires
        interface.interface_class == VENDOR_CLASS,
        interface.alternate_setting == 0,
    ensures
        channel(interface) is Some <==> {
            &&& exists|i: int|
                0 <= i < interface.endpoints.len() && is_bulk(
                    #[trigger] interface.endpoints[i],
                    Direction::In,
                )
            &&& exists|i: int|
                0 <= i < interface.endpoints.len() && is_bulk(
                    #[trigger] interface.endpoints[i],
                    Direction::Out,
                )
        },
{
    lemma_last_bulk_is_listed(interface.endpoints, Direction::In);
    lemma_last_bulk_is_listed(interface.endpoints, Direction::Out);
}

/// Channels are numbered without gaps: below a channel that is found, all are.
pub proof fn law_channels_have_no_gaps(config_desc: Seq<u8>, lower: u8, upper: u8)
    requires
        lower <= upper,
        found_ftdi(config_desc, upper) is Some,
    ensures
        found_ftdi(config_desc, lower) is Some,
{
}

/// Bytes past the length that a configuration descriptor announces change no
/// channel.
pub proof fn law_trailing_bytes_change_no_channel(
    config_desc: Seq<u8>,
    trailing: Seq<u8>,
    interface_idx: u8,
)
    requires
        is_configuration(config_desc),
    ensures
        found_ftdi(config_desc + trailing, interface_idx) == found_ftdi(config_desc, interface_idx),
{
    law_trailing_bytes_are_ignored(config_desc, trailing);
}

proof fn lemma_last_bulk_at(list: Seq<EndpointDescriptor>, direction: Direction, at: int)
    requires
        0 <= at < list.len(),
        is_bulk(list[at], direction),
        forall|k: int| at < k < list.len() ==> !is_bulk(#[trigger] list[k], direction),
    ensures
        last_bulk(list, direction) == Some(list[at]),
    decreases list.len(),
{
    if at < list.len() - 1 {
        assert(!is_bulk(list[list.len() - 1], direction));
        assert forall|k: int| at < k < list.drop_last().len() implies !is_bulk(
            #[trigger] list.drop_last()[k],
            direction,
        ) by {
            assert(list.drop_last()[k] == list[k]);
        }
        lemma_last_bulk_at(list.drop_last(), direction, at);
    }
}

/// The channel of an interface of class 0xFF in setting 0 has the address and the
/// packet size of its last bulk IN endpoint (transfer type 2, bit 7 of the address
/// set) and of its last bulk OUT endpoint (transfer type 2, bit 7 clear).
pub proof fn law_channel_has_the_last_bulk_pair(interface: Interface, bulk_in: int, bulk_out: int)
    requires
        interface.interface_class == 0xFF,
        interface.alternate_setting == 0,
        0 <= bulk_in < interface.endpoints.len(),
        interface.endpoints[bulk_in].attributes % 4 == 2,
        interface.endpoints[bulk_in].endpoint_address >= 128,
        forall|k: int|
            bulk_in < k < interface.endpoints.len() ==> (#[trigger] interface.endpoints[k]).attributes
                % 4 != 2 || interface.endpoints[k].endpoint_address < 128,
        0 <= bulk_out < interface.endpoints.len(),
        interface.endpoints[bulk_out].attributes % 4 == 2,
        interface.endpoints[bulk_out].endpoint_address < 128,
        forall|k: int|
            bulk_out < k < interface.endpoints.len() ==> (#[trigger] interface.endpoints[k]).attributes
                % 4 != 2 || interface.endpoints[k].endpoint_address >= 128,
    ensures
        channel(interface) is Some,
        channel(interface)->0.interface == interface.interface_number,
        channel(interface)->0.bulk_in_ep == interface.endpoints[bulk_in].endpoint_address,
        channel(interface)->0.bulk_in_mps == interface.endpoints[bulk_in].max_packet_size,
        channel(interface)->0.bulk_out_ep == interface.endpoints[bulk_out].endpoint_address,
        channel(interface)->0.bulk_out_mps == interface.endpoints[bulk_out].max_packet_size,
{
    lemma_last_bulk_at(interface.endpoints, Direction::In, bulk_in);
    lemma_last_bulk_at(interface.endpoints, Direction::Out, bulk_out);
}

/// An interface carries a channel exactly where its class is 0xFF, its setting is
/// 0, and it has an endpoint of transfer type 2 with bit 7 of its address set and
/// one with that bit clear.
pub proof fn law_what_carries_a_channel(interface: Interface)
    ensures
        channel(interface) is Some <==> {
            &&& interface.interface_class == 0xFF
            &&& interface.alternate_setting == 0
            &&& exists|i: int|
                0 <= i < interface.endpoints.len() && (
                #[trigger] interface.endpoints[i]).attributes % 4 == 2
                    && interface.endpoints[i].endpoint_address >= 128
            &&& exists|i: int|
                0 <= i < interface.endpoints.len() && (
                #[trigger] interface.endpoints[i]).attributes % 4 == 2
                    && interface.endpoints[i].endpoint_address < 128
        },
{
    let list = interface.endpoints;
    lemma_last_bulk_is_listed(list, Direction::In);
    lemma_last_bulk_is_listed(list, Direction::Out);
    if channel(interface) is Some {
        let bulk_in = last_bulk(list, Direction::In)->0;
        let bulk_out = last_bulk(list, Direction::Out)->0;
        let i = choose|i: int| 0 <= i < list.len() && list[i] == bulk_in;
        let j = choose|j: int| 0 <= j < list.len() && list[j] == bulk_out;
        assert(list[i].attributes % 4 == 2 && list[i].endpoint_address >= 128);
        assert(list[j].attributes % 4 == 2 && list[j].endpoint_address < 128);
    }
    if interface.interface_class == 0xFF && interface.alternate_setting == 0 {
        assert forall|i: int|
            0 <= i < list.len() && (#[trigger] list[i]).attributes % 4 == 2 implies is_bulk(
            list[i],
            if list[i].endpoint_address >= 128 {
                Direction::In
            } else {
                Direction::Out
            },
        ) by {}
    }
}

/// Channels are listed in the order of their interfaces: an interface at the end
/// of the list adds its channel at the end where it carries one, and changes
/// nothing otherwise. No interfaces, no channels.
pub proof fn law_channels_in_interface_order(list: Seq<Interface>, interface: Interface)
    ensures
        channels(Seq::<Interface>::empty()).len() == 0,
        channel(interface) is None ==> channels(list.push(interface)) == channels(list),
        channel(interface) is Some ==> channels(list.push(interface)) == channels(list).push(
            channel(interface)->0,
        ),
{
    assert(list.push(interface).drop_last() =~= list);
}

/// `interface_idx` counts channels from 0; past the last one, and in bytes that
/// are no configuration descriptor, nothing is found.
pub proof fn law_index_counts_channels(config_desc: Seq<u8>, interface_idx: u8)
    ensures
        !is_configuration(config_desc) ==> found_ftdi(config_desc, interface_idx) is None,
        is_configuration(config_desc) ==> {
            let list = channels(configuration_interfaces(config_desc));
            &&& found_ftdi(config_desc, interface_idx) is Some <==> interface_idx < list.len()
            &&& found_ftdi(config_desc, interface_idx) is Some ==> found_ftdi(
                config_desc,
                interface_idx,
            )->0 == list[interface_idx as int]
        },
{
}

/// What is found stands in the bytes: an interface record with the interface
/// number, setting 0 and class 0xFF; after it an endpoint record with the bulk IN
/// address and its packet size, low byte first, and one with the bulk OUT address
/// and its packet size. All of them stand within the announced length; the result
/// says where.
pub proof fn law_found_channel_stands_in_the_bytes(config_desc: Seq<u8>, interface_idx: u8) -> (at: (
    int,
    int,
    int,
))
    requires
        found_ftdi(config_desc, interface_idx) is Some,
    ensures
        ({
            let info = found_ftdi(config_desc, interface_idx)->0;
            let total = config_desc[2] + 256 * config_desc[3];
            let (i, a, b) = at;
            &&& total <= config_desc.len()
            &&& 0 <= i && config_desc[i] >= 9
            &&& config_desc[i + 1] == 4
            &&& config_desc[i + 2] == info.interface
            &&& config_desc[i + 3] == 0
            &&& config_desc[i + 5] == 0xFF
            &&& i + config_desc[i] <= a && a + 7 <= a + config_desc[a] <= total
            &&& config_desc[a + 1] == 5
            &&& config_desc[a + 2] == info.bulk_in_ep && info.bulk_in_ep >= 128
            &&& config_desc[a + 3] % 4 == 2
            &&& config_desc[a + 4] + 256 * config_desc[a + 5] == info.bulk_in_mps
            &&& i + config_desc[i] <= b && b + 7 <= b + config_desc[b] <= total
            &&& config_desc[b + 1] == 5
            &&& config_desc[b + 2] == info.bulk_out_ep && info.bulk_out_ep < 128
            &&& config_desc[b + 3] % 4 == 2
            &&& config_desc[b + 4] + 256 * config_desc[b + 5] == info.bulk_out_mps
        }),
{
    let list = configuration_interfaces(config_desc);
    let bytes = config_desc.take(total_length(config_desc));
    lemma_channel_has_interface(list, interface_idx as int);
    let k = choose|k: int|
        0 <= k < list.len() && channel(#[trigger] list[k]) == Some(
            channels(list)[interface_idx as int],
        );
    let eps = list[k].endpoints;
    lemma_last_bulk_is_listed(eps, Direction::In);
    lemma_last_bulk_is_listed(eps, Direction::Out);
    let bulk_in = last_bulk(eps, Direction::In)->0;
    let bulk_out = last_bulk(eps, Direction::Out)->0;
    let x = choose|x: int| 0 <= x < eps.len() && eps[x] == bulk_in;
    let y = choose|y: int| 0 <= y < eps.len() && eps[y] == bulk_out;
    let i = lemma_interface_stands(bytes, k);
    let from = i + bytes[i];
    let a = lemma_endpoint_stands(bytes.skip(from), x) + from;
    let b = lemma_endpoint_stands(bytes.skip(from), y) + from;
    (i, a, b)
}

/// A device with one channel: the descriptor made of a header, an interface of
/// class 0xFF and a bulk endpoint each way has that channel under index 0, with
/// the numbers in its records, and no other.
pub proof fn law_one_channel_descriptor(
    header: Seq<u8>,
    interface: Seq<u8>,
    first: Seq<u8>,
    second: Seq<u8>,
    in_first: bool,
)
    requires
        header.len() == 9,
        header[0] == 9,
        header[1] == 2,
        header[2] + 256 * header[3] == 32,
        interface.len() == 9,
        interface[0] == 9,
        interface[1] == 4,
        interface[3] == 0,
        interface[5] == 0xFF,
        first.len() == 7,
        first[0] == 7,
        first[1] == 5,
        first[3] % 4 == 2,
        first[2] >= 128 <==> in_first,
        second.len() == 7,
        second[0] == 7,
        second[1] == 5,
        second[3] % 4 == 2,
        second[2] >= 128 <==> !in_first,
    ensures
        ({
            let found = found_ftdi(header + (interface + (first + second)), 0);
            let (bulk_in, bulk_out) = if in_first {
                (first, second)
            } else {
                (second, first)
            };
            &&& found is Some
            &&& found->0.interface == interface[2]
            &&& found->0.bulk_in_ep == bulk_in[2]
            &&& found->0.bulk_in_mps == bulk_in[4] + 256 * bulk_in[5]
            &&& found->0.bulk_out_ep == bulk_out[2]
            &&& found->0.bulk_out_mps == bulk_out[4] + 256 * bulk_out[5]
        }),
        forall|idx: u8|
            idx > 0 ==> #[trigger] found_ftdi(header + (interface + (first + second)), idx) is None,
{
    let none = Seq::<u8>::empty();
    let bytes = header + (interface + (first + second));
    assert(bytes[0] == 9 && bytes[1] == 2 && bytes[2] == header[2] && bytes[3] == header[3]);
    assert(bytes.take(32) =~= bytes);
    assert(second + none =~= second);
    law_nothing_without_a_record(none);
    law_endpoint_record_is_read(second, none);
    law_endpoint_record_is_read(first, second);
    law_other_records_add_no_interface(second, none);
    law_other_records_add_no_interface(first, second);
    law_interface_record_is_read(interface, first + second);
    law_other_records_add_no_interface(header, interface + (first + second));
    let list = interfaces(bytes);
    let only = list[0];
    let eps = only.endpoints;
    assert(eps.drop_first()[0] == endpoints(second)[0]);
    assert(eps[1] == endpoints(second)[0]);
    if in_first {
        law_channel_has_the_last_bulk_pair(only, 0, 1);
    } else {
        law_channel_has_the_last_bulk_pair(only, 1, 0);
    }
    assert(list =~= Seq::<Interface>::empty().push(only));
    law_channels_in_interface_order(Seq::<Interface>::empty(), only);
}

} // verus!
