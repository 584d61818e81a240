use ftdi_host::descriptor::{
    next_endpoint, next_interface, ConfigurationDescriptorChain, DescriptorError,
    EndpointDescriptor,
};
use ftdi_host::discovery::{find_ftdi, FtdiInfo};
use ftdi_host::usb::EndpointType;

fn interface(number: u8, alternate: u8, endpoints: u8, class: u8) -> Vec<u8> {
    vec![9, 4, number, alternate, endpoints, class, 0xFF, 0xFF, 0]
}

fn endpoint(address: u8, attributes: u8, mps: u16) -> Vec<u8> {
    vec![7, 5, address, attributes, mps as u8, (mps >> 8) as u8, 0]
}

fn config(records: &[Vec<u8>]) -> Vec<u8> {
    let body: Vec<u8> = records.concat();
    let total = 9 + body.len();
    let mut bytes = vec![9, 2, total as u8, (total >> 8) as u8, 1, 1, 0, 0xA0, 45];
    bytes.extend(body);
    bytes
}

fn ft232r() -> Vec<u8> {
    config(&[
        interface(0, 0, 2, 0xFF),
        endpoint(0x81, 2, 64),
        endpoint(0x02, 2, 64),
    ])
}

fn ft2232() -> Vec<u8> {
    config(&[
        interface(0, 0, 2, 0xFF),
        endpoint(0x81, 2, 512),
        endpoint(0x02, 2, 512),
        interface(1, 0, 2, 0xFF),
        endpoint(0x83, 2, 64),
        endpoint(0x04, 2, 32),
    ])
}

#[test]
fn single_channel_is_found() {
    assert_eq!(
        find_ftdi(&ft232r(), 0),
        Some(FtdiInfo {
            interface: 0,
            bulk_in_ep: 0x81,
            bulk_in_mps: 64,
            bulk_out_ep: 0x02,
            bulk_out_mps: 64,
        })
    );
    assert_eq!(find_ftdi(&ft232r(), 1), None);
    assert_eq!(find_ftdi(&ft232r(), 255), None);
}

#[test]
fn channels_are_numbered_in_order() {
    let desc = ft2232();
    let first = find_ftdi(&desc, 0).unwrap();
    let second = find_ftdi(&desc, 1).unwrap();
    assert_eq!((first.interface, first.bulk_in_mps), (0, 512));
    assert_eq!(
        second,
        FtdiInfo {
            interface: 1,
            bulk_in_ep: 0x83,
            bulk_in_mps: 64,
            bulk_out_ep: 0x04,
            bulk_out_mps: 32,
        }
    );
    assert_eq!(find_ftdi(&desc, 2), None);
}

#[test]
fn only_default_vendor_interfaces_with_a_bulk_pair_count() {
    let desc = config(&[
        // Wrong class.
        interface(0, 0, 2, 0x0A),
        endpoint(0x81, 2, 64),
        endpoint(0x01, 2, 64),
        // Alternate setting.
        interface(1, 1, 2, 0xFF),
        endpoint(0x82, 2, 64),
        endpoint(0x02, 2, 64),
        // No bulk OUT.
        interface(2, 0, 2, 0xFF),
        endpoint(0x83, 2, 64),
        endpoint(0x03, 3, 64),
        // No endpoints at all.
        interface(3, 0, 0, 0xFF),
        // A channel.
        interface(4, 0, 3, 0xFF),
        endpoint(0x86, 3, 8),
        endpoint(0x84, 2, 64),
        endpoint(0x05, 2, 64),
    ]);
    assert_eq!(find_ftdi(&desc, 0).unwrap().interface, 4);
    assert_eq!(find_ftdi(&desc, 0).unwrap().bulk_in_ep, 0x84);
    assert_eq!(find_ftdi(&desc, 1), None);
}

#[test]
fn last_bulk_endpoint_of_a_direction_is_taken() {
    let desc = config(&[
        interface(0, 0, 4, 0xFF),
        endpoint(0x81, 2, 64),
        endpoint(0x01, 2, 64),
        endpoint(0x82, 2, 32),
        endpoint(0x03, 2, 16),
    ]);
    assert_eq!(
        find_ftdi(&desc, 0),
        Some(FtdiInfo {
            interface: 0,
            bulk_in_ep: 0x82,
            bulk_in_mps: 32,
            bulk_out_ep: 0x03,
            bulk_out_mps: 16,
        })
    );
}

#[test]
fn other_records_are_skipped() {
    let desc = config(&[
        vec![8, 0x0B, 0, 1, 0xFF, 0, 0, 0],
        interface(0, 0, 2, 0xFF),
        vec![5, 0x24, 0, 0, 0],
        endpoint(0x81, 2, 64),
        vec![3, 0x25, 0],
        endpoint(0x02, 2, 64),
    ]);
    assert_eq!(find_ftdi(&desc, 0).unwrap().bulk_out_ep, 0x02);
}

#[test]
fn trailing_bytes_are_ignored() {
    let mut desc = ft232r();
    desc.extend(interface(1, 0, 2, 0xFF));
    desc.extend(endpoint(0x83, 2, 64));
    desc.extend(endpoint(0x04, 2, 64));
    assert_eq!(find_ftdi(&desc, 0), find_ftdi(&ft232r(), 0));
    assert_eq!(find_ftdi(&desc, 1), None);
}

#[test]
fn malformed_headers_describe_nothing() {
    let desc = ft232r();
    assert_eq!(find_ftdi(&[], 0), None);
    assert_eq!(find_ftdi(&desc[..8], 0), None);
    assert_eq!(find_ftdi(&desc[..desc.len() - 1], 0), None);
    let mut wrong_type = desc.clone();
    wrong_type[1] = 1;
    assert_eq!(find_ftdi(&wrong_type, 0), None);
    assert!(matches!(
        ConfigurationDescriptorChain::try_from_slice(&wrong_type),
        Err(DescriptorError::NotConfiguration)
    ));
    assert!(matches!(
        ConfigurationDescriptorChain::try_from_slice(&desc[..desc.len() - 1]),
        Err(DescriptorError::Truncated)
    ));
    assert_eq!(ConfigurationDescriptorChain::try_from_slice(&desc).unwrap().bytes, &desc[..]);
}

#[test]
fn a_record_without_length_ends_the_chain() {
    let desc = config(&[
        vec![0, 0],
        interface(0, 0, 2, 0xFF),
        endpoint(0x81, 2, 64),
        endpoint(0x02, 2, 64),
    ]);
    assert_eq!(find_ftdi(&desc, 0), None);
    let overlong = config(&[
        interface(0, 0, 2, 0xFF),
        endpoint(0x81, 2, 64),
        vec![8, 5, 0x02, 2, 64, 0, 0],
    ]);
    assert_eq!(find_ftdi(&overlong, 0), None);
}

#[test]
fn index_255_is_reachable() {
    let mut records = Vec::new();
    for _ in 0..256 {
        records.push(interface(7, 0, 2, 0xFF));
        records.push(endpoint(0x81, 2, 64));
        records.push(endpoint(0x02, 2, 64));
    }
    let desc = config(&records);
    assert_eq!(find_ftdi(&desc, 255).unwrap().interface, 7);
    let shorter = config(&records[..255 * 3]);
    assert!(find_ftdi(&shorter, 254).is_some());
    assert_eq!(find_ftdi(&shorter, 255), None);
}

#[test]
fn walking_a_chain() {
    let desc = ft2232();
    let chain = ConfigurationDescriptorChain::try_from_slice(&desc).unwrap();
    let first = next_interface(chain.bytes).unwrap();
    assert_eq!(
        (first.interface_number, first.alternate_setting, first.interface_class),
        (0, 0, 0xFF)
    );
    let (ep, rest) = next_endpoint(first.buffer).unwrap();
    assert_eq!(
        ep,
        EndpointDescriptor { endpoint_address: 0x81, attributes: 2, max_packet_size: 512 }
    );
    assert_eq!(ep.ep_type(), EndpointType::Bulk);
    assert!(ep.is_in());
    let (ep, rest) = next_endpoint(rest).unwrap();
    assert!(!ep.is_in());
    assert!(next_endpoint(rest).is_none());
    let second = next_interface(first.buffer).unwrap();
    assert_eq!(second.interface_number, 1);
    assert!(next_interface(second.buffer).is_none());
}

#[test]
fn endpoint_types() {
    let of = |attributes: u8| {
        EndpointDescriptor { endpoint_address: 0, attributes, max_packet_size: 0 }.ep_type()
    };
    assert_eq!(of(0), EndpointType::Control);
    assert_eq!(of(0x0D), EndpointType::Isochronous);
    assert_eq!(of(0xFE), EndpointType::Bulk);
    assert_eq!(of(3), EndpointType::Interrupt);
}
