use embassy_usb_driver::host::{HostError, SplitInfo, SplitSpeed};
use ftdi_host::device::{control_pipe, EnumerationInfo, FtdiDevice};
use ftdi_host::error::FtdiError;
use ftdi_host::usb::{directed_address, Direction, EndpointInfo, EndpointType};

fn enumerated() -> EnumerationInfo {
    EnumerationInfo {
        device_address: 5,
        max_packet_size0: 8,
        split: Some(SplitInfo::new(2, 3, SplitSpeed::Full)),
    }
}

fn two_channels() -> Vec<u8> {
    vec![
        9, 2, 55, 0, 2, 1, 0, 0xA0, 45, //
        9, 4, 0, 0, 2, 0xFF, 0xFF, 0xFF, 0, //
        7, 5, 0x81, 2, 64, 0, 0, //
        7, 5, 0x02, 2, 32, 0, 0, //
        9, 4, 1, 0, 2, 0xFF, 0xFF, 0xFF, 0, //
        7, 5, 0xF3, 2, 0, 2, 0, //
        7, 5, 0x74, 2, 0, 1, 0,
    ]
}

#[test]
fn control_pipe_is_on_endpoint_zero() {
    let request = control_pipe(&enumerated());
    assert_eq!(request.device_address, 5);
    assert_eq!(
        request.endpoint,
        EndpointInfo {
            addr: 0x80,
            ep_type: EndpointType::Control,
            max_packet_size: 8,
            interval_ms: 0,
        }
    );
    assert_eq!(request.split, enumerated().split);
}

#[test]
fn device_opens_with_its_control_pipe() {
    let device = FtdiDevice::new(&enumerated(), Ok('c')).unwrap();
    assert_eq!(device.ctrl, 'c');
    assert_eq!(device.device_address, 5);
    assert_eq!(device.split, enumerated().split);
}

#[test]
fn no_control_pipe_no_device() {
    let refused: Result<(), HostError> = Err(HostError::OutOfPipes);
    assert!(matches!(FtdiDevice::new(&enumerated(), refused), Err(FtdiError::NoPipe)));
    let refused: Result<(), HostError> = Err(HostError::RequestFailed);
    assert!(matches!(
        FtdiDevice::new_with_raw_mutex(&enumerated(), refused),
        Err(FtdiError::NoPipe)
    ));
}

#[test]
fn channel_opens_with_its_pipes() {
    let device = FtdiDevice::new(&enumerated(), Ok(())).unwrap();
    let opening = device.port(&two_channels(), 0).unwrap();
    assert_eq!(opening.bulk_in.device_address, 5);
    assert_eq!(opening.bulk_in.split, enumerated().split);
    assert_eq!(
        opening.bulk_in.endpoint,
        EndpointInfo {
            addr: 0x81,
            ep_type: EndpointType::Bulk,
            max_packet_size: 64,
            interval_ms: 0,
        }
    );
    assert_eq!(opening.bulk_out.device_address, 5);
    assert_eq!(opening.bulk_out.split, enumerated().split);
    assert_eq!(
        opening.bulk_out.endpoint,
        EndpointInfo {
            addr: 0x02,
            ep_type: EndpointType::Bulk,
            max_packet_size: 32,
            interval_ms: 0,
        }
    );
    let port = opening.with_bulk_in(Ok("in")).unwrap().with_bulk_out(Ok("out")).unwrap();
    assert_eq!((port.in_ch, port.out_ch), ("in", "out"));
    assert_eq!((port.port_index, port.in_mps), (1, 64));
}

#[test]
fn reserved_address_bits_are_dropped() {
    let device = FtdiDevice::new(&enumerated(), Ok(())).unwrap();
    let opening = device.port(&two_channels(), 1).unwrap();
    assert_eq!(opening.bulk_in.endpoint.addr, 0x83);
    assert_eq!(opening.bulk_out.endpoint.addr, 0x04);
    assert_eq!(opening.bulk_in.endpoint.max_packet_size, 512);
    assert_eq!(opening.port_index, 2);
}

#[test]
fn missing_channel_is_no_interface() {
    let device = FtdiDevice::new(&enumerated(), Ok(())).unwrap();
    assert!(matches!(device.port(&two_channels(), 2), Err(FtdiError::NoInterface)));
    assert!(matches!(device.port(&[], 0), Err(FtdiError::NoInterface)));
}

#[test]
fn missing_pipe_is_no_pipe() {
    let device = FtdiDevice::new(&enumerated(), Ok(())).unwrap();
    let refused: Result<(), HostError> = Err(HostError::OutOfPipes);
    let opening = device.port(&two_channels(), 0).unwrap();
    assert!(matches!(opening.with_bulk_in(refused), Err(FtdiError::NoPipe)));
    let half = device.port(&two_channels(), 0).unwrap().with_bulk_in(Ok(())).unwrap();
    assert!(matches!(half.with_bulk_out(refused), Err(FtdiError::NoPipe)));
}

#[test]
fn addresses_carry_number_and_direction() {
    assert_eq!(directed_address(0x02, Direction::In), 0x82);
    assert_eq!(directed_address(0x82, Direction::Out), 0x02);
    assert_eq!(directed_address(0xFF, Direction::In), 0x8F);
    assert_eq!(directed_address(0xF0, Direction::Out), 0x00);
}
