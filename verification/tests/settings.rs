use ftdi_host::baud::baud_divisor;
use ftdi_host::control::{ControlType, Recipient, RequestType, SetupPacket};
use ftdi_host::error::{ErrorKind, FtdiError, PipeError};
use ftdi_host::id;
use ftdi_host::line::{to_modem_word, LineCoding, Parity, StopBits};
use ftdi_host::usb::Direction;

#[test]
fn divisor_table() {
    assert_eq!(baud_divisor(9600), Some((0x4138, 0)));
    assert_eq!(baud_divisor(19200), Some((0x809C, 0)));
    assert_eq!(baud_divisor(38400), Some((0xC04E, 0)));
    assert_eq!(baud_divisor(57600), Some((0x0034, 0)));
    assert_eq!(baud_divisor(115200), Some((0x001A, 0)));
    assert_eq!(baud_divisor(115384), baud_divisor(115200));
    assert_eq!(baud_divisor(230400), Some((0x000D, 0)));
    for baud in [0, 1, 300, 4800, 9599, 115201, 460800, u32::MAX] {
        assert_eq!(baud_divisor(baud), None);
    }
}

#[test]
fn divisors_match_the_clock() {
    for baud in [9600u32, 19200, 38400, 57600, 115200, 115384, 230400] {
        let (word, _) = baud_divisor(baud).unwrap();
        let eighths = [0, 4, 2, 1][(word >> 14) as usize];
        let divisor = (word & 0x3FFF) as f64 + eighths as f64 / 8.0;
        let achieved = 3_000_000.0 / divisor;
        assert!((achieved - baud as f64).abs() / (baud as f64) < 0.002);
    }
}

#[test]
fn default_line_coding() {
    let coding = LineCoding::default();
    assert_eq!(coding.baud_rate, 115200);
    assert_eq!(coding.data_bits, 8);
    assert_eq!(coding.parity, Parity::NoParity);
    assert_eq!(coding.stop_bits, StopBits::One);
}

#[test]
fn data_words() {
    let word = |data_bits, parity, stop_bits| {
        LineCoding { baud_rate: 0, data_bits, parity, stop_bits }.to_data_word()
    };
    assert_eq!(word(8, Parity::NoParity, StopBits::One), Some(0x0008));
    assert_eq!(word(7, Parity::Odd, StopBits::OneAndHalf), Some(0x0907));
    assert_eq!(word(6, Parity::Even, StopBits::Two), Some(0x1206));
    assert_eq!(word(5, Parity::Mark, StopBits::One), Some(0x0305));
    assert_eq!(word(8, Parity::Space, StopBits::Two), Some(0x1408));
    assert_eq!(word(4, Parity::NoParity, StopBits::One), None);
    assert_eq!(word(9, Parity::NoParity, StopBits::One), None);
}

#[test]
fn modem_words() {
    assert_eq!(to_modem_word(false, false), 0x0300);
    assert_eq!(to_modem_word(true, false), 0x0301);
    assert_eq!(to_modem_word(false, true), 0x0302);
    assert_eq!(to_modem_word(true, true), 0x0303);
}

#[test]
fn setup_packet_layout() {
    let packet = SetupPacket {
        request_type: RequestType {
            direction: Direction::In,
            control_type: ControlType::Class,
            recipient: Recipient::Interface,
        },
        request: 0x21,
        value: 0x1234,
        index: 0x5678,
        length: 0x9ABC,
    };
    assert_eq!(packet.to_bytes(), [0xA1, 0x21, 0x34, 0x12, 0x78, 0x56, 0xBC, 0x9A]);
}

#[test]
fn error_messages() {
    assert_eq!(FtdiError::Transfer(PipeError::Stall).to_string(), "Transfer error");
    assert_eq!(FtdiError::NoInterface.to_string(), "No FTDI interface found");
    assert_eq!(FtdiError::NoPipe.to_string(), "No free pipe");
    assert_eq!(FtdiError::InvalidArgument.to_string(), "Invalid argument");
    assert_eq!(FtdiError::UnsupportedBaud.to_string(), "Unsupported baud rate");
}

#[test]
fn error_kinds() {
    let transfer = |e| FtdiError::Transfer(e).kind();
    assert_eq!(transfer(PipeError::Disconnected), ErrorKind::NotConnected);
    assert_eq!(transfer(PipeError::BufferOverflow), ErrorKind::OutOfMemory);
    assert_eq!(transfer(PipeError::Timeout), ErrorKind::TimedOut);
    for e in [
        PipeError::BadResponse,
        PipeError::Babble,
        PipeError::DataToggleError,
        PipeError::Canceled,
        PipeError::Stall,
        PipeError::Other,
    ] {
        assert_eq!(transfer(e), ErrorKind::Other);
    }
    assert_eq!(FtdiError::NoInterface.kind(), ErrorKind::NotFound);
    assert_eq!(FtdiError::NoPipe.kind(), ErrorKind::OutOfMemory);
    assert_eq!(FtdiError::InvalidArgument.kind(), ErrorKind::InvalidInput);
    assert_eq!(FtdiError::UnsupportedBaud.kind(), ErrorKind::InvalidInput);
}

#[test]
fn pipe_errors_become_transfer_errors() {
    assert_eq!(FtdiError::from(PipeError::Babble), FtdiError::Transfer(PipeError::Babble));
}

#[test]
fn ids() {
    assert_eq!(id::VID_FTDI, 0x0403);
    assert_eq!(id::PID_FT232R, 0x6001);
    assert_eq!(id::PID_FT2232, 0x6010);
    assert_eq!(id::PID_FT4232H, 0x6011);
    assert_eq!(id::PID_FT232H, 0x6014);
    assert_eq!(id::PID_FT231X, 0x6015);
}

#[test]
fn data_words_tell_framings_apart() {
    let mut words = Vec::new();
    for data_bits in 5..=8 {
        for parity in
            [Parity::NoParity, Parity::Odd, Parity::Even, Parity::Mark, Parity::Space]
        {
            for stop_bits in [StopBits::One, StopBits::OneAndHalf, StopBits::Two] {
                let coding = LineCoding { baud_rate: 0, data_bits, parity, stop_bits };
                words.push(coding.to_data_word().unwrap());
            }
        }
    }
    words.sort();
    words.dedup();
    assert_eq!(words.len(), 4 * 5 * 3);
}

#[test]
fn encodings_tell_packets_apart() {
    let request_type = RequestType {
        direction: Direction::Out,
        control_type: ControlType::Vendor,
        recipient: Recipient::Device,
    };
    let base = SetupPacket { request_type, request: 1, value: 2, index: 3, length: 4 };
    let others = [
        SetupPacket { request_type: RequestType { direction: Direction::In, ..request_type }, ..base },
        SetupPacket { request: 2, ..base },
        SetupPacket { value: 0x0200, ..base },
        SetupPacket { index: 0x0300, ..base },
        SetupPacket { length: 0x0400, ..base },
    ];
    for other in others {
        assert_ne!(other.to_bytes(), base.to_bytes());
    }
    assert_eq!(base.to_bytes(), [0x40, 1, 2, 0, 3, 0, 4, 0]);
}
