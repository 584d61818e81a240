use ftdi_host::error::{FtdiError, PipeError};
use ftdi_host::line::{LineCoding, Parity, StopBits};
use ftdi_host::port::{FtdiPort, Pending, Step};

fn port(port_index: u16, in_mps: u16) -> FtdiPort<(), ()> {
    FtdiPort { in_ch: (), out_ch: (), port_index, in_mps }
}

/// Runs an operation against these outcomes; gives the bytes of the requests
/// that were sent and the result.
fn run(
    port: &FtdiPort<(), ()>,
    first: Step,
    outcomes: &[Result<(), PipeError>],
) -> (Vec<[u8; 8]>, Option<Result<(), FtdiError>>) {
    let mut sent = Vec::new();
    let mut step = first;
    let mut outcomes = outcomes.iter();
    loop {
        match step {
            Step::Done(result) => return (sent, Some(result)),
            Step::Send(setup, pending) => {
                sent.push(setup.to_bytes());
                match outcomes.next() {
                    Some(outcome) => step = port.resume(pending, *outcome),
                    None => return (sent, None),
                }
            }
        }
    }
}

const FINE: &[Result<(), PipeError>] = &[Ok(()), Ok(()), Ok(())];

#[test]
fn reset_request() {
    let p = port(1, 64);
    assert_eq!(run(&p, p.reset(), FINE), (vec![[0x40, 0, 0, 0, 1, 0, 0, 0]], Some(Ok(()))));
}

#[test]
fn baud_rate_request() {
    let p = port(2, 64);
    assert_eq!(
        run(&p, p.set_baud_rate(9600), FINE),
        (vec![[0x40, 3, 0x38, 0x41, 2, 0, 0, 0]], Some(Ok(())))
    );
    assert_eq!(
        run(&p, p.set_baud_rate(9601), FINE),
        (vec![], Some(Err(FtdiError::UnsupportedBaud)))
    );
}

#[test]
fn data_request() {
    let p = port(1, 64);
    let coding = LineCoding {
        baud_rate: 1,
        data_bits: 7,
        parity: Parity::Even,
        stop_bits: StopBits::Two,
    };
    assert_eq!(
        run(&p, p.set_data(&coding), FINE),
        (vec![[0x40, 4, 7, 0x12, 1, 0, 0, 0]], Some(Ok(())))
    );
}

#[test]
fn data_bits_out_of_range() {
    let p = port(1, 64);
    for data_bits in [0, 4, 9, 255] {
        let coding = LineCoding { data_bits, ..LineCoding::default() };
        let refused = (vec![], Some(Err(FtdiError::InvalidArgument)));
        assert_eq!(run(&p, p.set_data(&coding), FINE), refused);
        assert_eq!(run(&p, p.set_line_coding(&coding), FINE), refused);
    }
    for data_bits in 5..=8 {
        let coding = LineCoding { data_bits, ..LineCoding::default() };
        assert_eq!(run(&p, p.set_data(&coding), FINE).1, Some(Ok(())));
    }
}

#[test]
fn default_line_coding_takes_two_requests() {
    let p = port(1, 64);
    assert_eq!(
        run(&p, p.set_line_coding(&LineCoding::default()), FINE),
        (
            vec![[0x40, 4, 8, 0, 1, 0, 0, 0], [0x40, 3, 0x1A, 0, 1, 0, 0, 0]],
            Some(Ok(()))
        )
    );
}

#[test]
fn unsupported_rate_is_refused_after_the_framing() {
    let p = port(1, 64);
    let coding = LineCoding { baud_rate: 300, ..LineCoding::default() };
    assert_eq!(
        run(&p, p.set_line_coding(&coding), FINE),
        (vec![[0x40, 4, 8, 0, 1, 0, 0, 0]], Some(Err(FtdiError::UnsupportedBaud)))
    );
}

#[test]
fn line_coding_is_data_then_baud_rate() {
    let p = port(3, 64);
    let coding = LineCoding::default();
    let both = run(&p, p.set_line_coding(&coding), FINE).0;
    let mut apart = run(&p, p.set_data(&coding), FINE).0;
    apart.extend(run(&p, p.set_baud_rate(coding.baud_rate), FINE).0);
    assert_eq!(both, apart);
}

#[test]
fn failed_transfer_ends_the_operation() {
    let p = port(1, 64);
    let coding = LineCoding::default();
    let failed = Some(Err(FtdiError::Transfer(PipeError::Stall)));
    let (sent, result) = run(&p, p.set_line_coding(&coding), &[Err(PipeError::Stall), Ok(())]);
    assert_eq!((sent.len(), result), (1, failed));
    let (sent, result) = run(&p, p.set_line_coding(&coding), &[Ok(()), Err(PipeError::Stall)]);
    assert_eq!((sent.len(), result), (2, failed));
    let (sent, result) = run(&p, p.reset(), &[Err(PipeError::Stall)]);
    assert_eq!((sent.len(), result), (1, failed));
}

#[test]
fn flow_control_off_request() {
    let p = port(4, 64);
    assert_eq!(
        run(&p, p.set_flow_control_off(), FINE),
        (vec![[0x40, 2, 0, 0, 4, 0, 0, 0]], Some(Ok(())))
    );
}

#[test]
fn control_line_requests() {
    let p = port(1, 64);
    let sent = |dtr, rts| run(&p, p.set_control_line_state(dtr, rts), FINE).0;
    assert_eq!(sent(false, false), vec![[0x40, 1, 0, 3, 1, 0, 0, 0]]);
    assert_eq!(sent(true, false), vec![[0x40, 1, 1, 3, 1, 0, 0, 0]]);
    assert_eq!(sent(false, true), vec![[0x40, 1, 2, 3, 1, 0, 0, 0]]);
    assert_eq!(sent(true, true), vec![[0x40, 1, 3, 3, 1, 0, 0, 0]]);
}

#[test]
fn latency_requests() {
    let p = port(1, 64);
    assert_eq!(run(&p, p.set_latency(16), FINE), (vec![[0x40, 9, 16, 0, 1, 0, 0, 0]], Some(Ok(()))));
    assert_eq!(run(&p, p.set_latency(1), FINE).1, Some(Ok(())));
    assert_eq!(
        run(&p, p.set_latency(255), FINE),
        (vec![[0x40, 9, 255, 0, 1, 0, 0, 0]], Some(Ok(())))
    );
    assert_eq!(run(&p, p.set_latency(0), FINE), (vec![], Some(Err(FtdiError::InvalidArgument))));
}

#[test]
fn the_last_channel_number_takes_two_bytes() {
    let p = port(256, 64);
    assert_eq!(run(&p, p.reset(), FINE).0, vec![[0x40, 0, 0, 0, 0, 1, 0, 0]]);
    assert_eq!(
        p.resume(Pending::Finish, Err(PipeError::Timeout)),
        Step::Done(Err(FtdiError::Transfer(PipeError::Timeout)))
    );
}

#[test]
fn read_asks_for_one_packet() {
    assert_eq!(port(1, 8).read(), 8);
    assert_eq!(port(1, 64).read(), 64);
    assert_eq!(port(1, 512).read(), 64);
    assert_eq!(port(1, 0).read(), 0);
}

fn packet() -> [u8; 64] {
    let mut packet = [0u8; 64];
    for (i, byte) in packet.iter_mut().enumerate() {
        *byte = 100 + i as u8;
    }
    packet
}

#[test]
fn read_strips_the_status_header() {
    let mut buf = [0u8; 5];
    assert_eq!(port(1, 64).finish_read(&packet(), Ok(5), &mut buf), Ok(3));
    assert_eq!(buf, [102, 103, 104, 0, 0]);
}

#[test]
fn idle_line_reads_nothing() {
    for n in 0..=2 {
        let mut buf = [7u8; 3];
        assert_eq!(port(1, 64).finish_read(&packet(), Ok(n), &mut buf), Ok(0));
        assert_eq!(buf, [7, 7, 7]);
    }
}

#[test]
fn read_fills_a_short_buffer() {
    let mut buf = [0u8; 2];
    assert_eq!(port(1, 64).finish_read(&packet(), Ok(64), &mut buf), Ok(2));
    assert_eq!(buf, [102, 103]);
    assert_eq!(port(1, 64).finish_read(&packet(), Ok(64), &mut []), Ok(0));
}

#[test]
fn read_takes_a_full_packet() {
    let mut buf = [0u8; 64];
    assert_eq!(port(1, 64).finish_read(&packet(), Ok(64), &mut buf), Ok(62));
    assert_eq!(&buf[..62], &packet()[2..]);
    assert_eq!(&buf[62..], &[0, 0]);
}

#[test]
fn header_bytes_make_no_difference() {
    let mut other = packet();
    other[0] = 0;
    other[1] = 0;
    let (mut a, mut b) = ([0u8; 64], [0u8; 64]);
    let p = port(1, 64);
    assert_eq!(p.finish_read(&packet(), Ok(40), &mut a), p.finish_read(&other, Ok(40), &mut b));
    assert_eq!(a, b);
}

#[test]
fn failed_read_leaves_the_buffer() {
    let mut buf = [7u8; 3];
    assert_eq!(
        port(1, 64).finish_read(&packet(), Err(PipeError::Disconnected), &mut buf),
        Err(FtdiError::Transfer(PipeError::Disconnected))
    );
    assert_eq!(buf, [7, 7, 7]);
}

#[test]
fn write_sends_all_bytes() {
    let p = port(1, 64);
    let transfer = p.write(&[1, 2, 3]);
    assert_eq!(transfer.data, &[1, 2, 3]);
    assert!(!transfer.ensure_transaction_end);
    assert_eq!(p.finish_write(&[1, 2, 3], Ok(())), Ok(3));
    assert_eq!(p.finish_write(&[], Ok(())), Ok(0));
    assert_eq!(
        p.finish_write(&[1], Err(PipeError::Babble)),
        Err(FtdiError::Transfer(PipeError::Babble))
    );
}
