//! The operations of one UART channel.
//!
//! A line setting takes control requests. Such an operation starts with a
//! [`Step`]; while that is a request to send, its outcome goes to
//! [`FtdiPort::resume`], which gives the next step. Data takes one bulk transfer
//! each way: [`FtdiPort::read`] and [`FtdiPort::write`] say which, and
//! [`FtdiPort::finish_read`] and [`FtdiPort::finish_write`] take the outcome.
use crate::baud::{baud_divisor, divisor_word, law_divisor_is_clock_over_rate};
use crate::control::{le16, ControlType, Recipient, RequestType, SetupPacket};
use crate::error::{FtdiError, PipeError};
use crate::line::{
    law_data_word_fields, modem_word, to_modem_word, LineCoding, Parity, StopBits,
};
use crate::usb::Direction;
use vstd::prelude::*;

verus! {

/// Vendor request: reset.
pub const SIO_RESET: u8 = 0x00;

/// Vendor request: set the modem control lines.
pub const SIO_SET_MODEM_CTRL: u8 = 0x01;

/// Vendor request: set flow control.
pub const SIO_SET_FLOW_CTRL: u8 = 0x02;

/// Vendor request: set the baud rate.
pub const SIO_SET_BAUD_RATE: u8 = 0x03;

/// Vendor request: set the framing.
pub const SIO_SET_DATA: u8 = 0x04;

/// Vendor request: set the latency timer.
pub const SIO_SET_LATENCY_TIMER: u8 = 0x09;

/// Bytes in the buffer that receives a bulk IN packet.
pub const PACKET_SIZE: usize = 64;

/// A UART channel: its two bulk pipes, and what its operations need to know.
#[derive(Debug)]
pub struct FtdiPort<I, O> {
    /// The bulk IN pipe.
    pub in_ch: I,
    /// The bulk OUT pipe.
    pub out_ch: O,
    /// The 1-based channel number, which control requests carry in `wIndex`.
    pub port_index: u16,
    /// Largest bulk IN packet.
    pub in_mps: u16,
}

/// What an operation still has to do once the request in flight is through.
#[derive(Copy, Clone, Debug, PartialEq, Eq, Structural)]
pub enum Pending {
    /// Nothing.
    Finish,
    /// Set the baud rate.
    BaudRate(u32),
}

/// What an operation does next.
#[derive(Copy, Clone, Debug, PartialEq, Eq)]
pub enum Step {
    /// Send this request, without data, on the control pipe; then resume.
    Send(SetupPacket, Pending),
    /// The operation is over, with this result.
    Done(Result<(), FtdiError>),
}

/// A bulk OUT transfer to make.
#[derive(Copy, Clone, Debug)]
pub struct BulkOut<'a> {
    /// The bytes to send.
    pub data: &'a [u8],
    /// Whether to end with an empty packet where the last one is full.
    pub ensure_transaction_end: bool,
}

/// The operations that take control requests, with their arguments.
pub enum Operation {
    /// Reset the serial engine.
    Reset,
    /// Set the baud rate.
    BaudRate(u32),
    /// Set data bits, parity and stop bits.
    Data(LineCoding),
    /// Set data bits, parity and stop bits, then the baud rate.
    LineCoding(LineCoding),
    /// Disable flow control.
    FlowControlOff,
    /// Drive DTR (first) and RTS (second).
    ControlLineState(bool, bool),
    /// Set the latency timer.
    Latency(u8),
}

/// A vendor request to the device, without data.
pub open spec fn vendor_request(request: u8, value: int, index: u16) -> SetupPacket {
    SetupPacket {
        request_type: RequestType {
            direction: Direction::Out,
            control_type: ControlType::Vendor,
            recipient: Recipient::Device,
        },
        request,
        value: value as u16,
        index,
        length: 0,
    }
}

impl Operation {
    /// The error that the operation's own arguments earn before anything is sent.
    pub open spec fn refusal(self) -> Option<FtdiError> {
        match self {
            Operation::BaudRate(baud) if divisor_word(baud) is None => Some(
                FtdiError::UnsupportedBaud,
            ),
            Operation::Data(coding) if !coding.has_legal_data_bits() => Some(
                FtdiError::InvalidArgument,
            ),
            Operation::LineCoding(coding) if !coding.has_legal_data_bits() => Some(
                FtdiError::InvalidArgument,
            ),
            Operation::Latency(ms) if ms == 0 => Some(FtdiError::InvalidArgument),
            _ => None,
        }
    }

    /// The operation's first request.
    pub open spec fn request(self, port_index: u16) -> SetupPacket {
        match self {
            Operation::Reset => vendor_request(SIO_RESET, 0, port_index),
            Operation::BaudRate(baud) => vendor_request(
                SIO_SET_BAUD_RATE,
                divisor_word(baud)->0 as int,
                port_index,
            ),
            Operation::Data(coding) => vendor_request(SIO_SET_DATA, coding.data_word(), port_index),
            Operation::LineCoding(coding) => vendor_request(
                SIO_SET_DATA,
                coding.data_word(),
                port_index,
            ),
            Operation::FlowControlOff => vendor_request(SIO_SET_FLOW_CTRL, 0, port_index),
            Operation::ControlLineState(dtr, rts) => vendor_request(
                SIO_SET_MODEM_CTRL,
                modem_word(dtr, rts),
                port_index,
            ),
            Operation::Latency(ms) => vendor_request(
                SIO_SET_LATENCY_TIMER,
                ms as int,
                port_index,
            ),
        }
    }

    /// What the operation has to do after its first request.
    pub open spec fn pending(self) -> Pending {
        match self {
            Operation::LineCoding(coding) => Pending::BaudRate(coding.baud_rate),
            _ => Pending::Finish,
        }
    }

    /// How the operation starts on the channel with number `port_index`.
    pub open spec fn start(self, port_index: u16) -> Step {
        match self.refusal() {
            Some(error) => Step::Done(Err(error)),
            None => Step::Send(self.request(port_index), self.pending()),
        }
    }
}

/// How an operation goes on once a request has had this outcome.
pub open spec fn resumed(port_index: u16, pending: Pending, outcome: Result<(), PipeError>) -> Step {
    match outcome {
        Err(e) => Step::Done(Err(FtdiError::Transfer(e))),
        Ok(_) => match pending {
            Pending::Finish => Step::Done(Ok(())),
            Pending::BaudRate(baud) => Operation::BaudRate(baud).start(port_index),
        },
    }
}

/// What comes of an operation.
pub struct Run {
    /// The requests that were sent, in order.
    pub sent: Seq<SetupPacket>,
    /// The operation's result, once it is over.
    pub result: Option<Result<(), FtdiError>>,
}

/// What comes of an operation that is at `step` on the channel with number
/// `port_index`, where its requests have these outcomes in turn. It stays
/// without result where it sends a request for which there is no outcome.
pub open spec fn run(port_index: u16, step: Step, outcomes: Seq<Result<(), PipeError>>) -> Run
    decreases outcomes.len(),
{
    match step {
        Step::Done(result) => Run { sent: seq![], result: Some(result) },
        Step::Send(setup, pending) => if outcomes.len() == 0 {
            Run { sent: seq![setup], result: None }
        } else {
            let rest = run(
                port_index,
                resumed(port_index, pending, outcomes.first()),
                outcomes.drop_first(),
            );
            Run { sent: seq![setup] + rest.sent, result: rest.result }
        },
    }
}

/// The UART bytes in the first `n` bytes of a bulk IN packet: what follows the
/// 2-byte status header.
pub open spec fn uart_bytes(packet: Seq<u8>, n: int) -> Seq<u8> {
    if n <= 2 {
        seq![]
    } else {
        packet.subrange(2, n)
    }
}

/// The UART bytes that fit in a buffer of `room` bytes.
pub open spec fn delivered(packet: Seq<u8>, n: int, room: nat) -> Seq<u8> {
    let data = uart_bytes(packet, n);
    if data.len() <= room {
        data
    } else {
        data.take(room as int)
    }
}

impl<I, O> FtdiPort<I, O> {
    /// The channel number is one that a device can have.
    pub open spec fn wf(self) -> bool {
        1 <= self.port_index <= 256
    }

    /// A vendor request to the device, without data.
    fn vendor_out(&self, request: u8, value: u16, index: u16) -> (step: Step)
        ensures
            step == Step::Send(vendor_request(request, value as int, index), Pending::Finish),
    {
        Step::Send(
            SetupPacket {
                request_type: RequestType {
                    direction: Direction::Out,
                    control_type: ControlType::Vendor,
                    recipient: Recipient::Device,
                },
                request,
                value,
                index,
                length: 0,
            },
            Pending::Finish,
        )
    }

    /// Resets the FTDI SIO (purges and resets the chip's serial engine).
    pub fn reset(&self) -> (step: Step)
        ensures
            step == Operation::Reset.start(self.port_index),
    {
        self.vendor_out(SIO_RESET, 0, self.port_index)
    }

    /// Programs the UART baud rate (rates of the verified table; see
    /// [`baud_divisor`]).
    pub fn set_baud_rate(&self, baud: u32) -> (step: Step)
        ensures
            step == Operation::BaudRate(baud).start(self.port_index),
    {
        match baud_divisor(baud) {
            Some((value, index)) => {
                // The divisor's high half shares `wIndex` with the channel
                // number; for the rates in the table it is zero.
                let port_index = self.port_index;
                assert(0u16 | port_index == port_index) by (bit_vector);
                self.vendor_out(SIO_SET_BAUD_RATE, value, index | port_index)
            },
            None => Step::Done(Err(FtdiError::UnsupportedBaud)),
        }
    }

    /// Programs data bits, parity and stop bits.
    pub fn set_data(&self, coding: &LineCoding) -> (step: Step)
        ensures
            step == Operation::Data(*coding).start(self.port_index),
    {
        match coding.to_data_word() {
            Some(value) => self.vendor_out(SIO_SET_DATA, value, self.port_index),
            None => Step::Done(Err(FtdiError::InvalidArgument)),
        }
    }

    /// Programs data/parity/stop bits, then the baud rate.
    pub fn set_line_coding(&self, coding: &LineCoding) -> (step: Step)
        ensures
            step == Operation::LineCoding(*coding).start(self.port_index),
    {
        match self.set_data(coding) {
            Step::Send(setup, _) => Step::Send(setup, Pending::BaudRate(coding.baud_rate)),
            Step::Done(result) => Step::Done(result),
        }
    }

    /// Disables all flow control (no RTS/CTS, no XON/XOFF).
    pub fn set_flow_control_off(&self) -> (step: Step)
        ensures
            step == Operation::FlowControlOff.start(self.port_index),
    {
        self.vendor_out(SIO_SET_FLOW_CTRL, 0, self.port_index)
    }

    /// Drives DTR and RTS to the given levels.
    pub fn set_control_line_state(&self, dtr: bool, rts: bool) -> (step: Step)
        ensures
            step == Operation::ControlLineState(dtr, rts).start(self.port_index),
    {
        self.vendor_out(SIO_SET_MODEM_CTRL, to_modem_word(dtr, rts), self.port_index)
    }

    /// Sets the FTDI read latency timer in milliseconds (1..=255).
    pub fn set_latency(&self, ms: u8) -> (step: Step)
        ensures
            step == Operation::Latency(ms).start(self.port_index),
    {
        if ms == 0 {
            return Step::Done(Err(FtdiError::InvalidArgument));
        }
        self.vendor_out(SIO_SET_LATENCY_TIMER, ms as u16, self.port_index)
    }

    /// Goes on with an operation once its request has had this outcome.
    pub fn resume(&self, pending: Pending, outcome: Result<(), PipeError>) -> (step: Step)
        ensures
            step == resumed(self.port_index, pending, outcome),
    {
        match outcome {
            Err(e) => Step::Done(Err(FtdiError::from(e))),
            Ok(_) => match pending {
                Pending::Finish => Step::Done(Ok(())),
                Pending::BaudRate(baud) => self.set_baud_rate(baud),
            },
        }
    }

    /// Starts to read up to one bulk IN packet of UART data: the number of bytes
    /// to ask the bulk IN pipe for.
    pub fn read(&self) -> (len: usize)
        ensures
            len == if self.in_mps <= 64 {
                self.in_mps as usize
            } else {
                64
            },
            len <= 64 && len <= self.in_mps,
            len == 64 || len == self.in_mps,
    {
        let mps: usize = self.in_mps as usize;
        if mps <= PACKET_SIZE {
            mps
        } else {
            PACKET_SIZE
        }
    }

    /// Finishes a read: `received` is the outcome of the transfer into `packet`.
    /// Strips the 2-byte status header, copies the UART bytes to the start of
    /// `buf` as far as they fit, and returns their number. That is 0 when only
    /// the header arrived (an idle line still sends it every latency period).
    pub fn finish_read(
        &self,
        packet: &[u8; 64],
        received: Result<usize, PipeError>,
        buf: &mut [u8],
    ) -> (taken: Result<usize, FtdiError>)
        requires
            received is Ok ==> received->Ok_0 <= 64,
        ensures
            match received {
                Ok(n) => {
                    let data = delivered(packet@, n as int, old(buf)@.len());
                    &&& taken is Ok
                    &&& taken->Ok_0 == data.len()
                    &&& final(buf)@ == data + old(buf)@.skip(data.len() as int)
                    &&& taken->Ok_0 == (if n <= 2 {
                        0
                    } else if n - 2 <= old(buf)@.len() {
                        n - 2
                    } else {
                        old(buf)@.len() as int
                    })
                    &&& forall|i: int|
                        0 <= i < taken->Ok_0 ==> #[trigger] final(buf)@[i] == packet@[i + 2]
                    &&& forall|i: int|
                        taken->Ok_0 <= i < old(buf)@.len() ==> #[trigger] final(buf)@[i] == old(
                            buf,
                        )@[i]
                },
                Err(e) => {
                    &&& taken == Err::<usize, FtdiError>(FtdiError::Transfer(e))
                    &&& final(buf)@ == old(buf)@
                },
            },
    {
        let n: usize = match received {
            Ok(n) => n,
            Err(e) => return Err(FtdiError::from(e)),
        };
        if n <= 2 {
            assert(buf@ =~= delivered(packet@, n as int, old(buf)@.len()) + old(buf)@.skip(0));
            return Ok(0);
        }
        let len: usize = n - 2;
        let room: usize = buf.len();
        let take: usize = if len <= room {
            len
        } else {
            room
        };
        let ghost data = delivered(packet@, n as int, old(buf)@.len());
        let mut i: usize = 0;
        while i < take
            invariant
                i <= take,
                take == data.len(),
                take <= old(buf)@.len(),
                take <= n - 2,
                n <= 64,
                data =~= packet@.subrange(2, 2 + take),
                buf@ =~= data.take(i as int) + old(buf)@.skip(i as int),
            decreases take - i,
        {
            buf[i] = packet[2 + i];
            i += 1;
        }
        Ok(take)
    }

    /// Starts to write bytes to the UART transmit stream: the bulk OUT transfer
    /// to make.
    pub fn write<'a>(&self, data: &'a [u8]) -> (transfer: BulkOut<'a>)
        ensures
            transfer.data@ == data@,
            !transfer.ensure_transaction_end,
    {
        BulkOut { data, ensure_transaction_end: false }
    }

    /// Finishes a write of `data` whose transfer had this outcome, and returns the
    /// number of bytes written.
    pub fn finish_write(&self, data: &[u8], outcome: Result<(), PipeError>) -> (written: Result<
        usize,
        FtdiError,
    >)
        ensures
            match outcome {
                Ok(_) => written is Ok && written->Ok_0 == data@.len(),
                Err(e) => written == Err::<usize, FtdiError>(FtdiError::Transfer(e)),
            },
    {
        match outcome {
            Ok(_) => Ok(data.len()),
            Err(e) => Err(FtdiError::from(e)),
        }
    }
}

/// A vendor request to the device, without data, for the channel with number
/// `port_index`.
pub open spec fn is_for_channel(setup: SetupPacket, port_index: u16) -> bool {
    &&& setup.request_type.direction == Direction::Out
    &&& setup.request_type.control_type == ControlType::Vendor
    &&& setup.request_type.recipient == Recipient::Device
    &&& setup.index == port_index
    &&& setup.length == 0
}

/// Whatever an operation sends, and however its requests fare, every request is
/// a vendor request to the device that names the channel in `wIndex` and has no
/// data.
pub proof fn law_requests_name_the_channel(
    operation: Operation,
    port_index: u16,
    outcomes: Seq<Result<(), PipeError>>,
)
    ensures
        forall|i: int|
            0 <= i < run(port_index, operation.start(port_index), outcomes).sent.len()
                ==> is_for_channel(
                #[trigger] run(port_index, operation.start(port_index), outcomes).sent[i],
                port_index,
            ),
{
    reveal_with_fuel(run, 3);
}

/// On the wire, every request of an operation starts with the byte for a vendor
/// request to the device and ends with an empty length, and its index bytes hold
/// the channel number.
pub proof fn law_requests_on_the_wire(
    operation: Operation,
    port_index: u16,
    outcomes: Seq<Result<(), PipeError>>,
    i: int,
    bytes: Seq<u8>,
)
    requires
        0 <= i < run(port_index, operation.start(port_index), outcomes).sent.len(),
        run(port_index, operation.start(port_index), outcomes).sent[i].encoded_as(bytes),
    ensures
        bytes[0] == 0x40,
        le16(bytes[4], bytes[5]) == port_index,
        bytes[6] == 0 && bytes[7] == 0,
{
    law_requests_name_the_channel(operation, port_index, outcomes);
}

/// The words that carry framing and modem lines go into `wValue` whole.
pub proof fn law_words_fit_in_value(coding: LineCoding, dtr: bool, rts: bool, port_index: u16)
    requires
        coding.has_legal_data_bits(),
    ensures
        Operation::Data(coding).request(port_index).value == coding.data_word(),
        Operation::LineCoding(coding).request(port_index).value == coding.data_word(),
        Operation::ControlLineState(dtr, rts).request(port_index).value == modem_word(dtr, rts),
{
}

/// An operation whose arguments are refused sends nothing, and its result is
/// the refusal.
pub proof fn law_refused_operation_sends_nothing(
    operation: Operation,
    port_index: u16,
    outcomes: Seq<Result<(), PipeError>>,
)
    requires
        operation.refusal() is Some,
    ensures
        run(port_index, operation.start(port_index), outcomes).sent.len() == 0,
        run(port_index, operation.start(port_index), outcomes).result == Some(
            Err::<(), FtdiError>(operation.refusal()->0),
        ),
{
}

/// An operation that is not refused, and sets one thing, takes one request; it
/// succeeds where that goes through.
pub proof fn law_single_request_operation(
    operation: Operation,
    port_index: u16,
    outcome: Result<(), PipeError>,
    later: Seq<Result<(), PipeError>>,
)
    requires
        operation.refusal() is None,
        operation.pending() == Pending::Finish,
    ensures
        ({
            let whole = run(
                port_index,
                operation.start(port_index),
                seq![outcome] + later,
            );
            &&& whole.sent == seq![operation.request(port_index)]
            &&& whole.result == Some(
                match outcome {
                    Ok(_) => Ok::<(), FtdiError>(()),
                    Err(e) => Err(FtdiError::Transfer(e)),
                },
            )
        }),
{
    reveal_with_fuel(run, 2);
    let outcomes = seq![outcome] + later;
    assert(outcomes.first() == outcome);
}

/// An argument out of range is never reported after something was sent.
pub proof fn law_invalid_argument_comes_first(
    operation: Operation,
    port_index: u16,
    outcomes: Seq<Result<(), PipeError>>,
)
    requires
        run(port_index, operation.start(port_index), outcomes).result == Some(
            Err::<(), FtdiError>(FtdiError::InvalidArgument),
        ),
    ensures
        operation.refusal() == Some(FtdiError::InvalidArgument),
        run(port_index, operation.start(port_index), outcomes).sent.len() == 0,
{
    reveal_with_fuel(run, 3);
}

/// A transfer that fails ends the operation: nothing more is sent, and the
/// failure is the result.
pub proof fn law_failed_transfer_ends_operation(
    port_index: u16,
    setup: SetupPacket,
    pending: Pending,
    failure: PipeError,
    later: Seq<Result<(), PipeError>>,
)
    ensures
        run(
            port_index,
            Step::Send(setup, pending),
            seq![Err::<(), PipeError>(failure)] + later,
        ).sent == seq![setup],
        run(
            port_index,
            Step::Send(setup, pending),
            seq![Err::<(), PipeError>(failure)] + later,
        ).result == Some(Err::<(), FtdiError>(FtdiError::Transfer(failure))),
{
    reveal_with_fuel(run, 2);
    let outcomes = seq![Err::<(), PipeError>(failure)] + later;
    assert(outcomes.first() == Err::<(), PipeError>(failure));
}

/// Setting the line coding is setting the framing and then, where that went
/// well, setting the baud rate: the same requests, the same result.
pub proof fn law_line_coding_is_data_then_baud_rate(
    coding: LineCoding,
    port_index: u16,
    outcomes: Seq<Result<(), PipeError>>,
)
    ensures
        ({
            let both = run(port_index, Operation::LineCoding(coding).start(port_index), outcomes);
            let data = run(port_index, Operation::Data(coding).start(port_index), outcomes);
            let rate = run(
                port_index,
                Operation::BaudRate(coding.baud_rate).start(port_index),
                outcomes.drop_first(),
            );
            if data.result == Some(Ok::<(), FtdiError>(())) {
                both.sent == data.sent + rate.sent && both.result == rate.result
            } else {
                both.sent == data.sent && both.result == data.result
            }
        }),
{
    reveal_with_fuel(run, 3);
}

/// Where every request goes through, setting a line coding with legal data bits
/// and a rate of the table succeeds, with two requests; with any other rate it
/// is refused for the rate, after the framing was set.
pub proof fn law_line_coding_outcome(
    coding: LineCoding,
    port_index: u16,
    outcomes: Seq<Result<(), PipeError>>,
)
    requires
        coding.has_legal_data_bits(),
        outcomes.len() >= 2,
        outcomes[0] is Ok,
        outcomes[1] is Ok,
    ensures
        ({
            let both = run(port_index, Operation::LineCoding(coding).start(port_index), outcomes);
            let data = Operation::Data(coding).request(port_index);
            let rate = Operation::BaudRate(coding.baud_rate).request(port_index);
            if divisor_word(coding.baud_rate) is Some {
                both.sent == seq![data, rate] && both.result == Some(Ok::<(), FtdiError>(()))
            } else {
                both.sent == seq![data] && both.result == Some(
                    Err::<(), FtdiError>(FtdiError::UnsupportedBaud),
                )
            }
        }),
{
    reveal_with_fuel(run, 3);
    assert(outcomes.drop_first().first() == outcomes[1]);
}

/// The status header never reaches the reader: packets that agree after their
/// first two bytes deliver the same.
pub proof fn law_status_header_is_stripped(first: Seq<u8>, second: Seq<u8>, n: int, room: nat)
    requires
        n <= first.len(),
        n <= second.len(),
        forall|i: int| 2 <= i < n ==> first[i] == second[i],
    ensures
        delivered(first, n, room) == delivered(second, n, room),
{
    assert(uart_bytes(first, n) =~= uart_bytes(second, n));
}

/// A read delivers a packet's bytes in order from the third on, as many as the
/// packet and the buffer allow; all of them where the buffer has room.
pub proof fn law_delivered_bytes(packet: Seq<u8>, n: int, room: nat)
    requires
        n <= packet.len(),
    ensures
        delivered(packet, n, room).len() == if n <= 2 {
            0
        } else if n - 2 <= room {
            n - 2
        } else {
            room as int
        },
        forall|i: int|
            0 <= i < delivered(packet, n, room).len() ==> #[trigger] delivered(packet, n, room)[i]
                == packet[i + 2],
{
}

/// Resetting sends one request: code 0, value 0, on every channel.
pub proof fn law_reset_request(port_index: u16)
    ensures
        match Operation::Reset.start(port_index) {
            Step::Send(setup, pending) => {
                &&& setup.request_type.direction == Direction::Out
                &&& setup.request_type.control_type == ControlType::Vendor
                &&& setup.request_type.recipient == Recipient::Device
                &&& setup.index == port_index
                &&& setup.length == 0
                &&& setup.request == 0
                &&& setup.value == 0
                &&& pending == Pending::Finish
            },
            Step::Done(_) => false,
        },
{
}

/// Disabling flow control sends one request: code 2, value 0, on every channel.
pub proof fn law_flow_control_off_request(port_index: u16)
    ensures
        match Operation::FlowControlOff.start(port_index) {
            Step::Send(setup, pending) => {
                &&& setup.request_type.direction == Direction::Out
                &&& setup.request_type.control_type == ControlType::Vendor
                &&& setup.request_type.recipient == Recipient::Device
                &&& setup.index == port_index
                &&& setup.length == 0
                &&& setup.request == 2
                &&& setup.value == 0
                &&& pending == Pending::Finish
            },
            Step::Done(_) => false,
        },
{
}

/// Setting the modem lines sends one request, code 1: its high byte names both
/// lines, bit 0 is the level of DTR, bit 1 that of RTS, and no other bit is set.
pub proof fn law_control_line_request(dtr: bool, rts: bool, port_index: u16)
    ensures
        match Operation::ControlLineState(dtr, rts).start(port_index) {
            Step::Send(setup, pending) => {
                &&& setup.request_type.direction == Direction::Out
                &&& setup.request_type.control_type == ControlType::Vendor
                &&& setup.request_type.recipient == Recipient::Device
                &&& setup.index == port_index
                &&& setup.length == 0
                &&& setup.request == 1
                &&& setup.value / 0x100 == 3
                &&& setup.value % 0x100 < 4
                &&& setup.value % 2 == 1 <==> dtr
                &&& setup.value / 2 % 2 == 1 <==> rts
                &&& pending == Pending::Finish
            },
            Step::Done(_) => false,
        },
{
}

/// Setting the baud rate sends one request, code 3, for the rates of the table
/// and no others. The divisor in its value, a 14-bit integer part with a code for
/// the eighths above it, is the 3 MHz base clock over the rate asked for, rounded
/// down to an eighth. Any other rate is refused as unsupported.
pub proof fn law_baud_rate_request(baud: u32, port_index: u16)
    ensures
        match Operation::BaudRate(baud).start(port_index) {
            Step::Send(setup, pending) => {
                &&& baud == 9600 || baud == 19200 || baud == 38400 || baud == 57600 || baud
                    == 115200 || baud == 115384 || baud == 230400
                &&& setup.request_type.direction == Direction::Out
                &&& setup.request_type.control_type == ControlType::Vendor
                &&& setup.request_type.recipient == Recipient::Device
                &&& setup.index == port_index
                &&& setup.length == 0
                &&& setup.request == 3
                &&& Some(setup.value) == divisor_word(baud)
                &&& 8 * (setup.value as int % 0x4000) + (if setup.value / 0x4000 == 0 {
                    0int
                } else if setup.value / 0x4000 == 1 {
                    4
                } else if setup.value / 0x4000 == 2 {
                    2
                } else {
                    1
                }) == 24_000_000int / baud as int
                &&& pending == Pending::Finish
            },
            Step::Done(result) => {
                &&& baud != 9600 && baud != 19200 && baud != 38400 && baud != 57600 && baud
                    != 115200 && baud != 115384 && baud != 230400
                &&& result == Err::<(), FtdiError>(FtdiError::UnsupportedBaud)
            },
        },
{
    law_divisor_is_clock_over_rate(baud);
}

/// Setting the framing sends one request, code 4, where there are 5 to 8 data bits:
/// the data bits in the low byte of its value, parity in the three bits above,
/// stop bits above those. Any other number of data bits is an invalid argument.
pub proof fn law_data_request(coding: LineCoding, port_index: u16)
    ensures
        match Operation::Data(coding).start(port_index) {
            Step::Send(setup, pending) => {
                &&& 5 <= coding.data_bits <= 8
                &&& setup.request_type.direction == Direction::Out
                &&& setup.request_type.control_type == ControlType::Vendor
                &&& setup.request_type.recipient == Recipient::Device
                &&& setup.index == port_index
                &&& setup.length == 0
                &&& setup.request == 4
                &&& setup.value % 0x100 == coding.data_bits
                &&& setup.value / 0x100 % 8 == (match coding.parity {
                    Parity::NoParity => 0int,
                    Parity::Odd => 1,
                    Parity::Even => 2,
                    Parity::Mark => 3,
                    Parity::Space => 4,
                })
                &&& setup.value / 0x800 == (match coding.stop_bits {
                    StopBits::One => 0int,
                    StopBits::OneAndHalf => 1,
                    StopBits::Two => 2,
                })
                &&& pending == Pending::Finish
            },
            Step::Done(result) => {
                &&& coding.data_bits < 5 || coding.data_bits > 8
                &&& result == Err::<(), FtdiError>(FtdiError::InvalidArgument)
            },
        },
{
    if 5 <= coding.data_bits <= 8 {
        law_data_word_fields(coding);
    }
}

/// Setting the line coding starts with the framing, as code 4, and has the rate of
/// the coding still to set. A wrong number of data bits is an invalid argument.
pub proof fn law_line_coding_request(coding: LineCoding, port_index: u16)
    ensures
        match Operation::LineCoding(coding).start(port_index) {
            Step::Send(setup, pending) => {
                &&& 5 <= coding.data_bits <= 8
                &&& setup.request_type.direction == Direction::Out
                &&& setup.request_type.control_type == ControlType::Vendor
                &&& setup.request_type.recipient == Recipient::Device
                &&& setup.index == port_index
                &&& setup.length == 0
                &&& setup.request == 4
                &&& setup.value % 0x100 == coding.data_bits
                &&& setup.value / 0x100 % 8 == (match coding.parity {
                    Parity::NoParity => 0int,
                    Parity::Odd => 1,
                    Parity::Even => 2,
                    Parity::Mark => 3,
                    Parity::Space => 4,
                })
                &&& setup.value / 0x800 == (match coding.stop_bits {
                    StopBits::One => 0int,
                    StopBits::OneAndHalf => 1,
                    StopBits::Two => 2,
                })
                &&& pending == Pending::BaudRate(coding.baud_rate)
            },
            Step::Done(result) => {
                &&& coding.data_bits < 5 || coding.data_bits > 8
                &&& result == Err::<(), FtdiError>(FtdiError::InvalidArgument)
            },
        },
{
    if 5 <= coding.data_bits <= 8 {
        law_data_word_fields(coding);
    }
}

/// Setting the latency sends one request, code 9, whose value is the number of
/// milliseconds asked for, from 1 to 255; 0 is an invalid argument.
pub proof fn law_latency_request(ms: u8, port_index: u16)
    ensures
        match Operation::Latency(ms).start(port_index) {
            Step::Send(setup, pending) => {
                &&& ms >= 1
                &&& setup.request_type.direction == Direction::Out
                &&& setup.request_type.control_type == ControlType::Vendor
                &&& setup.request_type.recipient == Recipient::Device
                &&& setup.index == port_index
                &&& setup.length == 0
                &&& setup.request == 9
                &&& setup.value == ms
                &&& pending == Pending::Finish
            },
            Step::Done(result) => {
                &&& ms == 0
                &&& result == Err::<(), FtdiError>(FtdiError::InvalidArgument)
            },
        },
{
}

/// Different latencies are told to the chip by different requests.
pub proof fn law_latencies_are_told_apart(first: u8, second: u8, port_index: u16)
    requires
        first != second,
    ensures
        Operation::Latency(first).start(port_index) != Operation::Latency(second).start(port_index),
{
}

/// A failed transfer ends an operation with that failure, whatever it had left to
/// do. One that went through ends it with success where nothing is left; where
/// the baud rate is left, setting it comes next.
pub proof fn law_resuming(port_index: u16, pending: Pending, failure: PipeError, baud: u32)
    ensures
        resumed(port_index, pending, Err(failure)) == Step::Done(Err(FtdiError::Transfer(failure))),
        resumed(port_index, Pending::Finish, Ok(())) == Step::Done(Ok(())),
        resumed(port_index, Pending::BaudRate(baud), Ok(())) == Operation::BaudRate(baud).start(
            port_index,
        ),
{
}

} // verus!
