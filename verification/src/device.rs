//! Opening a device and its channels.
//!
//! Opening takes pipes, which a host controller allocates. [`control_pipe`] says
//! which pipe a device needs, [`FtdiDevice::new`] takes what came of it;
//! [`FtdiDevice::port`] says which pipes a channel needs, and
//! [`PortOpening::with_bulk_in`] and [`PortHalfOpen::with_bulk_out`] take what
//! came of those, in this order.
use crate::discovery::{find_ftdi, found_ftdi, law_found_channel_is_described, FtdiInfo};
use crate::error::FtdiError;
use crate::port::FtdiPort;
use crate::usb::{
    address_of, directed_address, endpoint_address, endpoint_number, Direction, EndpointInfo,
    EndpointType,
};
use embassy_usb_driver::host::{HostError, SplitInfo};
use vstd::prelude::*;

verus! {

/// What enumeration has found out about a device.
#[derive(Copy, Clone, Debug)]
pub struct EnumerationInfo {
    /// The device's address on the bus.
    pub device_address: u8,
    /// Largest packet on endpoint 0, from the device descriptor.
    pub max_packet_size0: u8,
    /// How transfers are routed, where the device is behind a hub that splits
    /// them.
    pub split: Option<SplitInfo>,
}

/// A pipe to allocate.
#[derive(Copy, Clone, Debug)]
pub struct PipeRequest {
    /// The device's address on the bus.
    pub device_address: u8,
    /// The endpoint that the pipe leads to.
    pub endpoint: EndpointInfo,
    /// How the pipe's transfers are routed.
    pub split: Option<SplitInfo>,
}

/// An FTDI device, with its control pipe on endpoint 0.
///
/// `C` is the control pipe, with whatever guards it between channels.
#[derive(Debug)]
pub struct FtdiDevice<C> {
    /// The control pipe.
    pub ctrl: C,
    /// The device's address on the bus.
    pub device_address: u8,
    /// How transfers are routed.
    pub split: Option<SplitInfo>,
}

/// A channel that waits for its pipes.
#[derive(Debug)]
pub struct PortOpening {
    /// The bulk IN pipe to allocate.
    pub bulk_in: PipeRequest,
    /// The bulk OUT pipe to allocate, once there is a bulk IN pipe.
    pub bulk_out: PipeRequest,
    /// The 1-based channel number.
    pub port_index: u16,
    /// Largest bulk IN packet.
    pub in_mps: u16,
}

/// A channel that has its bulk IN pipe and waits for its bulk OUT pipe.
#[derive(Debug)]
pub struct PortHalfOpen<I> {
    /// The bulk IN pipe.
    pub in_ch: I,
    /// The channel.
    pub opening: PortOpening,
}

impl EnumerationInfo {
    /// The control pipe on endpoint 0 of the device.
    pub open spec fn control_request(self) -> PipeRequest {
        PipeRequest {
            device_address: self.device_address,
            endpoint: EndpointInfo {
                addr: address_of(0, Direction::In) as u8,
                ep_type: EndpointType::Control,
                max_packet_size: self.max_packet_size0 as u16,
                interval_ms: 0,
            },
            split: self.split,
        }
    }
}

/// The control pipe on endpoint 0 of a device.
pub fn control_pipe(enum_info: &EnumerationInfo) -> (request: PipeRequest)
    ensures
        request == enum_info.control_request(),
{
    assert(0u8 | 0x80u8 == 128) by (bit_vector);
    PipeRequest {
        device_address: enum_info.device_address,
        endpoint: EndpointInfo {
            addr: endpoint_address(0, Direction::In),
            ep_type: EndpointType::Control,
            max_packet_size: enum_info.max_packet_size0 as u16,
            interval_ms: 0,
        },
        split: enum_info.split,
    }
}

impl<C> FtdiDevice<C> {
    /// The device that enumeration found, once its control pipe was asked for.
    pub open spec fn opened(enum_info: EnumerationInfo, ctrl: Result<C, HostError>) -> Result<
        Self,
        FtdiError,
    > {
        match ctrl {
            Ok(ctrl) => Ok(
                FtdiDevice {
                    ctrl,
                    device_address: enum_info.device_address,
                    split: enum_info.split,
                },
            ),
            Err(_) => Err(FtdiError::NoPipe),
        }
    }

    /// Opens a device, for use by one task; `ctrl` is what came of allocating
    /// its control pipe.
    pub fn new(enum_info: &EnumerationInfo, ctrl: Result<C, HostError>) -> (device: Result<
        Self,
        FtdiError,
    >)
        ensures
            device == Self::opened(*enum_info, ctrl),
    {
        Self::new_with_raw_mutex(enum_info, ctrl)
    }

    /// Opens a device; `ctrl` is what came of allocating its control pipe, behind
    /// the mutex that its channels share it through.
    pub fn new_with_raw_mutex(enum_info: &EnumerationInfo, ctrl: Result<C, HostError>) -> (device:
        Result<Self, FtdiError>)
        ensures
            device == Self::opened(*enum_info, ctrl),
    {
        match ctrl {
            Ok(ctrl) => Ok(
                FtdiDevice {
                    ctrl,
                    device_address: enum_info.device_address,
                    split: enum_info.split,
                },
            ),
            Err(_) => Err(FtdiError::NoPipe),
        }
    }

    /// A pipe of this device to the bulk endpoint with the number in `address`.
    pub open spec fn bulk_pipe(self, direction: Direction, address: u8, mps: u16) -> PipeRequest {
        PipeRequest {
            device_address: self.device_address,
            endpoint: EndpointInfo {
                addr: address_of(endpoint_number(address), direction) as u8,
                ep_type: EndpointType::Bulk,
                max_packet_size: mps,
                interval_ms: 0,
            },
            split: self.split,
        }
    }

    /// The channel of this device at `info`.
    pub open spec fn channel_at(self, info: FtdiInfo, interface_idx: u8) -> PortOpening {
        PortOpening {
            bulk_in: self.bulk_pipe(Direction::In, info.bulk_in_ep, info.bulk_in_mps),
            bulk_out: self.bulk_pipe(Direction::Out, info.bulk_out_ep, info.bulk_out_mps),
            port_index: (interface_idx + 1) as u16,
            in_mps: info.bulk_in_mps,
        }
    }

    /// How opening the `interface_idx`-th channel starts.
    pub open spec fn port_started(self, config_desc: Seq<u8>, interface_idx: u8) -> Result<
        PortOpening,
        FtdiError,
    > {
        match found_ftdi(config_desc, interface_idx) {
            Some(info) => Ok(self.channel_at(info, interface_idx)),
            None => Err(FtdiError::NoInterface),
        }
    }

    /// What comes of opening the `interface_idx`-th channel, where allocating its
    /// pipes has these outcomes.
    pub open spec fn port_opened<I, O>(
        self,
        config_desc: Seq<u8>,
        interface_idx: u8,
        in_ch: Result<I, HostError>,
        out_ch: Result<O, HostError>,
    ) -> Result<FtdiPort<I, O>, FtdiError> {
        match self.port_started(config_desc, interface_idx) {
            Ok(opening) => match opening.after_bulk_in(in_ch) {
                Ok(half) => half.after_bulk_out(out_ch),
                Err(error) => Err(error),
            },
            Err(error) => Err(error),
        }
    }

    /// Starts to open the `interface_idx`-th UART channel (use `0` for
    /// single-channel parts). The caller configures the line (reset, line
    /// coding, modem lines) before transfer.
    pub fn port(&self, config_desc: &[u8], interface_idx: u8) -> (opening: Result<
        PortOpening,
        FtdiError,
    >)
        ensures
            opening == self.port_started(config_desc@, interface_idx),
    {
        let info = match find_ftdi(config_desc, interface_idx) {
            Some(info) => info,
            None => return Err(FtdiError::NoInterface),
        };
        let in_ep_info = EndpointInfo {
            addr: directed_address(info.bulk_in_ep, Direction::In),
            ep_type: EndpointType::Bulk,
            max_packet_size: info.bulk_in_mps,
            interval_ms: 0,
        };
        let out_ep_info = EndpointInfo {
            addr: directed_address(info.bulk_out_ep, Direction::Out),
            ep_type: EndpointType::Bulk,
            max_packet_size: info.bulk_out_mps,
            interval_ms: 0,
        };
        Ok(
            PortOpening {
                bulk_in: PipeRequest {
                    device_address: self.device_address,
                    endpoint: in_ep_info,
                    split: self.split,
                },
                bulk_out: PipeRequest {
                    device_address: self.device_address,
                    endpoint: out_ep_info,
                    split: self.split,
                },
                // Control requests carry the 1-based channel number.
                port_index: interface_idx as u16 + 1,
                in_mps: info.bulk_in_mps,
            },
        )
    }
}

impl PortOpening {
    /// The channel, once its bulk IN pipe was asked for.
    pub open spec fn after_bulk_in<I>(self, in_ch: Result<I, HostError>) -> Result<
        PortHalfOpen<I>,
        FtdiError,
    > {
        match in_ch {
            Ok(in_ch) => Ok(PortHalfOpen { in_ch, opening: self }),
            Err(_) => Err(FtdiError::NoPipe),
        }
    }

    /// Goes on with opening; `in_ch` is what came of allocating the bulk IN pipe.
    pub fn with_bulk_in<I>(self, in_ch: Result<I, HostError>) -> (half: Result<
        PortHalfOpen<I>,
        FtdiError,
    >)
        ensures
            half == self.after_bulk_in(in_ch),
    {
        match in_ch {
            Ok(in_ch) => Ok(PortHalfOpen { in_ch, opening: self }),
            Err(_) => Err(FtdiError::NoPipe),
        }
    }
}

impl<I> PortHalfOpen<I> {
    /// The channel, once its bulk OUT pipe was asked for.
    pub open spec fn after_bulk_out<O>(self, out_ch: Result<O, HostError>) -> Result<
        FtdiPort<I, O>,
        FtdiError,
    > {
        match out_ch {
            Ok(out_ch) => Ok(
                FtdiPort {
                    in_ch: self.in_ch,
                    out_ch,
                    port_index: self.opening.port_index,
                    in_mps: self.opening.in_mps,
                },
            ),
            Err(_) => Err(FtdiError::NoPipe),
        }
    }

    /// Ends opening; `out_ch` is what came of allocating the bulk OUT pipe.
    pub fn with_bulk_out<O>(self, out_ch: Result<O, HostError>) -> (port: Result<
        FtdiPort<I, O>,
        FtdiError,
    >)
        ensures
            port == self.after_bulk_out(out_ch),
    {
        match out_ch {
            Ok(out_ch) => Ok(
                FtdiPort {
                    in_ch: self.in_ch,
                    out_ch,
                    port_index: self.opening.port_index,
                    in_mps: self.opening.in_mps,
                },
            ),
            Err(_) => Err(FtdiError::NoPipe),
        }
    }
}

/// A channel opens exactly where the descriptor has it and both pipes were
/// allocated. Without the channel the error is `NoInterface`, without a pipe it
/// is `NoPipe`. The open channel has the pipes that were allocated and the
/// 1-based number of its interface.
pub proof fn law_port_opens<C, I, O>(
    device: FtdiDevice<C>,
    config_desc: Seq<u8>,
    interface_idx: u8,
    in_ch: Result<I, HostError>,
    out_ch: Result<O, HostError>,
)
    ensures
        ({
            let found = found_ftdi(config_desc, interface_idx);
            let opened = device.port_opened(config_desc, interface_idx, in_ch, out_ch);
            match opened {
                Ok(port) => {
                    &&& found is Some
                    &&& in_ch == Ok::<I, HostError>(port.in_ch)
                    &&& out_ch == Ok::<O, HostError>(port.out_ch)
                    &&& port.wf()
                    &&& port.port_index == interface_idx + 1
                    &&& port.in_mps == found->0.bulk_in_mps
                },
                Err(error) => {
                    ||| error == FtdiError::NoInterface && found is None
                    ||| error == FtdiError::NoPipe && found is Some && (in_ch is Err || out_ch
                        is Err)
                },
            }
        }),
{
}

/// Channels of a device that differ have numbers that differ.
pub proof fn law_channel_numbers_differ<C>(
    device: FtdiDevice<C>,
    config_desc: Seq<u8>,
    first: u8,
    second: u8,
)
    requires
        first != second,
        found_ftdi(config_desc, first) is Some,
        found_ftdi(config_desc, second) is Some,
    ensures
        device.port_started(config_desc, first)->Ok_0.port_index != device.port_started(
            config_desc,
            second,
        )->Ok_0.port_index,
{
}

/// The pipes of a channel lead to the endpoints that the descriptor names, with
/// their packet sizes; where the descriptor keeps the reserved bits of an
/// address clear, under the very address.
pub proof fn law_pipes_lead_to_described_endpoints<C>(
    device: FtdiDevice<C>,
    config_desc: Seq<u8>,
    interface_idx: u8,
)
    requires
        found_ftdi(config_desc, interface_idx) is Some,
    ensures
        ({
            let info = found_ftdi(config_desc, interface_idx)->0;
            let opening = device.port_started(config_desc, interface_idx)->Ok_0;
            &&& opening.bulk_in.endpoint.addr % 16 == info.bulk_in_ep % 16
            &&& opening.bulk_in.endpoint.addr >= 128
            &&& opening.bulk_in.endpoint.max_packet_size == info.bulk_in_mps
            &&& opening.bulk_out.endpoint.addr % 16 == info.bulk_out_ep % 16
            &&& opening.bulk_out.endpoint.addr < 128
            &&& opening.bulk_out.endpoint.max_packet_size == info.bulk_out_mps
            &&& info.bulk_in_ep % 128 < 16 ==> opening.bulk_in.endpoint.addr == info.bulk_in_ep
            &&& info.bulk_out_ep % 128 < 16 ==> opening.bulk_out.endpoint.addr == info.bulk_out_ep
        }),
{
    law_found_channel_is_described(config_desc, interface_idx);
}

/// All pipes of a device, the control pipe and those of every channel, lead to
/// the address that enumeration gave the device, on the route that it found.
pub proof fn law_pipes_lead_to_the_device<C>(
    enum_info: EnumerationInfo,
    ctrl: C,
    config_desc: Seq<u8>,
    interface_idx: u8,
)
    requires
        found_ftdi(config_desc, interface_idx) is Some,
    ensures
        ({
            let device = FtdiDevice::opened(enum_info, Ok(ctrl))->Ok_0;
            let opening = device.port_started(config_desc, interface_idx)->Ok_0;
            &&& enum_info.control_request().device_address == enum_info.device_address
            &&& opening.bulk_in.device_address == enum_info.device_address
            &&& opening.bulk_out.device_address == enum_info.device_address
            &&& enum_info.control_request().split == enum_info.split
            &&& opening.bulk_in.split == enum_info.split
            &&& opening.bulk_out.split == enum_info.split
        }),
{
}

/// The control pipe leads to endpoint 0 of the enumerated device, with the packet
/// size that its device descriptor names, on the route that enumeration found.
pub proof fn law_control_pipe(enum_info: EnumerationInfo)
    ensures
        enum_info.control_request().device_address == enum_info.device_address,
        enum_info.control_request().endpoint.addr == 0x80,
        enum_info.control_request().endpoint.ep_type == EndpointType::Control,
        enum_info.control_request().endpoint.max_packet_size == enum_info.max_packet_size0,
        enum_info.control_request().endpoint.interval_ms == 0,
        enum_info.control_request().split == enum_info.split,
{
}

/// A device opens exactly where its control pipe was allocated, and then holds
/// that pipe and what enumeration found. Without the pipe the error is `NoPipe`,
/// whatever the reason.
pub proof fn law_device_opens<C>(enum_info: EnumerationInfo, ctrl: C, reason: HostError)
    ensures
        FtdiDevice::opened(enum_info, Ok(ctrl)) is Ok,
        FtdiDevice::opened(enum_info, Ok(ctrl))->Ok_0.ctrl == ctrl,
        FtdiDevice::opened(enum_info, Ok(ctrl))->Ok_0.device_address == enum_info.device_address,
        FtdiDevice::opened(enum_info, Ok(ctrl))->Ok_0.split == enum_info.split,
        FtdiDevice::<C>::opened(enum_info, Err(reason)) == Err::<FtdiDevice<C>, FtdiError>(
            FtdiError::NoPipe,
        ),
{
}

/// Opening a channel that is found asks for two bulk pipes without polling
/// interval, whatever the channel's packet sizes and addresses: one to the IN
/// endpoint and one to the OUT endpoint that were found, with their packet sizes.
/// The channel gets the number one above its index.
pub proof fn law_opening_asks_for_bulk_pipes<C>(
    device: FtdiDevice<C>,
    config_desc: Seq<u8>,
    interface_idx: u8,
)
    ensures
        match found_ftdi(config_desc, interface_idx) {
            Some(info) => {
                let opening = device.port_started(config_desc, interface_idx)->Ok_0;
                &&& device.port_started(config_desc, interface_idx) is Ok
                &&& opening.bulk_in.endpoint.ep_type == EndpointType::Bulk
                &&& opening.bulk_in.endpoint.interval_ms == 0
                &&& opening.bulk_in.endpoint.addr == 128 + info.bulk_in_ep % 16
                &&& opening.bulk_in.endpoint.max_packet_size == info.bulk_in_mps
                &&& opening.bulk_in.device_address == device.device_address
                &&& opening.bulk_in.split == device.split
                &&& opening.bulk_out.endpoint.ep_type == EndpointType::Bulk
                &&& opening.bulk_out.endpoint.interval_ms == 0
                &&& opening.bulk_out.endpoint.addr == info.bulk_out_ep % 16
                &&& opening.bulk_out.endpoint.max_packet_size == info.bulk_out_mps
                &&& opening.bulk_out.device_address == device.device_address
                &&& opening.bulk_out.split == device.split
                &&& opening.port_index == interface_idx + 1
                &&& opening.in_mps == info.bulk_in_mps
            },
            None => device.port_started(config_desc, interface_idx) == Err::<
                PortOpening,
                FtdiError,
            >(FtdiError::NoInterface),
        },
{
}

/// A channel that waits for a pipe keeps what it has and takes the pipe it is
/// given; where it is given none, it fails with `NoPipe`, whatever the reason.
pub proof fn law_waiting_channel_takes_its_pipes<I, O>(
    opening: PortOpening,
    half: PortHalfOpen<I>,
    in_ch: I,
    out_ch: O,
    reason: HostError,
)
    ensures
        opening.after_bulk_in(Ok(in_ch)) is Ok,
        opening.after_bulk_in(Ok(in_ch))->Ok_0.in_ch == in_ch,
        opening.after_bulk_in(Ok(in_ch))->Ok_0.opening == opening,
        opening.after_bulk_in::<I>(Err(reason)) == Err::<PortHalfOpen<I>, FtdiError>(
            FtdiError::NoPipe,
        ),
        half.after_bulk_out(Ok(out_ch)) is Ok,
        half.after_bulk_out(Ok(out_ch))->Ok_0.in_ch == half.in_ch,
        half.after_bulk_out(Ok(out_ch))->Ok_0.out_ch == out_ch,
        half.after_bulk_out(Ok(out_ch))->Ok_0.port_index == half.opening.port_index,
        half.after_bulk_out(Ok(out_ch))->Ok_0.in_mps == half.opening.in_mps,
        half.after_bulk_out::<O>(Err(reason)) == Err::<FtdiPort<I, O>, FtdiError>(
            FtdiError::NoPipe,
        ),
{
}

} // verus!
