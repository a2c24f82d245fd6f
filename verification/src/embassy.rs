//! Sharing the root port: what lives outside the bus lock, and the handles on it.

use crate::bus::DeviceEvent;
use crate::frame_timer::{FrameTick, IdleTask, StartFrameTimer};
use crate::packet::MAX_DATA_PAYLOAD_BYTES;
use crate::pipe::{PioPipe, TimeoutConfig};
use crate::reset::BusReset;
use vstd::prelude::*;

verus! {

/// Shared state of the root port that is readable without the bus lock.
///
/// Lets the frame-timer interrupt tell, when a transfer holds the bus at a frame boundary,
/// whether that transfer already sent the frame's SOF.
#[derive(Clone, Copy, Debug, PartialEq, Eq)]
pub struct Bus {
    /// Set once SOFs come from hardware: the frame-timer interrupt then only prepares the
    /// next SOF, shortly after each boundary.
    pub hw_sof: bool,
    /// Timer slot of the most recent SOF.
    pub last_sof_slot: u32,
    /// Set while the root port is held in reset: no SOF can be sent.
    pub sof_paused: bool,
}

impl Bus {
    /// Nothing sent yet.
    pub fn new() -> (bus: Bus)
        ensures
            bus == (Bus { hw_sof: false, last_sof_slot: u32::MAX, sof_paused: false }),
    {
        Bus { hw_sof: false, last_sof_slot: u32::MAX, sof_paused: false }
    }

    /// Obtain the root-port controller handle.
    pub fn controller<'a>(&'a self) -> (controller: PioUsbController<'a>)
        ensures
            controller.shared == self,
    {
        PioUsbController { shared: self }
    }

    /// Start timer-driven SOFs: arm the frame alarm for every 1 ms boundary and enable its
    /// interrupt, whose handler must run [`Bus::on_frame_timer`].
    pub fn start_frame_timer(&self) -> (start: StartFrameTimer)
        ensures
            start == (StartFrameTimer { phase: crate::frame_timer::StartPhase::Clearing }),
    {
        StartFrameTimer::start()
    }

    /// Record that SOFs come from hardware from now on. `locked` tells whether the bus could
    /// be taken for [`crate::sof_switch::EnableHwSof`]; `false` if a transfer holds it.
    pub fn enable_hw_sof(&mut self, locked: bool) -> (enabled: bool)
        ensures
            enabled == locked,
            *final(self) == (Bus { hw_sof: old(self).hw_sof || locked, ..*old(self) }),
    {
        if !locked {
            return false;
        }
        self.hw_sof = true;
        true
    }

    /// Frame-timer interrupt body: send this frame's SOF and re-arm for the next frame.
    pub fn on_frame_timer(&self) -> (tick: FrameTick)
        ensures
            tick == (FrameTick { phase: crate::frame_timer::TickPhase::Clearing }),
    {
        FrameTick::start()
    }

    /// The keep-alive task, to run for as long as the bus is in use.
    pub fn idle_task(&self) -> (task: IdleTask)
        ensures
            task == IdleTask::Locking,
    {
        IdleTask::Locking
    }

    /// Record the slot of an SOF just sent.
    pub fn sof_sent(&mut self, slot: u32)
        ensures
            *final(self) == (Bus { last_sof_slot: slot, ..*old(self) }),
    {
        self.last_sof_slot = slot;
    }

    /// Record whether SOFs are paused.
    pub fn pause_sof(&mut self, paused: bool)
        ensures
            *final(self) == (Bus { sof_paused: paused, ..*old(self) }),
    {
        self.sof_paused = paused;
    }
}

/// Transfer type of an endpoint.
#[derive(Clone, Copy, Debug, PartialEq, Eq, Structural)]
pub enum EndpointType {
    Control,
    Isochronous,
    Bulk,
    Interrupt,
}

/// What the host stack knows of an endpoint.
#[derive(Clone, Copy, Debug, PartialEq, Eq)]
pub struct EndpointInfo {
    /// Endpoint address, with its direction bit.
    pub addr: u8,
    /// Transfer type.
    pub ep_type: EndpointType,
    /// Maximum packet size, in bytes.
    pub max_packet_size: u16,
    /// Polling interval, in milliseconds.
    pub interval_ms: u8,
}

/// Why a pipe cannot be allocated.
#[derive(Clone, Copy, Debug, PartialEq, Eq, Structural)]
pub enum HostError {
    /// The device is reached through a hub at another speed.
    SplitUnsupported,
    /// The pipe's type is not that of the endpoint.
    TypeMismatch,
    /// The endpoint is isochronous.
    IsochronousUnsupported,
    /// The maximum packet size is zero or above that of a full-speed endpoint.
    PacketSizeUnsupported,
}

impl HostError {
    /// Description of the error.
    pub fn message(&self) -> (text: &'static str)
        ensures
            text@ == (match *self {
                HostError::SplitUnsupported =>
                    "split transactions (LS-via-hub PRE / HS TT) unsupported"@,
                HostError::TypeMismatch => "pipe and endpoint types do not match"@,
                HostError::IsochronousUnsupported => "isochronous endpoints unsupported"@,
                HostError::PacketSizeUnsupported => "unsupported endpoint maximum packet size"@,
            }),
    {
        match self {
            HostError::SplitUnsupported => "split transactions (LS-via-hub PRE / HS TT) unsupported",
            HostError::TypeMismatch => "pipe and endpoint types do not match",
            HostError::IsochronousUnsupported => "isochronous endpoints unsupported",
            HostError::PacketSizeUnsupported => "unsupported endpoint maximum packet size",
        }
    }
}

/// `EndpointAddress::index` of `embassy-usb-driver`: the address without its direction
/// bit.
#[verifier::external_body]
fn endpoint_index(addr: u8) -> (index: usize)
    ensures
        index == addr & 0x7f,
{
    embassy_usb_driver::EndpointAddress::from(addr).index()
}

/// Pipe allocator handle.
#[derive(Clone, Copy, Debug, PartialEq, Eq)]
pub struct PioUsbAllocator<'a> {
    /// Shared root-port state.
    pub shared: &'a Bus,
}

/// Why an endpoint cannot have a pipe of a type, if it cannot.
pub open spec fn alloc_error(
    endpoint: EndpointInfo,
    pipe_type: EndpointType,
    split: bool,
) -> Option<HostError> {
    if split {
        Some(HostError::SplitUnsupported)
    } else if endpoint.ep_type != pipe_type {
        Some(HostError::TypeMismatch)
    } else if endpoint.ep_type == EndpointType::Isochronous {
        Some(HostError::IsochronousUnsupported)
    } else if endpoint.max_packet_size == 0 || endpoint.max_packet_size > 64 {
        Some(HostError::PacketSizeUnsupported)
    } else {
        None
    }
}

/// Polling interval of an endpoint in microseconds: at least one frame.
pub open spec fn interval_us_spec(interval_ms: u8) -> int {
    if interval_ms == 0 {
        1000
    } else {
        interval_ms * 1000
    }
}

/// The pipe of an endpoint of the device at `addr`.
pub open spec fn allocated(addr: u8, endpoint: EndpointInfo) -> PioPipe {
    PioPipe {
        addr,
        ep: endpoint.addr & 0x7f,
        mps: endpoint.max_packet_size,
        interval_us: interval_us_spec(endpoint.interval_ms) as u32,
        toggle_data1: false,
        timeout: TimeoutConfig { data_ms: 500, no_data_ms: 50 },
    }
}

impl<'a> PioUsbAllocator<'a> {
    /// Allocate a pipe of a type for an endpoint of the device at `addr`. `split` tells
    /// whether the device would have to be reached by split transactions or a PRE prefix.
    pub fn alloc_pipe(
        &self,
        addr: u8,
        endpoint: &EndpointInfo,
        pipe_type: EndpointType,
        split: bool,
    ) -> (pipe: Result<PioPipe, HostError>)
        ensures
            pipe matches Err(err) ==> alloc_error(*endpoint, pipe_type, split) == Some(err),
            pipe matches Ok(p) ==> ({
                &&& alloc_error(*endpoint, pipe_type, split) is None
                &&& p.wf()
                &&& p == allocated(addr, *endpoint)
                &&& p == (PioPipe {
                    addr,
                    ep: endpoint.addr & 0x7f,
                    mps: endpoint.max_packet_size,
                    interval_us: interval_us_spec(endpoint.interval_ms) as u32,
                    toggle_data1: false,
                    timeout: TimeoutConfig { data_ms: 500, no_data_ms: 50 },
                })
            }),
    {
        if split {
            return Err(HostError::SplitUnsupported);
        }
        if endpoint.ep_type != pipe_type {
            return Err(HostError::TypeMismatch);
        }
        if endpoint.ep_type == EndpointType::Isochronous {
            return Err(HostError::IsochronousUnsupported);
        }
        let mps: u16 = endpoint.max_packet_size;
        if mps == 0 || mps as usize > MAX_DATA_PAYLOAD_BYTES {
            return Err(HostError::PacketSizeUnsupported);
        }
        let index: usize = endpoint_index(endpoint.addr);
        let ep_addr: u8 = endpoint.addr;
        assert(ep_addr & 0x7f <= 0x7f) by (bit_vector);
        let millis: u32 = endpoint.interval_ms as u32 * 1000;
        let interval_us: u32 = if millis < 1000 {
            1000
        } else {
            millis
        };
        Ok(
            PioPipe {
                addr,
                ep: index as u8,
                mps,
                interval_us,
                toggle_data1: false,
                timeout: TimeoutConfig::default(),
            },
        )
    }
}

/// What waiting for a device event does next.
#[derive(Clone, Copy, Debug, PartialEq, Eq)]
pub enum WaitStep {
    /// Sleep this long with the bus released, then poll again.
    Sleep { us: u32 },
    /// Report the change.
    Report(DeviceEvent),
}

/// Root-port controller.
#[derive(Clone, Copy, Debug, PartialEq, Eq)]
pub struct PioUsbController<'a> {
    /// Shared root-port state.
    pub shared: &'a Bus,
}

impl<'a> PioUsbController<'a> {
    /// Return an allocator handle.
    pub fn allocator(&self) -> (allocator: PioUsbAllocator<'a>)
        ensures
            allocator.shared == self.shared,
    {
        PioUsbAllocator { shared: self.shared }
    }

    /// Force a reset of the root port.
    pub fn bus_reset(&self) -> (reset: BusReset)
        ensures
            reset == (BusReset { phase: crate::reset::Phase::Pausing }),
    {
        BusReset::start()
    }

    /// After one [`crate::reset::PollDevice`]: report its change, or poll again in the next
    /// frame.
    pub fn wait_for_device_event(&self, polled: Option<DeviceEvent>) -> (step: WaitStep)
        ensures
            step == (match polled {
                Some(event) => WaitStep::Report(event),
                None => WaitStep::Sleep { us: 1000 },
            }),
    {
        match polled {
            Some(event) => WaitStep::Report(event),
            None => WaitStep::Sleep { us: crate::frame::FRAME_INTERVAL_US },
        }
    }
}

} // verus!
