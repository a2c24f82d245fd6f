//! Endpoint pipes.

use crate::bus::PipeError;
use crate::clock::{deadline, deadline_fits};
use crate::packet::MAX_DATA_PAYLOAD_BYTES;
use crate::transfer::{
    ControlIn, ControlInPhase, ControlOut, ControlOutPhase, RequestIn, RequestOut, RequestOutPhase,
};
use vstd::prelude::*;

verus! {

/// Timeouts of a control pipe, in whole milliseconds.
#[derive(Clone, Copy, Debug, PartialEq, Eq)]
pub struct TimeoutConfig {
    /// For transfers with a DATA stage.
    pub data_ms: u64,
    /// For transfers without one.
    pub no_data_ms: u64,
}

/// `TimeoutConfig::default` of `embassy-usb-driver`, its two durations in milliseconds:
/// 500 with a DATA stage, 50 without.
#[verifier::external_body]
fn default_timeouts() -> (millis: (u64, u64))
    ensures
        millis == (500u64, 50u64),
{
    let config = embassy_usb_driver::host::TimeoutConfig::default();
    (config.data_timeout.as_millis() as u64, config.no_data_timeout.as_millis() as u64)
}

impl Default for TimeoutConfig {
    /// The timeouts of a new pipe.
    fn default() -> (config: TimeoutConfig)
        ensures
            config == (TimeoutConfig { data_ms: 500, no_data_ms: 50 }),
    {
        let (data_ms, no_data_ms) = default_timeouts();
        TimeoutConfig { data_ms, no_data_ms }
    }
}

/// A single endpoint pipe: the addressing of its tokens, its data toggle and its timeouts.
#[derive(Clone, Copy, Debug, PartialEq, Eq)]
pub struct PioPipe {
    /// USB device address.
    pub addr: u8,
    /// Endpoint number without direction bit.
    pub ep: u8,
    /// Endpoint maximum packet size.
    pub mps: u16,
    /// Polling interval, in microseconds.
    pub interval_us: u32,
    /// Next data toggle (`true`: DATA1).
    pub toggle_data1: bool,
    /// Timeouts of control transfers.
    pub timeout: TimeoutConfig,
}

/// Whether an OUT transfer of `len` bytes needs an empty packet to mark its end.
pub open spec fn needs_terminating_zlp_spec(
    len: nat,
    mps: nat,
    ensure_transaction_end: bool,
) -> bool {
    ensure_transaction_end && len != 0 && mps != 0 && len % mps == 0
}

/// Whether an OUT transfer of `len` bytes needs an empty packet to mark its end: the
/// caller asks for the mark, and the last packet is a full one.
pub fn needs_terminating_zlp(len: usize, mps: usize, ensure_transaction_end: bool) -> (needed: bool)
    ensures
        needed == needs_terminating_zlp_spec(len as nat, mps as nat, ensure_transaction_end),
{
    ensure_transaction_end && len != 0 && mps != 0 && len % mps == 0
}

/// The wLength field of a SETUP packet.
pub open spec fn setup_length_spec(setup: Seq<u8>) -> int {
    setup[6] + 256 * setup[7]
}

/// The wLength field of a SETUP packet: bytes 6 and 7, low byte first.
pub fn setup_length(setup: &[u8; 8]) -> (len: usize)
    ensures
        len == setup_length_spec(setup@),
        len <= 0xffff,
{
    setup[6] as usize + 256 * setup[7] as usize
}

/// Largest packet of a control DATA stage: the endpoint's, within 1 and 64.
pub open spec fn control_in_mps(mps: u16) -> usize {
    if mps == 0 {
        1
    } else if mps > 64 {
        64
    } else {
        mps as usize
    }
}

/// Largest packet of a control-OUT DATA stage: the endpoint's, at least 1.
pub open spec fn control_out_mps(mps: u16) -> usize {
    if mps == 0 {
        1
    } else {
        mps as usize
    }
}

impl PioPipe {
    /// Whether packets of the pipe fit on the bus and its polls are at least a frame apart.
    pub open spec fn wf(self) -> bool {
        1 <= self.mps <= 64 && self.interval_us >= 1000
    }

    /// The timeout of a control-OUT transfer of `len` bytes.
    pub open spec fn out_timeout(self, len: nat) -> u64 {
        if len == 0 {
            self.timeout.no_data_ms
        } else {
            self.timeout.data_ms
        }
    }

    /// A control-IN transfer into a buffer of `room` bytes, begun at executor time `now`.
    pub open spec fn control_in_begun(self, setup: Seq<u8>, room: usize, now: u64) -> Result<
        ControlIn,
        PipeError,
    > {
        if setup_length_spec(setup) > room {
            Err(PipeError::BufferOverflow)
        } else {
            Ok(
                ControlIn {
                    room,
                    wlen: setup_length_spec(setup) as usize,
                    mps: control_in_mps(self.mps),
                    deadline: (now + self.timeout.data_ms * 1000) as u64,
                    total: 0,
                    data1: true,
                    phase: ControlInPhase::Setup,
                },
            )
        }
    }

    /// A control-OUT transfer of `len` bytes, begun at executor time `now`.
    pub open spec fn control_out_begun(self, len: usize, now: u64) -> ControlOut {
        ControlOut {
            len,
            mps: control_out_mps(self.mps),
            deadline: (now + self.out_timeout(len as nat) * 1000) as u64,
            sent: 0,
            data1: true,
            phase: ControlOutPhase::Setup,
        }
    }

    /// An interrupt or bulk OUT transfer of `len` bytes, begun.
    pub open spec fn request_out_begun(self, len: usize, ensure_transaction_end: bool) -> RequestOut {
        RequestOut {
            len,
            mps: self.mps as usize,
            zlp: len == 0 || needs_terminating_zlp_spec(
                len as nat,
                self.mps as nat,
                ensure_transaction_end,
            ),
            sent: 0,
            phase: if len == 0 {
                RequestOutPhase::Terminating
            } else {
                RequestOutPhase::Sending
            },
        }
    }

    /// Begin a control-IN transfer into a buffer of `room` bytes at executor time `now`.
    ///
    /// wLength also ends the DATA stage (not only a short packet): needed when the pipe's
    /// packet size differs from the device's real one, e.g. the first descriptor read.
    pub fn control_in(&self, setup: &[u8; 8], room: usize, now: u64) -> (transfer: Result<
        ControlIn,
        PipeError,
    >)
        requires
            deadline_fits(now, self.timeout.data_ms),
        ensures
            transfer == self.control_in_begun(setup@, room, now),
            transfer matches Ok(t) ==> t.wf(),
    {
        let deadline: u64 = deadline(now, self.timeout.data_ms);
        let wlen: usize = setup_length(setup);
        if wlen > room {
            return Err(PipeError::BufferOverflow);
        }
        let mps: usize = if self.mps == 0 {
            1
        } else if self.mps as usize > MAX_DATA_PAYLOAD_BYTES {
            MAX_DATA_PAYLOAD_BYTES
        } else {
            self.mps as usize
        };
        Ok(
            ControlIn {
                room,
                wlen,
                mps,
                deadline,
                total: 0,
                data1: true,
                phase: ControlInPhase::Setup,
            },
        )
    }

    /// Begin a control-OUT transfer of `len` bytes at executor time `now`.
    ///
    /// Writes without a DATA stage have a timeout of their own.
    pub fn control_out(&self, len: usize, now: u64) -> (transfer: ControlOut)
        requires
            deadline_fits(now, self.out_timeout(len as nat)),
        ensures
            transfer == self.control_out_begun(len, now),
            transfer.wf(),
    {
        let millis: u64 = if len == 0 {
            self.timeout.no_data_ms
        } else {
            self.timeout.data_ms
        };
        let deadline: u64 = deadline(now, millis);
        let mps: usize = if self.mps == 0 {
            1
        } else {
            self.mps as usize
        };
        ControlOut { len, mps, deadline, sent: 0, data1: true, phase: ControlOutPhase::Setup }
    }

    /// Begin an interrupt or bulk IN transfer.
    pub fn request_in(&self) -> (transfer: RequestIn)
        ensures
            transfer == RequestIn::Polling,
    {
        RequestIn::Polling
    }

    /// Begin an interrupt or bulk OUT transfer of `len` bytes.
    pub fn request_out(&self, len: usize, ensure_transaction_end: bool) -> (transfer: RequestOut)
        requires
            self.mps > 0,
        ensures
            transfer == self.request_out_begun(len, ensure_transaction_end),
            transfer.wf(),
    {
        let mps: usize = self.mps as usize;
        let zlp = len == 0 || needs_terminating_zlp(len, mps, ensure_transaction_end);
        RequestOut {
            len,
            mps,
            zlp,
            sent: 0,
            phase: if len == 0 {
                RequestOutPhase::Terminating
            } else {
                RequestOutPhase::Sending
            },
        }
    }

    /// Replace the timeouts.
    pub fn set_timeout(&mut self, timeout: TimeoutConfig)
        ensures
            *final(self) == (PioPipe { timeout, ..*old(self) }),
    {
        self.timeout = timeout;
    }

    /// Return the data toggle to DATA0.
    pub fn reset_data_toggle(&mut self)
        ensures
            *final(self) == (PioPipe { toggle_data1: false, ..*old(self) }),
    {
        self.toggle_data1 = false;
    }
}

} // verus!
