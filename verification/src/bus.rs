//! State of the root port: speed, attachment, debounce, and the SOF schedule.
//!
//! A USB bus made of one PIO block and two adjacent GPIOs. This module holds what the bus
//! remembers and every decision it makes at one instant; the operations that span several
//! hardware steps are the machines of [`crate::transaction`], [`crate::keepalive`] and
//! [`crate::reset`].

use crate::frame::{elapsed, elapsed_spec, slot, slot_spec, FRAME_INTERVAL_US, MIN_SOF_SPACING_US};
use crate::hw_sof::{DmaProgram, HwSof, PwmProgram};
use crate::io::Event;
use vstd::prelude::*;

verus! {

/// Debounce threshold: a device has to be seen for this many frames (net) before it
/// counts as attached.
pub const DEBOUNCE_FRAMES: u32 = 15;

/// Debounce cap: the accumulator of frames with a device does not grow beyond this, and a
/// device has to be unplugged for at least this many frames before it counts as detached.
pub const DEBOUNCE_CAP: u32 = 60;

/// Continuous idle (J) that marks the end of a device packet. Inside a packet the line
/// holds a state for at most 7 bit times.
pub const BUS_IDLE_US: u32 = 2;

/// Upper bound for settling after a bad reply: longer than a maximum-size full-speed
/// packet with worst-case bit stuffing.
pub const BUS_IDLE_TIMEOUT_US: u32 = 100;

/// Signalling speed of a device or port.
#[derive(Clone, Copy, Debug, PartialEq, Eq, Structural)]
pub enum Speed {
    /// 1.5 Mbit/s
    Low,
    /// 12 Mbit/s
    Full,
    /// 480 Mbit/s
    High,
}

/// Pull-down configuration for the USB bus.
///
/// The USB specification mandates 15k pull-downs on D+/D- to detect device presence.
/// External resistors are preferable, as the internal pull-downs do not meet it.
#[derive(Clone, Copy, Debug, PartialEq, Eq, Structural)]
pub enum Pulldown {
    /// Enable the chip's internal D+/D- pull-downs.
    Internal,
    /// Leave D+/D- pull-downs to external resistors.
    External,
}

/// Pull setting of a pad.
#[derive(Clone, Copy, Debug, PartialEq, Eq, Structural)]
pub enum Pull {
    /// No pull resistor.
    Floating,
    /// Pull-down enabled.
    Down,
}

impl Pulldown {
    /// Pull setting of both pads.
    pub fn pad_pull(self) -> (pull: Pull)
        ensures
            pull == (match self {
                Pulldown::Internal => Pull::Down,
                Pulldown::External => Pull::Floating,
            }),
    {
        match self {
            Pulldown::Internal => Pull::Down,
            Pulldown::External => Pull::Floating,
        }
    }
}

/// Why a transaction or transfer failed.
#[derive(Clone, Copy, Debug, PartialEq, Eq, Structural)]
pub enum PipeError {
    /// The packet is too long to fit in the buffer.
    BufferOverflow,
    /// The device answered with something the stage does not allow.
    BadResponse,
    /// The device sent more data than expected.
    Babble,
    /// The endpoint is stalled.
    Stall,
    /// The device did not respond in time.
    Timeout,
}

/// Attachment change of the root port.
#[derive(Clone, Copy, Debug, PartialEq, Eq, Structural)]
pub enum DeviceEvent {
    /// A device has become attached.
    Connected(Speed),
    /// The device has been detached.
    Disconnected,
}

/// How a packet reception ended.
#[derive(Clone, Copy, Debug, PartialEq, Eq, Structural)]
pub enum RxPacketStatus {
    /// A DATA packet whose CRC16 and PID checks passed.
    ValidData,
    /// The packet did not fit in the buffer.
    Overflow,
    /// Anything else: a handshake, a damaged packet, or nothing.
    Other,
}

/// Physical USB bus: what it remembers between hardware accesses.
#[derive(Clone, Copy, Debug, PartialEq, Eq)]
pub struct Bus {
    /// The speed the transport is currently configured for.
    pub speed: Speed,
    /// Whether a device is currently attached to the bus.
    pub attached: bool,
    /// Saturating attach/detach debounce accumulator.
    pub debounce: u32,
    /// Frames without the device since it was attached, up to [`DEBOUNCE_CAP`].
    pub absent: u32,
    /// Timer reading of the last packet put on the bus.
    pub last_activity: u32,
    /// Timer reading of the last SOF sent.
    pub last_sof: u32,
    /// 1 ms timer slot of the last SOF sent; its low 11 bits are the frame number.
    pub sof_slot: u32,
    /// Whether the SOF state machine is still free for [`Bus::enable_hw_sof`].
    pub sof_sm: bool,
    /// Hardware-timed SOF, once enabled.
    pub hw_sof: Option<HwSof>,
}

/// The speed that the idle line state shows.
///
/// A full-speed device pulls D+ high, a low-speed device pulls D- high (USB 2.0 section
/// 7.1.5.1). The inputs are inverted, so a high line reads as `false`.
pub open spec fn line_speed(dp: bool, dm: bool) -> Option<Speed> {
    if !dp && dm {
        Some(Speed::Full)
    } else if dp && !dm {
        Some(Speed::Low)
    } else {
        None
    }
}

/// The debounce accumulator after one more sample.
pub open spec fn debounced(debounce: u32, present: bool) -> int {
    if present {
        if debounce < DEBOUNCE_CAP {
            debounce + 1
        } else {
            DEBOUNCE_CAP as int
        }
    } else if debounce > 0 {
        debounce - 1
    } else {
        0
    }
}

/// The frames without the attached device after one more sample.
pub open spec fn absent_after(absent: u32, attached: bool, present: bool) -> int {
    if attached && !present && absent < DEBOUNCE_CAP {
        absent + 1
    } else {
        absent as int
    }
}

/// Whether two GPIO numbers are adjacent.
pub open spec fn adjacent_spec(dp: u8, dm: u8) -> bool {
    dp == dm + 1 || dm == dp + 1
}

/// Whether two GPIOs can serve as D+ and D-: the bus requires adjacent pins.
pub fn adjacent(dp: u8, dm: u8) -> (b: bool)
    ensures
        b == adjacent_spec(dp, dm),
{
    if dp > dm {
        dp - dm == 1
    } else {
        dm - dp == 1
    }
}

/// Sense the attached device speed from the input levels of the idle line.
///
/// `None` for SE0 (no device) and for transient invalid states.
pub fn detect_speed(dp: bool, dm: bool) -> (speed: Option<Speed>)
    ensures
        speed == line_speed(dp, dm),
{
    let dp_high = !dp;
    let dm_high = !dm;
    match (dp_high, dm_high) {
        (true, false) => Some(Speed::Full),
        (false, true) => Some(Speed::Low),
        _ => None,
    }
}

impl Bus {
    /// Consistency of the bus state: the debounce accumulator and the count of frames
    /// without the device are within their cap, the count is zero while no device is
    /// attached, the SOF state machine has one owner, and hardware SOFs run at full speed
    /// only.
    pub open spec fn wf(self) -> bool {
        &&& self.debounce <= DEBOUNCE_CAP
        &&& self.absent <= DEBOUNCE_CAP
        &&& !self.attached ==> self.absent == 0
        &&& self.hw_sof matches Some(hw) ==> hw.wf() && !self.sof_sm && (hw.armed ==> self.speed
            == Speed::Full)
    }

    /// Whether the counter word that a frame position is measured from is within the period
    /// of the hardware SOF.
    pub open spec fn counter_readable(self, event: Event) -> bool {
        self.hw_sof matches Some(hw) ==> match event {
            Event::Counter(counter) => hw.counter_valid(counter),
            _ => true,
        }
    }

    /// Whether a full-speed device is attached.
    pub open spec fn full_speed(self) -> bool {
        self.attached && self.speed == Speed::Full
    }

    /// Whether SOFs are currently sent by the hardware path.
    pub open spec fn hw_active(self) -> bool {
        self.hw_sof matches Some(hw) && hw.armed
    }

    /// Whether the SOF of the slot of `now` is due: not sent yet, and far enough from the
    /// previous SOF.
    pub open spec fn sof_due(self, now: u32) -> bool {
        &&& self.full_speed()
        &&& slot_spec(now) != self.sof_slot
        &&& elapsed_spec(self.last_sof, now) >= MIN_SOF_SPACING_US
    }

    /// The bus after the SOF of the slot of `now`.
    pub open spec fn sof_sent(self, now: u32) -> Bus {
        Bus { sof_slot: slot_spec(now), last_sof: now, last_activity: now, ..self }
    }

    /// The bus after [`Bus::sof_if_due`].
    pub open spec fn sof_checked(self, now: u32) -> Bus {
        if self.sof_due(now) {
            self.sof_sent(now)
        } else {
            self
        }
    }

    /// The bus with its activity stamped.
    pub open spec fn stamped(self, now: u32) -> Bus {
        Bus { last_activity: now, ..self }
    }

    /// The bus with its hardware SOF, if it has one, switched on or off.
    pub open spec fn sof_switched(self, on: bool) -> Bus {
        Bus {
            hw_sof: match self.hw_sof {
                Some(hw) => Some(hw.switched(on)),
                None => None,
            },
            ..self
        }
    }

    /// The bus after the hardware SOF was serviced.
    pub open spec fn sof_serviced(self, counter: u32, now: u32) -> Bus {
        Bus {
            hw_sof: match self.hw_sof {
                Some(hw) => Some(hw.serviced(counter, now)),
                None => None,
            },
            ..self
        }
    }

    /// The slot that servicing the hardware SOF prepares, if any.
    pub open spec fn sof_service_due(self, counter: u32, now: u32) -> Option<u32> {
        match self.hw_sof {
            Some(hw) => hw.service_due(counter, now),
            None => None,
        }
    }

    /// Whether a low-speed keep-alive is due.
    pub open spec fn keepalive_due(self, now: u32) -> bool {
        elapsed_spec(self.last_activity, now) >= FRAME_INTERVAL_US
    }

    /// What a debounce sample reports.
    pub open spec fn poll_event(self, dp: bool, dm: bool) -> Option<DeviceEvent> {
        let speed = line_speed(dp, dm);
        let debounce = debounced(self.debounce, speed is Some);
        let absent = absent_after(self.absent, self.attached, speed is Some);
        if !self.attached && debounce >= DEBOUNCE_FRAMES && speed is Some {
            Some(DeviceEvent::Connected(speed->0))
        } else if self.attached && debounce == 0 && speed is None && absent >= DEBOUNCE_CAP {
            Some(DeviceEvent::Disconnected)
        } else {
            None
        }
    }

    /// The bus after a debounce sample.
    pub open spec fn polled(self, dp: bool, dm: bool) -> Bus {
        let sampled = Bus {
            debounce: debounced(self.debounce, line_speed(dp, dm) is Some) as u32,
            absent: absent_after(self.absent, self.attached, line_speed(dp, dm) is Some) as u32,
            ..self
        };
        match self.poll_event(dp, dm) {
            Some(DeviceEvent::Connected(speed)) => Bus {
                speed,
                attached: true,
                ..sampled.sof_switched(false)
            },
            Some(DeviceEvent::Disconnected) => Bus {
                attached: false,
                absent: 0,
                ..sampled.sof_switched(false)
            },
            None => sampled,
        }
    }

    /// A port that nothing has happened on, at a timer reading.
    pub open spec fn untouched(sof_sm: bool, now: u32) -> Bus {
        Bus {
            speed: Speed::Full,
            attached: false,
            debounce: 0,
            absent: 0,
            last_activity: now,
            last_sof: now,
            sof_slot: slot_spec(now),
            sof_sm,
            hw_sof: None,
        }
    }

    /// Root port at a timer reading, on adjacent pins. `sof_sm` tells whether the chip can
    /// time SOFs in hardware.
    pub fn new(dp: u8, dm: u8, sof_sm: bool, now: u32) -> (bus: Bus)
        requires
            adjacent_spec(dp, dm),
        ensures
            bus == Bus::untouched(sof_sm, now),
            bus == (Bus {
                speed: Speed::Full,
                attached: false,
                debounce: 0,
                absent: 0,
                last_activity: now,
                last_sof: now,
                sof_slot: slot_spec(now),
                sof_sm,
                hw_sof: None,
            }),
            bus.wf(),
    {
        Bus {
            speed: Speed::Full,
            attached: false,
            debounce: 0,
            absent: 0,
            last_activity: now,
            last_sof: now,
            sof_slot: slot(now),
            sof_sm,
            hw_sof: None,
        }
    }

    /// Whether SOFs are currently sent by the hardware path.
    pub fn hw_sof_active(&self) -> (b: bool)
        ensures
            b == self.hw_active(),
    {
        match &self.hw_sof {
            Some(hw) => hw.armed(),
            None => false,
        }
    }

    /// Whether a full-speed device is attached.
    pub fn is_full_speed(&self) -> (b: bool)
        ensures
            b == self.full_speed(),
    {
        self.attached && self.speed == Speed::Full
    }

    /// Record that a packet was just transmitted.
    ///
    /// Any bus activity resets the attached device's 3 ms suspend timer (USB 2.0 section
    /// 7.1.7.6), so every transmit path stamps this.
    pub fn mark_activity(&mut self, now: u32)
        ensures
            *final(self) == old(self).stamped(now),
    {
        self.last_activity = now;
    }

    /// Claim the full-speed SOF of the current 1 ms frame if it has not been sent yet.
    /// Returns the slot whose SOF is to be transmitted.
    ///
    /// Frames are slots of the microsecond timer, so the mean SOF period is exactly 1 ms,
    /// and the frame number is the slot index. The spacing guard stops a late SOF at the
    /// end of one slot from being followed almost immediately by that of the next.
    pub fn sof_if_due(&mut self, now: u32) -> (due: Option<u32>)
        ensures
            due == (if old(self).sof_due(now) {
                Some(slot_spec(now))
            } else {
                None
            }),
            *final(self) == old(self).sof_checked(now),
    {
        if !self.is_full_speed() {
            return None;
        }
        let this_slot: u32 = slot(now);
        if this_slot != self.sof_slot && elapsed(self.last_sof, now) >= MIN_SOF_SPACING_US {
            self.sof_slot = this_slot;
            self.last_sof = now;
            self.mark_activity(now);
            Some(this_slot)
        } else {
            None
        }
    }

    /// Whether a low-speed keep-alive is due.
    pub fn ls_keepalive_due(&self, now: u32) -> (due: bool)
        ensures
            due == self.keepalive_due(now),
    {
        elapsed(self.last_activity, now) >= FRAME_INTERVAL_US
    }

    /// Switch the hardware SOF on or off, if there is one.
    /// Returns the DMA words to write, when switching on.
    pub fn hw_sof_arm(&mut self, on: bool) -> (dma: Option<DmaProgram>)
        requires
            old(self).hw_sof matches Some(hw) ==> hw.wf(),
        ensures
            *final(self) == old(self).sof_switched(on),
            dma == (match old(self).hw_sof {
                Some(hw) if on => Some(hw.dma_words()),
                _ => None,
            }),
    {
        match self.hw_sof {
            Some(hw) => {
                let mut hw = hw;
                let dma = hw.arm(on);
                self.hw_sof = Some(hw);
                dma
            },
            None => None,
        }
    }

    /// Prepare the next hardware SOF if due. Returns the slot to prepare.
    pub fn hw_sof_service(&mut self, counter: u32, now: u32) -> (due: Option<u32>)
        requires
            old(self).wf(),
        ensures
            due == old(self).sof_service_due(counter, now),
            *final(self) == old(self).sof_serviced(counter, now),
            final(self).wf(),
    {
        match self.hw_sof {
            Some(hw) => {
                let mut hw = hw;
                let due = hw.service(counter, now);
                self.hw_sof = Some(hw);
                due
            },
            None => None,
        }
    }

    /// Sample and debounce the root-port line state once.
    ///
    /// A connected event leaves the reset to the caller, who keeps the bus locked across
    /// the state transition and the reset.
    pub fn poll_device_event(&mut self, dp: bool, dm: bool) -> (event: Option<DeviceEvent>)
        requires
            old(self).wf(),
        ensures
            event == old(self).poll_event(dp, dm),
            *final(self) == old(self).polled(dp, dm),
            final(self).wf(),
    {
        let speed = detect_speed(dp, dm);
        if speed.is_some() {
            if self.debounce < DEBOUNCE_CAP {
                self.debounce = self.debounce + 1;
            }
        } else {
            self.debounce = self.debounce.saturating_sub(1);
            if self.attached && self.absent < DEBOUNCE_CAP {
                self.absent = self.absent + 1;
            }
        }
        if !self.attached && self.debounce >= DEBOUNCE_FRAMES {
            if let Some(speed) = speed {
                let _ = self.hw_sof_arm(false);
                self.speed = speed;
                self.attached = true;
                return Some(DeviceEvent::Connected(speed));
            }
        }
        if self.attached && self.debounce == 0 && speed.is_none() && self.absent >= DEBOUNCE_CAP {
            self.attached = false;
            self.absent = 0;
            let _ = self.hw_sof_arm(false);
            return Some(DeviceEvent::Disconnected);
        }
        None
    }

    /// Take the SOF state machine, a PWM slice and a DMA channel for hardware-timed SOFs.
    /// Once only; later calls return `None` without effect.
    pub fn enable_hw_sof(&mut self, slice: u8, dma_ch: u8, clk_sys: u32) -> (program: Option<
        PwmProgram,
    >)
        requires
            old(self).wf(),
            old(self).sof_sm ==> slice < crate::hw_sof::PWM_SLICES && dma_ch
                < crate::hw_sof::DMA_CHANNELS && crate::hw_sof::clock_usable(clk_sys),
        ensures
            final(self).wf(),
            !old(self).sof_sm ==> program is None && *final(self) == *old(self),
            old(self).sof_sm ==> ({
                &&& final(self).hw_sof matches Some(hw) && hw.slice == slice && hw.dma_ch == dma_ch
                    && !hw.armed && hw.prepared_slot is None
                &&& *final(self) == (Bus {
                    sof_sm: false,
                    hw_sof: final(self).hw_sof,
                    ..*old(self)
                })
                &&& exists|div: u32|
                    #![trigger crate::hw_sof::is_divider(clk_sys, div)]
                    crate::hw_sof::is_divider(clk_sys, div) && final(self).hw_sof->0.counts == (
                    clk_sys / 1000) / div && program == Some(final(self).hw_sof->0.pwm_words(div))
            }),
    {
        if !self.sof_sm {
            return None;
        }
        let (hw, program) = HwSof::new(slice, dma_ch, clk_sys);
        self.sof_sm = false;
        self.hw_sof = Some(hw);
        Some(program)
    }
}

} // verus!
