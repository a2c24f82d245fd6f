//! Root-port reset, and the attach/detach poll that leads to it.

use crate::bus::{Bus, DeviceEvent, Speed};
use crate::io::{answers, Action, Event};
use crate::keepalive::Keepalive;
use crate::sof_switch::SofSwitch;
use vstd::prelude::*;

verus! {

/// Root-port reset SE0 duration.
///
/// USB 2.0 section 7.1.7.5: a reset from a root port lasts at least 50 ms.
pub const RESET_SE0_US: u64 = 50_000;

/// Reset-recovery hold: after releasing reset, only keep-alives (no transactions) for this
/// many frames before talking to the device. USB 2.0 asks for at least 10 ms.
pub const RESET_RECOVERY_FRAMES: u32 = 15;

/// Where a reset stands.
#[derive(Clone, Copy, Debug, PartialEq, Eq)]
pub enum Phase {
    /// Announcing that SOFs are paused.
    Pausing,
    /// Switching the hardware SOF off: it must not write the pins over the SE0.
    Disarming { switch: SofSwitch },
    /// Driving SE0.
    Driving,
    /// Holding it.
    Holding,
    /// Releasing it.
    Releasing,
    /// Announcing that SOFs are no longer paused.
    Resuming,
    /// Switching the hardware SOF on again.
    Arming { switch: SofSwitch },
    /// Recovery frame `frame`: its keep-alive.
    Recovering { frame: u32, keepalive: Keepalive },
    /// Recovery frame `frame`: sleeping until the next one.
    RecoverySleep { frame: u32, next_us: u32 },
    /// Done.
    Finished,
}

/// One root-port reset.
#[derive(Clone, Copy, Debug, PartialEq, Eq)]
pub struct BusReset {
    /// Where it stands.
    pub phase: Phase,
}

impl BusReset {
    /// Where the reset stands with the switch that turns hardware SOFs off.
    pub open spec fn disarming(switch: SofSwitch) -> Phase {
        if switch.phase is Finished {
            Phase::Driving
        } else {
            Phase::Disarming { switch }
        }
    }

    /// Where the reset stands with the switch that turns hardware SOFs on.
    pub open spec fn arming(bus: Bus, switch: SofSwitch) -> Phase {
        if switch.phase is Finished {
            Self::recovery(bus, 0)
        } else {
            Phase::Arming { switch }
        }
    }

    /// Where the reset stands at the beginning of a recovery frame.
    pub open spec fn recovery(bus: Bus, frame: u32) -> Phase {
        if frame >= RESET_RECOVERY_FRAMES {
            Phase::Finished
        } else {
            Self::recovering(frame, Keepalive::begun(bus))
        }
    }

    /// Where the reset stands within a recovery frame.
    pub open spec fn recovering(frame: u32, keepalive: Keepalive) -> Phase {
        match keepalive.phase {
            crate::keepalive::Phase::Finished { next_us } => Phase::RecoverySleep {
                frame,
                next_us,
            },
            _ => Phase::Recovering { frame, keepalive },
        }
    }

    /// The action that the reset is waiting for.
    pub open spec fn asks(self) -> Action {
        match self.phase {
            Phase::Pausing => Action::PauseSof { paused: true },
            Phase::Disarming { switch } => switch.asks(),
            Phase::Driving => Action::DriveReset,
            Phase::Holding => Action::Sleep { us: RESET_SE0_US },
            Phase::Releasing => Action::ReleaseReset,
            Phase::Resuming => Action::PauseSof { paused: false },
            Phase::Arming { switch } => switch.asks(),
            Phase::Recovering { keepalive, .. } => keepalive.asks(),
            Phase::RecoverySleep { next_us, .. } => Action::Sleep { us: next_us as u64 },
            Phase::Finished => Action::Finished,
        }
    }

    /// The reset after an event.
    pub open spec fn next(self, bus: Bus, event: Event) -> BusReset {
        let phase = match (self.phase, event) {
            (Phase::Pausing, Event::Done) => Self::disarming(SofSwitch::begun(bus, false)),
            (Phase::Disarming { switch }, event) => Self::disarming(switch.next(bus, event)),
            (Phase::Driving, Event::Done) => Phase::Holding,
            (Phase::Holding, Event::Done) => Phase::Releasing,
            (Phase::Releasing, Event::Done) => Phase::Resuming,
            (Phase::Resuming, Event::Done) => if bus.speed == Speed::Full {
                Self::arming(bus, SofSwitch::begun(bus, true))
            } else {
                Self::recovery(bus, 0)
            },
            (Phase::Arming { switch }, event) => Self::arming(
                switch.next_bus(bus, event),
                switch.next(bus, event),
            ),
            (Phase::Recovering { frame, keepalive }, event) => Self::recovering(
                frame,
                keepalive.next(bus, event),
            ),
            (Phase::RecoverySleep { frame, .. }, Event::Done) => Self::recovery(
                bus,
                (frame + 1) as u32,
            ),
            _ => self.phase,
        };
        BusReset { phase }
    }

    /// The bus after an event.
    pub open spec fn next_bus(self, bus: Bus, event: Event) -> Bus {
        match self.phase {
            Phase::Disarming { switch } => switch.next_bus(bus, event),
            Phase::Arming { switch } => switch.next_bus(bus, event),
            Phase::Recovering { keepalive, .. } => keepalive.next_bus(bus, event),
            _ => bus,
        }
    }

    /// Whether the reset and its bus fit together.
    pub open spec fn allowed(self, bus: Bus) -> bool {
        match self.phase {
            Phase::Disarming { switch } => switch.allowed(bus),
            Phase::Arming { switch } => switch.allowed(bus),
            Phase::Recovering { frame, .. } => frame < RESET_RECOVERY_FRAMES,
            Phase::RecoverySleep { frame, .. } => frame < RESET_RECOVERY_FRAMES,
            _ => true,
        }
    }

    /// Begin a reset.
    pub fn start() -> (r: BusReset)
        ensures
            r == (BusReset { phase: Phase::Pausing }),
    {
        BusReset { phase: Phase::Pausing }
    }

    /// The action to perform next.
    pub fn action(&self) -> (action: Action)
        ensures
            action == self.asks(),
    {
        match &self.phase {
            Phase::Pausing => Action::PauseSof { paused: true },
            Phase::Disarming { switch } => switch.action(),
            Phase::Driving => Action::DriveReset,
            Phase::Holding => Action::Sleep { us: RESET_SE0_US },
            Phase::Releasing => Action::ReleaseReset,
            Phase::Resuming => Action::PauseSof { paused: false },
            Phase::Arming { switch } => switch.action(),
            Phase::Recovering { keepalive, .. } => keepalive.action(),
            Phase::RecoverySleep { next_us, .. } => Action::Sleep { us: *next_us as u64 },
            Phase::Finished => Action::Finished,
        }
    }

    /// Take in what the action brought.
    pub fn step(&mut self, bus: &mut Bus, event: Event)
        requires
            old(bus).wf(),
            old(self).allowed(*old(bus)),
            answers(old(self).asks(), event),
            old(bus).counter_readable(event),
        ensures
            *final(self) == old(self).next(*old(bus), event),
            *final(bus) == old(self).next_bus(*old(bus), event),
            final(bus).wf(),
            final(self).allowed(*final(bus)),
    {
        match (self.phase, event) {
            (Phase::Pausing, Event::Done) => {
                self.phase = disarm(SofSwitch::start(bus, false));
            },
            (Phase::Disarming { switch }, event) => {
                let mut switch = switch;
                switch.step(bus, event);
                self.phase = disarm(switch);
            },
            (Phase::Driving, Event::Done) => {
                self.phase = Phase::Holding;
            },
            (Phase::Holding, Event::Done) => {
                self.phase = Phase::Releasing;
            },
            (Phase::Releasing, Event::Done) => {
                self.phase = Phase::Resuming;
            },
            (Phase::Resuming, Event::Done) => {
                self.phase =
                if bus.speed == Speed::Full {
                    arm(bus, SofSwitch::start(bus, true))
                } else {
                    recover(bus, 0)
                };
            },
            (Phase::Arming { switch }, event) => {
                let mut switch = switch;
                switch.step(bus, event);
                self.phase = arm(bus, switch);
            },
            (Phase::Recovering { frame, keepalive }, event) => {
                let mut keepalive = keepalive;
                keepalive.step(bus, event);
                self.phase = in_recovery(frame, keepalive);
            },
            (Phase::RecoverySleep { frame, .. }, Event::Done) => {
                self.phase = recover(bus, frame + 1);
            },
            _ => {},
        }
    }
}

fn disarm(switch: SofSwitch) -> (phase: Phase)
    ensures
        phase == BusReset::disarming(switch),
{
    match switch.phase {
        crate::sof_switch::Phase::Finished => Phase::Driving,
        _ => Phase::Disarming { switch },
    }
}

fn arm(bus: &Bus, switch: SofSwitch) -> (phase: Phase)
    ensures
        phase == BusReset::arming(*bus, switch),
{
    match switch.phase {
        crate::sof_switch::Phase::Finished => recover(bus, 0),
        _ => Phase::Arming { switch },
    }
}

fn recover(bus: &Bus, frame: u32) -> (phase: Phase)
    ensures
        phase == BusReset::recovery(*bus, frame),
{
    if frame >= RESET_RECOVERY_FRAMES {
        Phase::Finished
    } else {
        in_recovery(frame, Keepalive::start(bus))
    }
}

fn in_recovery(frame: u32, keepalive: Keepalive) -> (phase: Phase)
    ensures
        phase == BusReset::recovering(frame, keepalive),
{
    match keepalive.next_us() {
        Some(next_us) => Phase::RecoverySleep { frame, next_us },
        None => Phase::Recovering { frame, keepalive },
    }
}

/// Where a poll of the root port stands.
#[derive(Clone, Copy, Debug, PartialEq, Eq)]
pub enum PollPhase {
    /// Sampling the line.
    Sampling,
    /// Device change: switching the hardware SOF off.
    Disarming { change: DeviceEvent, switch: SofSwitch },
    /// Attached: setting the speed.
    SettingSpeed { speed: Speed },
    /// Attached: resetting the device.
    Resetting { speed: Speed, reset: BusReset },
    /// Detached: releasing the bus.
    Releasing,
    /// Done.
    Finished { event: Option<DeviceEvent> },
}

/// One poll of the root port, up to and including the reset of a device just attached.
#[derive(Clone, Copy, Debug, PartialEq, Eq)]
pub struct PollDevice {
    /// Where it stands.
    pub phase: PollPhase,
}

impl PollDevice {
    /// Where the poll stands with the switch that turns hardware SOFs off.
    pub open spec fn disarming(change: DeviceEvent, switch: SofSwitch) -> PollPhase {
        if switch.phase is Finished {
            match change {
                DeviceEvent::Connected(speed) => PollPhase::SettingSpeed { speed },
                DeviceEvent::Disconnected => PollPhase::Releasing,
            }
        } else {
            PollPhase::Disarming { change, switch }
        }
    }

    /// Where the poll stands with the reset of a device just attached.
    pub open spec fn resetting(speed: Speed, reset: BusReset) -> PollPhase {
        if reset.phase is Finished {
            PollPhase::Finished { event: Some(DeviceEvent::Connected(speed)) }
        } else {
            PollPhase::Resetting { speed, reset }
        }
    }

    /// The action that the poll is waiting for.
    pub open spec fn asks(self) -> Action {
        match self.phase {
            PollPhase::Sampling => Action::SampleLine,
            PollPhase::Disarming { switch, .. } => switch.asks(),
            PollPhase::SettingSpeed { speed } => Action::SetSpeed { speed },
            PollPhase::Resetting { reset, .. } => reset.asks(),
            PollPhase::Releasing => Action::ReleaseBus,
            PollPhase::Finished { .. } => Action::Finished,
        }
    }

    /// The poll after an event.
    pub open spec fn next(self, bus: Bus, event: Event) -> PollDevice {
        let phase = match (self.phase, event) {
            (PollPhase::Sampling, Event::Line { dp, dm, .. }) => match bus.poll_event(dp, dm) {
                Some(change) => Self::disarming(
                    change,
                    SofSwitch::begun(bus.polled(dp, dm), false),
                ),
                None => PollPhase::Finished { event: None },
            },
            (PollPhase::Disarming { change, switch }, event) => Self::disarming(
                change,
                switch.next(bus, event),
            ),
            (PollPhase::SettingSpeed { speed }, Event::Done) => PollPhase::Resetting {
                speed,
                reset: BusReset { phase: Phase::Pausing },
            },
            (PollPhase::Resetting { speed, reset }, event) => Self::resetting(
                speed,
                reset.next(bus, event),
            ),
            (PollPhase::Releasing, Event::Done) => PollPhase::Finished {
                event: Some(DeviceEvent::Disconnected),
            },
            _ => self.phase,
        };
        PollDevice { phase }
    }

    /// The bus after an event.
    pub open spec fn next_bus(self, bus: Bus, event: Event) -> Bus {
        match (self.phase, event) {
            (PollPhase::Sampling, Event::Line { dp, dm, .. }) => bus.polled(dp, dm),
            (PollPhase::Disarming { switch, .. }, event) => switch.next_bus(bus, event),
            (PollPhase::Resetting { reset, .. }, event) => reset.next_bus(bus, event),
            _ => bus,
        }
    }

    /// Whether the poll and its bus fit together.
    pub open spec fn allowed(self, bus: Bus) -> bool {
        match self.phase {
            PollPhase::Disarming { switch, .. } => switch.allowed(bus),
            PollPhase::Resetting { reset, .. } => reset.allowed(bus),
            _ => true,
        }
    }

    /// Begin a poll.
    pub fn start() -> (p: PollDevice)
        ensures
            p == (PollDevice { phase: PollPhase::Sampling }),
    {
        PollDevice { phase: PollPhase::Sampling }
    }

    /// The action to perform next.
    pub fn action(&self) -> (action: Action)
        ensures
            action == self.asks(),
    {
        match &self.phase {
            PollPhase::Sampling => Action::SampleLine,
            PollPhase::Disarming { switch, .. } => switch.action(),
            PollPhase::SettingSpeed { speed } => Action::SetSpeed { speed: *speed },
            PollPhase::Resetting { reset, .. } => reset.action(),
            PollPhase::Releasing => Action::ReleaseBus,
            PollPhase::Finished { .. } => Action::Finished,
        }
    }

    /// The device change, once the poll is done.
    pub fn change(&self) -> (event: Option<DeviceEvent>)
        ensures
            event == (match self.phase {
                PollPhase::Finished { event } => event,
                _ => None,
            }),
    {
        match self.phase {
            PollPhase::Finished { event } => event,
            _ => None,
        }
    }

    /// Take in what the action brought.
    pub fn step(&mut self, bus: &mut Bus, event: Event)
        requires
            old(bus).wf(),
            old(self).allowed(*old(bus)),
            answers(old(self).asks(), event),
            old(bus).counter_readable(event),
        ensures
            *final(self) == old(self).next(*old(bus), event),
            *final(bus) == old(self).next_bus(*old(bus), event),
            final(bus).wf(),
            final(self).allowed(*final(bus)),
    {
        match (self.phase, event) {
            (PollPhase::Sampling, Event::Line { dp, dm, .. }) => {
                self.phase =
                match bus.poll_device_event(dp, dm) {
                    Some(change) => leave(change, SofSwitch::start(bus, false)),
                    None => PollPhase::Finished { event: None },
                };
            },
            (PollPhase::Disarming { change, switch }, event) => {
                let mut switch = switch;
                switch.step(bus, event);
                self.phase = leave(change, switch);
            },
            (PollPhase::SettingSpeed { speed }, Event::Done) => {
                self.phase = PollPhase::Resetting { speed, reset: BusReset::start() };
            },
            (PollPhase::Resetting { speed, reset }, event) => {
                let mut reset = reset;
                reset.step(bus, event);
                self.phase =
                match reset.phase {
                    Phase::Finished => PollPhase::Finished {
                        event: Some(DeviceEvent::Connected(speed)),
                    },
                    _ => PollPhase::Resetting { speed, reset },
                };
            },
            (PollPhase::Releasing, Event::Done) => {
                self.phase = PollPhase::Finished { event: Some(DeviceEvent::Disconnected) };
            },
            _ => {},
        }
    }
}

fn leave(change: DeviceEvent, switch: SofSwitch) -> (phase: PollPhase)
    ensures
        phase == PollDevice::disarming(change, switch),
{
    match switch.phase {
        crate::sof_switch::Phase::Finished => match change {
            DeviceEvent::Connected(speed) => PollPhase::SettingSpeed { speed },
            DeviceEvent::Disconnected => PollPhase::Releasing,
        },
        _ => PollPhase::Disarming { change, switch },
    }
}

} // verus!
