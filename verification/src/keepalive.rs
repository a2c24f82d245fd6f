//! Frame keep-alive: the SOF of a full-speed bus, the EOP of a low-speed one.
//!
//! A full-speed device needs one SOF per frame; a low-speed device has no SOF, and a
//! low-speed EOP per frame keeps it awake (USB 2.0 sections 7.1.7.4 and 11.8.4.1).

use crate::bus::{Bus, Speed};
use crate::frame::{
    elapsed, elapsed_spec, remaining, remaining_spec, slot_spec, FRAME_INTERVAL_US,
};
use crate::io::{answers, Action, Event};
use crate::packet::{frame_number, frame_number_spec};
use vstd::prelude::*;

verus! {

/// Where a keep-alive check stands.
#[derive(Clone, Copy, Debug, PartialEq, Eq)]
pub enum Phase {
    /// Hardware SOFs: deciding whether to prepare the next one.
    HwService,
    /// Hardware SOFs: preparing it.
    Preparing { slot: u32 },
    /// Hardware SOFs: measuring the rest of the frame.
    HwPosition,
    /// Software SOFs: deciding whether this frame's SOF is due.
    Sof,
    /// Software SOFs: sending it.
    SofSending { slot: u32 },
    /// Software SOFs: measuring the rest of the frame.
    Position,
    /// Low speed: deciding whether a keep-alive is due.
    LsCheck,
    /// Low speed: stamping the bus activity before the keep-alive.
    LsStamp,
    /// Low speed: sending the keep-alive.
    LsSending,
    /// Low speed: stamping the bus activity after it.
    LsSent,
    /// Low speed: measuring the time to the next one.
    LsPosition,
    /// Done; the next check is due in this many microseconds.
    Finished { next_us: u32 },
}

/// One keep-alive check.
#[derive(Clone, Copy, Debug, PartialEq, Eq)]
pub struct Keepalive {
    /// Where it stands.
    pub phase: Phase,
}

/// Microseconds to the next low-speed keep-alive.
pub open spec fn ls_remaining(last_activity: u32, now: u32) -> u32 {
    if elapsed_spec(last_activity, now) < 1000 {
        (1000 - elapsed_spec(last_activity, now)) as u32
    } else {
        0
    }
}

impl Keepalive {
    /// A check on a bus: what to do depends on its speed and its SOF source. With no device
    /// attached, and at any speed the transport does not support, there is nothing to send.
    pub open spec fn begun(bus: Bus) -> Keepalive {
        Keepalive {
            phase: if !bus.attached {
                Phase::Finished { next_us: 1000 }
            } else if bus.speed == Speed::Full && bus.hw_active() {
                Phase::HwService
            } else if bus.speed == Speed::Full {
                Phase::Sof
            } else if bus.speed == Speed::Low {
                Phase::LsCheck
            } else {
                Phase::Finished { next_us: 1000 }
            },
        }
    }

    /// The action that the check is waiting for.
    pub open spec fn asks(self) -> Action {
        match self.phase {
            Phase::HwService => Action::ReadHwTime,
            Phase::Preparing { slot } => Action::PrepareSof { frame: frame_number_spec(slot) },
            Phase::HwPosition => Action::ReadCounter,
            Phase::Sof => Action::ReadClock,
            Phase::SofSending { slot } => Action::TransmitSof {
                slot,
                frame: frame_number_spec(slot),
            },
            Phase::Position => Action::ReadClock,
            Phase::LsCheck => Action::ReadClock,
            Phase::LsStamp => Action::ReadClock,
            Phase::LsSending => Action::TransmitKeepalive,
            Phase::LsSent => Action::ReadClock,
            Phase::LsPosition => Action::ReadClock,
            Phase::Finished { .. } => Action::Finished,
        }
    }

    /// The check after an event.
    pub open spec fn next(self, bus: Bus, event: Event) -> Keepalive {
        let phase = match (self.phase, event) {
            (Phase::HwService, Event::HwTime { counter, now }) => match bus.sof_service_due(
                counter,
                now,
            ) {
                Some(slot) => Phase::Preparing { slot },
                None => Phase::HwPosition,
            },
            (Phase::Preparing { .. }, Event::Done) => Phase::HwPosition,
            (Phase::HwPosition, Event::Counter(counter)) => Phase::Finished {
                next_us: match bus.hw_sof {
                    Some(hw) => (1000 - hw.position_at(counter)) as u32,
                    None => 1000,
                },
            },
            (Phase::Sof, Event::Clock(now)) => if bus.sof_due(now) {
                Phase::SofSending { slot: slot_spec(now) }
            } else {
                Phase::Position
            },
            (Phase::SofSending { .. }, Event::Done) => Phase::Position,
            (Phase::Position, Event::Clock(now)) => Phase::Finished {
                next_us: remaining_spec(now) as u32,
            },
            (Phase::LsCheck, Event::Clock(now)) => if bus.keepalive_due(now) {
                Phase::LsStamp
            } else {
                Phase::LsPosition
            },
            (Phase::LsStamp, Event::Clock(_)) => Phase::LsSending,
            (Phase::LsSending, Event::Done) => Phase::LsSent,
            (Phase::LsSent, Event::Clock(_)) => Phase::LsPosition,
            (Phase::LsPosition, Event::Clock(now)) => Phase::Finished {
                next_us: ls_remaining(bus.last_activity, now),
            },
            _ => self.phase,
        };
        Keepalive { phase }
    }

    /// The bus after an event.
    pub open spec fn next_bus(self, bus: Bus, event: Event) -> Bus {
        match (self.phase, event) {
            (Phase::HwService, Event::HwTime { counter, now }) => bus.sof_serviced(counter, now),
            (Phase::Sof, Event::Clock(now)) => bus.sof_checked(now),
            (Phase::LsStamp, Event::Clock(now)) => bus.stamped(now),
            (Phase::LsSent, Event::Clock(now)) => bus.stamped(now),
            _ => bus,
        }
    }

    /// Begin a check.
    pub fn start(bus: &Bus) -> (k: Keepalive)
        ensures
            k == Keepalive::begun(*bus),
    {
        let phase = if !bus.attached {
            Phase::Finished { next_us: FRAME_INTERVAL_US }
        } else {
            match bus.speed {
                Speed::Full => if bus.hw_sof_active() {
                    Phase::HwService
                } else {
                    Phase::Sof
                },
                Speed::Low => Phase::LsCheck,
                Speed::High => Phase::Finished { next_us: FRAME_INTERVAL_US },
            }
        };
        Keepalive { phase }
    }

    /// The action to perform next.
    pub fn action(&self) -> (action: Action)
        ensures
            action == self.asks(),
    {
        match self.phase {
            Phase::HwService => Action::ReadHwTime,
            Phase::Preparing { slot } => Action::PrepareSof { frame: frame_number(slot) },
            Phase::HwPosition => Action::ReadCounter,
            Phase::Sof => Action::ReadClock,
            Phase::SofSending { slot } => Action::TransmitSof { slot, frame: frame_number(slot) },
            Phase::Position => Action::ReadClock,
            Phase::LsCheck => Action::ReadClock,
            Phase::LsStamp => Action::ReadClock,
            Phase::LsSending => Action::TransmitKeepalive,
            Phase::LsSent => Action::ReadClock,
            Phase::LsPosition => Action::ReadClock,
            Phase::Finished { .. } => Action::Finished,
        }
    }

    /// Microseconds until the next check is due, once this one is done.
    pub fn next_us(&self) -> (us: Option<u32>)
        ensures
            us == (match self.phase {
                Phase::Finished { next_us } => Some(next_us),
                _ => None,
            }),
    {
        match self.phase {
            Phase::Finished { next_us } => Some(next_us),
            _ => None,
        }
    }

    /// Take in what the action brought.
    pub fn step(&mut self, bus: &mut Bus, event: Event)
        requires
            old(bus).wf(),
            answers(old(self).asks(), event),
            old(bus).counter_readable(event),
        ensures
            *final(self) == old(self).next(*old(bus), event),
            *final(bus) == old(self).next_bus(*old(bus), event),
            final(bus).wf(),
    {
        match (self.phase, event) {
            (Phase::HwService, Event::HwTime { counter, now }) => {
                self.phase =
                match bus.hw_sof_service(counter, now) {
                    Some(slot) => Phase::Preparing { slot },
                    None => Phase::HwPosition,
                };
            },
            (Phase::Preparing { .. }, Event::Done) => {
                self.phase = Phase::HwPosition;
            },
            (Phase::HwPosition, Event::Counter(counter)) => {
                let pos: u32 = match &bus.hw_sof {
                    Some(hw) => hw.frame_pos_us(counter),
                    None => 0,
                };
                self.phase = Phase::Finished { next_us: FRAME_INTERVAL_US - pos };
            },
            (Phase::Sof, Event::Clock(now)) => {
                self.phase =
                match bus.sof_if_due(now) {
                    Some(slot) => Phase::SofSending { slot },
                    None => Phase::Position,
                };
            },
            (Phase::SofSending { .. }, Event::Done) => {
                self.phase = Phase::Position;
            },
            (Phase::Position, Event::Clock(now)) => {
                self.phase = Phase::Finished { next_us: remaining(now) };
            },
            (Phase::LsCheck, Event::Clock(now)) => {
                self.phase =
                if bus.ls_keepalive_due(now) {
                    Phase::LsStamp
                } else {
                    Phase::LsPosition
                };
            },
            (Phase::LsStamp, Event::Clock(now)) => {
                bus.mark_activity(now);
                self.phase = Phase::LsSending;
            },
            (Phase::LsSending, Event::Done) => {
                self.phase = Phase::LsSent;
            },
            (Phase::LsSent, Event::Clock(now)) => {
                bus.mark_activity(now);
                self.phase = Phase::LsPosition;
            },
            (Phase::LsPosition, Event::Clock(now)) => {
                self.phase =
                Phase::Finished {
                    next_us: FRAME_INTERVAL_US.saturating_sub(elapsed(bus.last_activity, now)),
                };
            },
            _ => {},
        }
    }
}

/// A check and its bus after a sequence of events.
pub open spec fn after(k: Keepalive, bus: Bus, events: Seq<Event>) -> (Keepalive, Bus)
    decreases events.len(),
{
    if events.len() == 0 {
        (k, bus)
    } else {
        let before = after(k, bus, events.drop_last());
        (before.0.next(before.1, events.last()), before.0.next_bus(before.1, events.last()))
    }
}

/// Whether each event answers the action it was asked for.
pub open spec fn is_run(k: Keepalive, bus: Bus, events: Seq<Event>) -> bool
    decreases events.len(),
{
    events.len() > 0 ==> {
        let before = after(k, bus, events.drop_last());
        &&& is_run(k, bus, events.drop_last())
        &&& answers(before.0.asks(), events.last())
        &&& before.1.counter_readable(events.last())
    }
}

/// Steps that a check can still take.
pub open spec fn steps_left(phase: Phase) -> nat {
    match phase {
        Phase::HwService => 3,
        Phase::Preparing { .. } => 2,
        Phase::HwPosition => 1,
        Phase::Sof => 3,
        Phase::SofSending { .. } => 2,
        Phase::Position => 1,
        Phase::LsCheck => 5,
        Phase::LsStamp => 4,
        Phase::LsSending => 3,
        Phase::LsSent => 2,
        Phase::LsPosition => 1,
        Phase::Finished { .. } => 0,
    }
}

/// A check ends after at most five answers: it never waits on the bus.
pub proof fn law_check_is_bounded(bus: Bus, events: Seq<Event>)
    requires
        is_run(Keepalive::begun(bus), bus, events),
    ensures
        events.len() + steps_left(after(Keepalive::begun(bus), bus, events).0.phase) <= 5,
        events.len() <= 5,
    decreases events.len(),
{
    if events.len() > 0 {
        law_check_is_bounded(bus, events.drop_last());
    }
}

/// The next check is never more than a frame away.
pub proof fn law_next_check_within_frame(bus: Bus, events: Seq<Event>)
    requires
        bus.wf(),
        is_run(Keepalive::begun(bus), bus, events),
    ensures
        after(Keepalive::begun(bus), bus, events).1.wf(),
        after(Keepalive::begun(bus), bus, events).0.phase matches Phase::Finished { next_us }
            ==> next_us <= 1000,
    decreases events.len(),
{
    if events.len() > 0 {
        law_next_check_within_frame(bus, events.drop_last());
        let before = after(Keepalive::begun(bus), bus, events.drop_last());
        if let Some(hw) = before.1.hw_sof {
            if let Event::Counter(counter) = events.last() {
                let ctr: int = (counter & 0xffff) as int;
                let counts: int = hw.counts as int;
                assert((ctr * 1000) / counts < 1000 && (ctr * 1000) / counts >= 0)
                    by (nonlinear_arith)
                    requires
                        0 <= ctr < counts,
                ;
            }
        }
    }
}

/// With software SOFs, a finished check on a full-speed bus leaves no SOF due: at its first
/// timer reading, this frame's SOF was sent or is held back by the spacing guard.
pub proof fn law_sof_covered(bus: Bus, events: Seq<Event>)
    requires
        is_run(Keepalive::begun(bus), bus, events),
        bus.full_speed(),
        !bus.hw_active(),
        events.len() > 0,
    ensures
        events[0] matches Event::Clock(now) && after(Keepalive::begun(bus), bus, events).1
            == bus.sof_checked(now) && !after(Keepalive::begun(bus), bus, events).1.sof_due(now),
    decreases events.len(),
{
    let before = events.drop_last();
    if before.len() == 0 {
        assert(events.last() == events[0]);
    } else {
        law_sof_covered(bus, before);
        assert(before[0] == events[0]);
        lemma_past_sof(bus, before);
    }
}

proof fn lemma_past_sof(bus: Bus, events: Seq<Event>)
    requires
        is_run(Keepalive::begun(bus), bus, events),
        bus.full_speed(),
        !bus.hw_active(),
        events.len() > 0,
    ensures
        ({
            let phase = after(Keepalive::begun(bus), bus, events).0.phase;
            phase is SofSending || phase is Position || phase is Finished
        }),
    decreases events.len(),
{
    if events.len() > 1 {
        lemma_past_sof(bus, events.drop_last());
    }
}

/// On a low-speed bus, a finished check leaves activity less than a frame old, counted at
/// its first timer reading: an older bus gets a keep-alive, which stamps it.
pub proof fn law_low_speed_kept_alive(bus: Bus, events: Seq<Event>)
    requires
        is_run(Keepalive::begun(bus), bus, events),
        bus.attached,
        bus.speed == Speed::Low,
        after(Keepalive::begun(bus), bus, events).0.phase is Finished,
    ensures
        ({
            let done = after(Keepalive::begun(bus), bus, events).1;
            &&& events[0] matches Event::Clock(now) && (if bus.keepalive_due(now) {
                events.len() == 5 && (events[3] matches Event::Clock(sent) && done == bus.stamped(
                    sent,
                ))
            } else {
                events.len() == 2 && done == bus
            })
        }),
{
    lemma_low_speed_run(bus, events);
}

proof fn lemma_low_speed_run(bus: Bus, events: Seq<Event>)
    requires
        is_run(Keepalive::begun(bus), bus, events),
        bus.attached,
        bus.speed == Speed::Low,
    ensures
        ({
            let n = events.len();
            let (k, b) = after(Keepalive::begun(bus), bus, events);
            &&& n == 0 ==> k.phase is LsCheck && b == bus
            &&& n > 0 ==> events[0] is Clock
            &&& n > 0 && !bus.keepalive_due(events[0]->Clock_0) ==> b == bus && (n == 1
                && k.phase is LsPosition || n == 2 && k.phase is Finished)
            &&& n > 0 && bus.keepalive_due(events[0]->Clock_0) ==> ({
                ||| n == 1 && k.phase is LsStamp && b == bus
                ||| n == 2 && k.phase is LsSending && events[1] is Clock && b == bus.stamped(
                    events[1]->Clock_0,
                )
                ||| n == 3 && k.phase is LsSent && events[1] is Clock && b == bus.stamped(
                    events[1]->Clock_0,
                )
                ||| n == 4 && k.phase is LsPosition && events[3] is Clock && b == bus.stamped(
                    events[3]->Clock_0,
                )
                ||| n == 5 && k.phase is Finished && events[3] is Clock && b == bus.stamped(
                    events[3]->Clock_0,
                )
            })
        }),
    decreases events.len(),
{
    if events.len() > 0 {
        let before = events.drop_last();
        lemma_low_speed_run(bus, before);
        assert(forall|i: int| 0 <= i < before.len() ==> before[i] == events[i]);
        assert(events.last() == events[events.len() - 1]);
    }
}

/// After an SOF in the first half of its frame, the SOF of the next frame is due from the
/// frame's very start: the spacing guard does not hold it back.
pub proof fn law_prompt_sof_keeps_period(bus: Bus, first: u32, second: u32)
    requires
        bus.sof_due(first),
        first % 1000 <= 500,
        second >= first,
        slot_spec(second) == slot_spec(first) + 1,
    ensures
        bus.sof_sent(first).sof_due(second),
{
}

} // verus!
