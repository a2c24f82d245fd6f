//! The frame-timer interrupt and the idle task: who sends the keep-alive, and when.
//!
//! A timer alarm fires at every 1 ms frame boundary. Its interrupt sends the frame's SOF
//! if the bus is free; if a transfer holds the bus, that transfer sends the SOF before its
//! next token, and the interrupt retries shortly for as long as that helps.

use crate::embassy::Bus;
use crate::frame::{
    elapsed, elapsed_spec, later, later_spec, position, position_spec, reached, reached_spec,
    remaining, slot, slot_spec, FRAME_INTERVAL_US,
};
use crate::regs;
use vstd::prelude::*;

verus! {

/// TIMER alarm that paces the frames (the time driver uses alarm 0).
pub const FRAME_ALARM: usize = 1;

/// With hardware SOFs, when after the boundary the frame-timer interrupt prepares the next
/// SOF (after the current one is out).
pub const HW_SERVICE_OFFSET_US: u32 = 20;

/// With hardware SOFs, retry interval when the bus was busy (not timing-critical).
pub const HW_SERVICE_RETRY_US: u32 = 20;

/// With hardware SOFs, the last point in the frame the interrupt tries to prepare.
pub const HW_SERVICE_WINDOW_US: u32 = 900;

/// Retry delay of the frame alarm when the bus was busy at the frame boundary. Short: every
/// retry step is SOF jitter.
pub const FRAME_RETRY_US: u32 = 2;

/// Retries stop this far into the frame; later, the next boundary is armed instead. (An SOF
/// this late would hold back the next one.)
pub const FRAME_RETRY_WINDOW_US: u32 = 500;

/// Microseconds to wait when a transfer holds the bus at an idle check.
pub const BUSY_WAIT_US: u32 = 250;

/// One thing to do for the frame timer or the idle task.
#[derive(Clone, Copy, Debug, PartialEq, Eq)]
pub enum Action {
    /// Read the microsecond timer.
    ReadClock,
    /// Write the target of the frame alarm.
    WriteAlarm { target: u32 },
    /// Make the frame-timer interrupt pending.
    Pend,
    /// Write the timer's raw interrupt register.
    WriteRaised { word: u32 },
    /// Read the timer's interrupt-enable register.
    ReadEnabled,
    /// Write the timer's interrupt-enable register.
    WriteEnabled { word: u32 },
    /// Enable the frame-timer interrupt on this core.
    EnableIrq,
    /// Try to take the bus, without waiting.
    TryLock,
    /// Run one keep-alive check on the bus just taken. The bus is given back when nothing
    /// but a sleep is left to do.
    Keepalive,
    /// Sleep.
    Sleep { us: u32 },
    /// Nothing left to do.
    Finished,
}

/// What an action brought.
#[derive(Clone, Copy, Debug, PartialEq, Eq)]
pub enum Event {
    /// Performed; nothing to report.
    Done,
    /// The microsecond timer.
    Clock(u32),
    /// A register.
    Word(u32),
    /// Whether the bus could be taken.
    Locked(bool),
    /// A keep-alive check is due again in this many microseconds.
    KeptAlive { next_us: u32 },
}

/// Whether an event is of the kind that answers an action.
pub open spec fn answers(action: Action, event: Event) -> bool {
    match action {
        Action::ReadClock => event is Clock,
        Action::ReadEnabled => event is Word,
        Action::TryLock => event is Locked,
        Action::Keepalive => event is KeptAlive,
        Action::Finished => false,
        _ => event is Done,
    }
}

/// The next point of the timer that lies `offset` past a frame boundary.
pub open spec fn next_boundary_spec(now: u32, offset: u32) -> u32 {
    later_spec(now, (1000 - elapsed_spec(offset, now) % 1000) as u32)
}

/// Timer reading of the next frame boundary, or of the point `offset` past it.
pub fn next_boundary(now: u32, offset: u32) -> (target: u32)
    ensures
        target == next_boundary_spec(now, offset),
{
    let since: u32 = elapsed(offset, now);
    later(now, remaining(since))
}

/// Where arming the frame alarm stands.
#[derive(Clone, Copy, Debug, PartialEq, Eq)]
pub enum ArmPhase {
    /// Reading the timer.
    Reading,
    /// Writing the target.
    Writing { target: u32 },
    /// Checking that the target is still ahead.
    Checking { target: u32 },
    /// It is not: writing that of the frame after.
    Rewriting { target: u32 },
    /// Done.
    Finished,
}

/// Arming the frame alarm for the next boundary.
#[derive(Clone, Copy, Debug, PartialEq, Eq)]
pub struct ArmFrameAlarm {
    /// How far past the boundary it is to fire.
    pub offset: u32,
    /// Where it stands.
    pub phase: ArmPhase,
}

impl ArmFrameAlarm {
    /// Arming begun: at the boundary, or past the SOF where hardware sends it.
    pub open spec fn begun(shared: Bus) -> ArmFrameAlarm {
        ArmFrameAlarm {
            offset: if shared.hw_sof {
                HW_SERVICE_OFFSET_US
            } else {
                0
            },
            phase: ArmPhase::Reading,
        }
    }

    /// The action that is being waited for.
    pub open spec fn asks(self) -> Action {
        match self.phase {
            ArmPhase::Reading => Action::ReadClock,
            ArmPhase::Writing { target } => Action::WriteAlarm { target },
            ArmPhase::Checking { .. } => Action::ReadClock,
            ArmPhase::Rewriting { target } => Action::WriteAlarm { target },
            ArmPhase::Finished => Action::Finished,
        }
    }

    /// The state after an event.
    ///
    /// Alarms fire only on an exact match with the timer; if the target passed while
    /// arming, the one after is taken.
    pub open spec fn next(self, event: Event) -> ArmFrameAlarm {
        let phase = match (self.phase, event) {
            (ArmPhase::Reading, Event::Clock(now)) => ArmPhase::Writing {
                target: next_boundary_spec(now, self.offset),
            },
            (ArmPhase::Writing { target }, Event::Done) => ArmPhase::Checking { target },
            (ArmPhase::Checking { target }, Event::Clock(now)) => if reached_spec(target, now) {
                ArmPhase::Rewriting { target: later_spec(target, 1000) }
            } else {
                ArmPhase::Finished
            },
            (ArmPhase::Rewriting { .. }, Event::Done) => ArmPhase::Finished,
            _ => self.phase,
        };
        ArmFrameAlarm { phase, ..self }
    }

    /// Begin arming.
    pub fn arm_frame_alarm(shared: &Bus) -> (a: ArmFrameAlarm)
        ensures
            a == ArmFrameAlarm::begun(*shared),
    {
        let offset: u32 = if shared.hw_sof {
            HW_SERVICE_OFFSET_US
        } else {
            0
        };
        ArmFrameAlarm { offset, phase: ArmPhase::Reading }
    }

    /// The action to perform next.
    pub fn action(&self) -> (action: Action)
        ensures
            action == self.asks(),
    {
        match self.phase {
            ArmPhase::Reading => Action::ReadClock,
            ArmPhase::Writing { target } => Action::WriteAlarm { target },
            ArmPhase::Checking { .. } => Action::ReadClock,
            ArmPhase::Rewriting { target } => Action::WriteAlarm { target },
            ArmPhase::Finished => Action::Finished,
        }
    }

    /// Take in what the action brought.
    pub fn step(&mut self, event: Event)
        requires
            answers(old(self).asks(), event),
        ensures
            *final(self) == old(self).next(event),
    {
        match (self.phase, event) {
            (ArmPhase::Reading, Event::Clock(now)) => {
                self.phase = ArmPhase::Writing { target: next_boundary(now, self.offset) };
            },
            (ArmPhase::Writing { target }, Event::Done) => {
                self.phase = ArmPhase::Checking { target };
            },
            (ArmPhase::Checking { target }, Event::Clock(now)) => {
                self.phase =
                if reached(target, now) {
                    ArmPhase::Rewriting { target: later(target, FRAME_INTERVAL_US) }
                } else {
                    ArmPhase::Finished
                };
            },
            (ArmPhase::Rewriting { .. }, Event::Done) => {
                self.phase = ArmPhase::Finished;
            },
            _ => {},
        }
    }
}

/// Where re-arming after a busy bus stands.
#[derive(Clone, Copy, Debug, PartialEq, Eq)]
pub enum RetryPhase {
    /// Reading the timer.
    Reading,
    /// Too late in the frame, or nothing left to send: arming the next boundary.
    Boundary { arm: ArmFrameAlarm },
    /// Writing the target of a retry.
    Writing { target: u32 },
    /// Checking that it is still ahead.
    Checking { target: u32 },
    /// It is not: entering the interrupt again at once.
    Pending,
    /// Done.
    Finished,
}

/// Re-arming the frame alarm after the bus was busy at a frame boundary.
#[derive(Clone, Copy, Debug, PartialEq, Eq)]
pub struct ArmRetryAlarm {
    /// Where it stands.
    pub phase: RetryPhase,
}

/// How long after a reading to retry, or `None` to wait for the next boundary.
///
/// With hardware SOFs the SOF itself is not late, and preparing the next one can wait. With
/// software SOFs a retry helps while this frame's SOF is still missing, no reset holds the
/// port, and it is early enough to send it.
pub open spec fn retry_after(shared: Bus, now: u32) -> Option<u32> {
    if shared.hw_sof {
        if position_spec(now) < HW_SERVICE_WINDOW_US {
            Some(HW_SERVICE_RETRY_US)
        } else {
            None
        }
    } else if shared.last_sof_slot != slot_spec(now) && !shared.sof_paused && position_spec(now)
        < FRAME_RETRY_WINDOW_US {
        Some(FRAME_RETRY_US)
    } else {
        None
    }
}

impl ArmRetryAlarm {
    /// Where re-arming stands with the arming of the next boundary.
    pub open spec fn boundary(arm: ArmFrameAlarm) -> RetryPhase {
        if arm.phase is Finished {
            RetryPhase::Finished
        } else {
            RetryPhase::Boundary { arm }
        }
    }

    /// The action that is being waited for.
    pub open spec fn asks(self) -> Action {
        match self.phase {
            RetryPhase::Reading => Action::ReadClock,
            RetryPhase::Boundary { arm } => arm.asks(),
            RetryPhase::Writing { target } => Action::WriteAlarm { target },
            RetryPhase::Checking { .. } => Action::ReadClock,
            RetryPhase::Pending => Action::Pend,
            RetryPhase::Finished => Action::Finished,
        }
    }

    /// The state after an event.
    pub open spec fn next(self, shared: Bus, event: Event) -> ArmRetryAlarm {
        let phase = match (self.phase, event) {
            (RetryPhase::Reading, Event::Clock(now)) => match retry_after(shared, now) {
                Some(us) => RetryPhase::Writing { target: later_spec(now, us) },
                None => Self::boundary(ArmFrameAlarm::begun(shared)),
            },
            (RetryPhase::Boundary { arm }, event) => Self::boundary(arm.next(event)),
            (RetryPhase::Writing { target }, Event::Done) => RetryPhase::Checking { target },
            (RetryPhase::Checking { target }, Event::Clock(now)) => if reached_spec(target, now) {
                RetryPhase::Pending
            } else {
                RetryPhase::Finished
            },
            (RetryPhase::Pending, Event::Done) => RetryPhase::Finished,
            _ => self.phase,
        };
        ArmRetryAlarm { phase }
    }

    /// Begin re-arming.
    pub fn arm_retry_alarm() -> (a: ArmRetryAlarm)
        ensures
            a == (ArmRetryAlarm { phase: RetryPhase::Reading }),
    {
        ArmRetryAlarm { phase: RetryPhase::Reading }
    }

    /// The action to perform next.
    pub fn action(&self) -> (action: Action)
        ensures
            action == self.asks(),
    {
        match &self.phase {
            RetryPhase::Reading => Action::ReadClock,
            RetryPhase::Boundary { arm } => arm.action(),
            RetryPhase::Writing { target } => Action::WriteAlarm { target: *target },
            RetryPhase::Checking { .. } => Action::ReadClock,
            RetryPhase::Pending => Action::Pend,
            RetryPhase::Finished => Action::Finished,
        }
    }

    /// Take in what the action brought.
    pub fn step(&mut self, shared: &Bus, event: Event)
        requires
            answers(old(self).asks(), event),
        ensures
            *final(self) == old(self).next(*shared, event),
    {
        match (self.phase, event) {
            (RetryPhase::Reading, Event::Clock(now)) => {
                self.phase =
                if shared.hw_sof {
                    if position(now) >= HW_SERVICE_WINDOW_US {
                        at_boundary(ArmFrameAlarm::arm_frame_alarm(shared))
                    } else {
                        RetryPhase::Writing { target: later(now, HW_SERVICE_RETRY_US) }
                    }
                } else {
                    let sent = shared.last_sof_slot == slot(now);
                    if sent || shared.sof_paused || position(now) >= FRAME_RETRY_WINDOW_US {
                        at_boundary(ArmFrameAlarm::arm_frame_alarm(shared))
                    } else {
                        RetryPhase::Writing { target: later(now, FRAME_RETRY_US) }
                    }
                };
            },
            (RetryPhase::Boundary { arm }, event) => {
                let mut arm = arm;
                arm.step(event);
                self.phase = at_boundary(arm);
            },
            (RetryPhase::Writing { target }, Event::Done) => {
                self.phase = RetryPhase::Checking { target };
            },
            (RetryPhase::Checking { target }, Event::Clock(now)) => {
                self.phase =
                if reached(target, now) {
                    RetryPhase::Pending
                } else {
                    RetryPhase::Finished
                };
            },
            (RetryPhase::Pending, Event::Done) => {
                self.phase = RetryPhase::Finished;
            },
            _ => {},
        }
    }
}

fn at_boundary(arm: ArmFrameAlarm) -> (phase: RetryPhase)
    ensures
        phase == ArmRetryAlarm::boundary(arm),
{
    match arm.phase {
        ArmPhase::Finished => RetryPhase::Finished,
        _ => RetryPhase::Boundary { arm },
    }
}

/// A timer interrupt register word with the frame alarm's bit set.
pub open spec fn with_frame_alarm(word: u32) -> u32 {
    word | 2
}

/// Set the frame alarm's bit in a timer interrupt register word.
pub fn set_frame_alarm(word: u32) -> (r: u32)
    ensures
        r == with_frame_alarm(word),
{
    assert(regs::with_field(word, 0x01, 1, 1) == word | 2) by (bit_vector);
    regs::timer_int_set_alarm(word, FRAME_ALARM, true)
}

/// Where the frame-timer interrupt stands.
#[derive(Clone, Copy, Debug, PartialEq, Eq)]
pub enum TickPhase {
    /// Acknowledging the alarm.
    Clearing,
    /// Trying to take the bus.
    Locking,
    /// The bus is free: keeping it alive.
    KeepingAlive,
    /// Arming the next boundary.
    Arming { arm: ArmFrameAlarm },
    /// The bus is busy: re-arming.
    Retrying { retry: ArmRetryAlarm },
    /// Done.
    Finished,
}

/// The body of the frame-timer interrupt: send this frame's SOF and re-arm for the next
/// frame.
#[derive(Clone, Copy, Debug, PartialEq, Eq)]
pub struct FrameTick {
    /// Where it stands.
    pub phase: TickPhase,
}

impl FrameTick {
    /// Where the interrupt stands with the arming of the next boundary.
    pub open spec fn arming(arm: ArmFrameAlarm) -> TickPhase {
        if arm.phase is Finished {
            TickPhase::Finished
        } else {
            TickPhase::Arming { arm }
        }
    }

    /// Where the interrupt stands with the re-arming after a busy bus.
    pub open spec fn retrying(retry: ArmRetryAlarm) -> TickPhase {
        if retry.phase is Finished {
            TickPhase::Finished
        } else {
            TickPhase::Retrying { retry }
        }
    }

    /// The action that is being waited for.
    pub open spec fn asks(self) -> Action {
        match self.phase {
            TickPhase::Clearing => Action::WriteRaised { word: with_frame_alarm(0) },
            TickPhase::Locking => Action::TryLock,
            TickPhase::KeepingAlive => Action::Keepalive,
            TickPhase::Arming { arm } => arm.asks(),
            TickPhase::Retrying { retry } => retry.asks(),
            TickPhase::Finished => Action::Finished,
        }
    }

    /// The state after an event.
    ///
    /// A busy bus is not given up on: its holder may be about to release it, and giving up
    /// would leave the whole frame without an SOF.
    pub open spec fn next(self, shared: Bus, event: Event) -> FrameTick {
        let phase = match (self.phase, event) {
            (TickPhase::Clearing, Event::Done) => TickPhase::Locking,
            (TickPhase::Locking, Event::Locked(locked)) => if locked {
                TickPhase::KeepingAlive
            } else {
                TickPhase::Retrying { retry: ArmRetryAlarm { phase: RetryPhase::Reading } }
            },
            (TickPhase::KeepingAlive, Event::KeptAlive { .. }) => TickPhase::Arming {
                arm: ArmFrameAlarm::begun(shared),
            },
            (TickPhase::Arming { arm }, event) => Self::arming(arm.next(event)),
            (TickPhase::Retrying { retry }, event) => Self::retrying(retry.next(shared, event)),
            _ => self.phase,
        };
        FrameTick { phase }
    }

    /// Enter the interrupt.
    pub fn start() -> (t: FrameTick)
        ensures
            t == (FrameTick { phase: TickPhase::Clearing }),
    {
        FrameTick { phase: TickPhase::Clearing }
    }

    /// The action to perform next.
    pub fn action(&self) -> (action: Action)
        ensures
            action == self.asks(),
    {
        match &self.phase {
            TickPhase::Clearing => Action::WriteRaised { word: set_frame_alarm(0) },
            TickPhase::Locking => Action::TryLock,
            TickPhase::KeepingAlive => Action::Keepalive,
            TickPhase::Arming { arm } => arm.action(),
            TickPhase::Retrying { retry } => retry.action(),
            TickPhase::Finished => Action::Finished,
        }
    }

    /// Take in what the action brought.
    pub fn step(&mut self, shared: &Bus, event: Event)
        requires
            answers(old(self).asks(), event),
        ensures
            *final(self) == old(self).next(*shared, event),
    {
        match (self.phase, event) {
            (TickPhase::Clearing, Event::Done) => {
                self.phase = TickPhase::Locking;
            },
            (TickPhase::Locking, Event::Locked(locked)) => {
                self.phase =
                if locked {
                    TickPhase::KeepingAlive
                } else {
                    TickPhase::Retrying { retry: ArmRetryAlarm::arm_retry_alarm() }
                };
            },
            (TickPhase::KeepingAlive, Event::KeptAlive { .. }) => {
                self.phase = TickPhase::Arming { arm: ArmFrameAlarm::arm_frame_alarm(shared) };
            },
            (TickPhase::Arming { arm }, event) => {
                let mut arm = arm;
                arm.step(event);
                self.phase =
                match arm.phase {
                    ArmPhase::Finished => TickPhase::Finished,
                    _ => TickPhase::Arming { arm },
                };
            },
            (TickPhase::Retrying { retry }, event) => {
                let mut retry = retry;
                retry.step(shared, event);
                self.phase =
                match retry.phase {
                    RetryPhase::Finished => TickPhase::Finished,
                    _ => TickPhase::Retrying { retry },
                };
            },
            _ => {},
        }
    }
}

/// Where starting the frame timer stands.
#[derive(Clone, Copy, Debug, PartialEq, Eq)]
pub enum StartPhase {
    /// Clearing an alarm raised earlier.
    Clearing,
    /// Reading which alarms are enabled.
    Reading,
    /// Enabling the frame alarm among them.
    Enabling { word: u32 },
    /// Arming the first boundary.
    Arming { arm: ArmFrameAlarm },
    /// Enabling the interrupt.
    Unmasking,
    /// Done.
    Finished,
}

/// Starting timer-driven SOFs.
#[derive(Clone, Copy, Debug, PartialEq, Eq)]
pub struct StartFrameTimer {
    /// Where it stands.
    pub phase: StartPhase,
}

impl StartFrameTimer {
    /// Where starting stands with the arming of the first boundary.
    pub open spec fn arming(arm: ArmFrameAlarm) -> StartPhase {
        if arm.phase is Finished {
            StartPhase::Unmasking
        } else {
            StartPhase::Arming { arm }
        }
    }

    /// The action that is being waited for.
    pub open spec fn asks(self) -> Action {
        match self.phase {
            StartPhase::Clearing => Action::WriteRaised { word: with_frame_alarm(0) },
            StartPhase::Reading => Action::ReadEnabled,
            StartPhase::Enabling { word } => Action::WriteEnabled { word },
            StartPhase::Arming { arm } => arm.asks(),
            StartPhase::Unmasking => Action::EnableIrq,
            StartPhase::Finished => Action::Finished,
        }
    }

    /// The state after an event.
    pub open spec fn next(self, shared: Bus, event: Event) -> StartFrameTimer {
        let phase = match (self.phase, event) {
            (StartPhase::Clearing, Event::Done) => StartPhase::Reading,
            (StartPhase::Reading, Event::Word(word)) => StartPhase::Enabling {
                word: with_frame_alarm(word),
            },
            (StartPhase::Enabling { .. }, Event::Done) => StartPhase::Arming {
                arm: ArmFrameAlarm::begun(shared),
            },
            (StartPhase::Arming { arm }, event) => Self::arming(arm.next(event)),
            (StartPhase::Unmasking, Event::Done) => StartPhase::Finished,
            _ => self.phase,
        };
        StartFrameTimer { phase }
    }

    /// Begin starting.
    pub fn start() -> (s: StartFrameTimer)
        ensures
            s == (StartFrameTimer { phase: StartPhase::Clearing }),
    {
        StartFrameTimer { phase: StartPhase::Clearing }
    }

    /// The action to perform next.
    pub fn action(&self) -> (action: Action)
        ensures
            action == self.asks(),
    {
        match &self.phase {
            StartPhase::Clearing => Action::WriteRaised { word: set_frame_alarm(0) },
            StartPhase::Reading => Action::ReadEnabled,
            StartPhase::Enabling { word } => Action::WriteEnabled { word: *word },
            StartPhase::Arming { arm } => arm.action(),
            StartPhase::Unmasking => Action::EnableIrq,
            StartPhase::Finished => Action::Finished,
        }
    }

    /// Take in what the action brought.
    pub fn step(&mut self, shared: &Bus, event: Event)
        requires
            answers(old(self).asks(), event),
        ensures
            *final(self) == old(self).next(*shared, event),
    {
        match (self.phase, event) {
            (StartPhase::Clearing, Event::Done) => {
                self.phase = StartPhase::Reading;
            },
            (StartPhase::Reading, Event::Word(word)) => {
                self.phase = StartPhase::Enabling { word: set_frame_alarm(word) };
            },
            (StartPhase::Enabling { .. }, Event::Done) => {
                self.phase = StartPhase::Arming { arm: ArmFrameAlarm::arm_frame_alarm(shared) };
            },
            (StartPhase::Arming { arm }, event) => {
                let mut arm = arm;
                arm.step(event);
                self.phase =
                match arm.phase {
                    ArmPhase::Finished => StartPhase::Unmasking,
                    _ => StartPhase::Arming { arm },
                };
            },
            (StartPhase::Unmasking, Event::Done) => {
                self.phase = StartPhase::Finished;
            },
            _ => {},
        }
    }
}

/// Where the idle task stands. It never finishes.
#[derive(Clone, Copy, Debug, PartialEq, Eq)]
pub enum IdleTask {
    /// Trying to take the bus.
    Locking,
    /// Keeping it alive.
    KeepingAlive,
    /// Sleeping until the next check.
    Sleeping { us: u32 },
}

/// Microseconds until the next idle check: what a keep-alive check reported, or a quarter
/// of a frame if a transfer holds the bus (it sends the SOF itself).
pub open spec fn tick_spec(kept_alive: Option<u32>) -> u32 {
    match kept_alive {
        Some(next_us) => next_us,
        None => BUSY_WAIT_US,
    }
}

/// Microseconds until the next idle check, from the outcome of this one.
pub fn tick(kept_alive: Option<u32>) -> (us: u32)
    ensures
        us == tick_spec(kept_alive),
{
    match kept_alive {
        Some(next_us) => next_us,
        None => BUSY_WAIT_US,
    }
}

impl IdleTask {
    /// The action that the task is waiting for.
    pub open spec fn asks(self) -> Action {
        match self {
            IdleTask::Locking => Action::TryLock,
            IdleTask::KeepingAlive => Action::Keepalive,
            IdleTask::Sleeping { us } => Action::Sleep { us },
        }
    }

    /// The task after an event.
    pub open spec fn next(self, event: Event) -> IdleTask {
        match (self, event) {
            (IdleTask::Locking, Event::Locked(locked)) => if locked {
                IdleTask::KeepingAlive
            } else {
                IdleTask::Sleeping { us: tick_spec(None) }
            },
            (IdleTask::KeepingAlive, Event::KeptAlive { next_us }) => IdleTask::Sleeping {
                us: tick_spec(Some(next_us)),
            },
            (IdleTask::Sleeping { .. }, Event::Done) => IdleTask::Locking,
            _ => self,
        }
    }

    /// The action to perform next.
    pub fn action(&self) -> (action: Action)
        ensures
            action == self.asks(),
    {
        match self {
            IdleTask::Locking => Action::TryLock,
            IdleTask::KeepingAlive => Action::Keepalive,
            IdleTask::Sleeping { us } => Action::Sleep { us: *us },
        }
    }

    /// Take in what the action brought.
    pub fn step(&mut self, event: Event)
        requires
            answers(old(self).asks(), event),
        ensures
            *final(self) == old(self).next(event),
    {
        let next = match (&*self, event) {
            (IdleTask::Locking, Event::Locked(locked)) => if locked {
                IdleTask::KeepingAlive
            } else {
                IdleTask::Sleeping { us: tick(None) }
            },
            (IdleTask::KeepingAlive, Event::KeptAlive { next_us }) => IdleTask::Sleeping {
                us: tick(Some(next_us)),
            },
            _ => IdleTask::Locking,
        };
        *self = next;
    }
}

/// The boundary armed is ahead of the reading it is computed from, by at most a frame, and
/// unless the timer wraps in between it lies `offset` past a multiple of 1 ms.
pub proof fn law_boundary_is_next(now: u32, offset: u32)
    requires
        offset < 1000,
    ensures
        1 <= elapsed_spec(now, next_boundary_spec(now, offset)) <= 1000,
        offset <= now && now + 1000 <= u32::MAX ==> next_boundary_spec(now, offset) % 1000
            == offset,
{
}

/// Arming always leaves a target ahead of the last reading, as long as it takes less than
/// a frame: the alarm is not missed.
pub proof fn law_armed_ahead(arm: ArmFrameAlarm, event: Event)
    requires
        answers(arm.asks(), event),
        arm.phase is Checking,
    ensures
        ({
            let target = arm.phase->Checking_target;
            &&& event is Clock
            &&& arm.next(event).phase is Finished ==> !reached_spec(target, event->Clock_0)
            &&& arm.next(event).phase matches ArmPhase::Rewriting { target: rewritten } ==> (
            elapsed_spec(target, event->Clock_0) < 1000 ==> !reached_spec(
                rewritten,
                event->Clock_0,
            ))
        }),
{
}

/// A retry is not missed either: its target is ahead of the last reading, or the interrupt
/// is made pending.
pub proof fn law_retry_not_missed(retry: ArmRetryAlarm, shared: Bus, event: Event)
    requires
        answers(retry.asks(), event),
        retry.phase is Checking,
    ensures
        ({
            let target = retry.phase->Checking_target;
            &&& event is Clock
            &&& reached_spec(target, event->Clock_0) ==> retry.next(shared, event).asks() is Pend
            &&& !reached_spec(target, event->Clock_0) ==> retry.next(shared, event).phase
                is Finished
        }),
{
}

impl FrameTick {
    /// The alarm target that is written and about to be held against the timer.
    pub open spec fn armed(self) -> Option<u32> {
        match self.phase {
            TickPhase::Arming { arm } => match arm.phase {
                ArmPhase::Checking { target } => Some(target),
                _ => None,
            },
            TickPhase::Retrying { retry } => match retry.phase {
                RetryPhase::Checking { target } => Some(target),
                RetryPhase::Boundary { arm } => match arm.phase {
                    ArmPhase::Checking { target } => Some(target),
                    _ => None,
                },
                _ => None,
            },
            _ => None,
        }
    }

    /// A bound on the actions left.
    pub open spec fn left(self) -> nat {
        match self.phase {
            TickPhase::Clearing => 9,
            TickPhase::Locking => 8,
            TickPhase::KeepingAlive => 6,
            TickPhase::Arming { arm } => arm.left(),
            TickPhase::Retrying { retry } => match retry.phase {
                RetryPhase::Reading => 6,
                RetryPhase::Boundary { arm } => arm.left(),
                RetryPhase::Writing { .. } => 3,
                RetryPhase::Checking { .. } => 2,
                RetryPhase::Pending => 1,
                RetryPhase::Finished => 0,
            },
            TickPhase::Finished => 0,
        }
    }
}

impl ArmFrameAlarm {
    /// A bound on the actions left.
    pub open spec fn left(self) -> nat {
        match self.phase {
            ArmPhase::Reading => 4,
            ArmPhase::Writing { .. } => 3,
            ArmPhase::Checking { .. } => 2,
            ArmPhase::Rewriting { .. } => 1,
            ArmPhase::Finished => 0,
        }
    }
}

/// The interrupt does not end without another one to come: it ends by writing the frame
/// after a target that had passed, by making itself pending, or on seeing that the target
/// it has just written is still ahead.
pub proof fn law_tick_rearms(tick: FrameTick, shared: Bus, event: Event)
    requires
        answers(tick.asks(), event),
    ensures
        tick.next(shared, event).phase is Finished ==> {
            ||| tick.asks() is WriteAlarm
            ||| tick.asks() is Pend
            ||| tick.armed() is Some && event is Clock && !reached_spec(
                tick.armed()->0,
                event->Clock_0,
            )
        },
        tick.next(shared, event).armed() matches Some(target) ==> tick.asks()
            == (Action::WriteAlarm { target }),
{
}

/// The interrupt is over after at most nine actions.
pub proof fn law_tick_is_bounded(tick: FrameTick, shared: Bus, event: Event)
    requires
        answers(tick.asks(), event),
    ensures
        tick.next(shared, event).left() < tick.left() <= 9,
{
}

/// The interrupt touches the bus only after taking it, and not at all if it is busy.
pub proof fn law_tick_keeps_off_busy_bus(tick: FrameTick, shared: Bus, event: Event)
    requires
        answers(tick.asks(), event),
    ensures
        tick.next(shared, event).asks() is Keepalive ==> tick.asks() is TryLock && event
            == Event::Locked(true),
{
}

/// With software SOFs the interrupt retries only while the frame's SOF is missing and
/// could still be sent without holding back the next one.
pub proof fn law_retry_only_while_useful(shared: Bus, now: u32)
    requires
        !shared.hw_sof,
    ensures
        retry_after(shared, now) is Some <==> (shared.last_sof_slot != slot_spec(now)
            && !shared.sof_paused && position_spec(now) < 500),
        retry_after(shared, now) matches Some(us) ==> us == 2,
{
}

/// The idle task never finishes, and each of its sleeps is at most a frame if the
/// keep-alive checks report at most a frame.
pub proof fn law_idle_task_runs_on(task: IdleTask, event: Event)
    requires
        answers(task.asks(), event),
        event matches Event::KeptAlive { next_us } ==> next_us <= 1000,
    ensures
        !(task.next(event).asks() is Finished),
        task.next(event) matches IdleTask::Sleeping { us } ==> us <= 1000,
        task is Sleeping ==> task.next(event).asks() is TryLock,
{
}

} // verus!
