//! What holds of every run of a reset and of a root-port poll.

use crate::bus::{Bus, DeviceEvent, Speed};
use crate::io::{answers, Action, Event};
use crate::reset::{BusReset, Phase, PollDevice, PollPhase};
use vstd::prelude::*;

verus! {

/// A reset and its bus after one event.
#[verifier::opaque]
pub open spec fn stepped(r: BusReset, bus: Bus, event: Event) -> (BusReset, Bus) {
    (r.next(bus, event), r.next_bus(bus, event))
}

/// A reset, begun on `bus`, and its bus after a sequence of events.
#[verifier::opaque]
pub open spec fn after(bus: Bus, events: Seq<Event>) -> (BusReset, Bus)
    decreases events.len(),
{
    if events.len() == 0 {
        (BusReset { phase: Phase::Pausing }, bus)
    } else {
        let before = after(bus, events.drop_last());
        stepped(before.0, before.1, events.last())
    }
}

/// The reset after the first `n` events.
pub open spec fn at(bus: Bus, events: Seq<Event>, n: int) -> BusReset {
    after(bus, events.take(n)).0
}

/// The bus after the first `n` events.
pub open spec fn bus_at(bus: Bus, events: Seq<Event>, n: int) -> Bus {
    after(bus, events.take(n)).1
}

/// Whether each event answers the action it was asked for.
#[verifier::opaque]
pub open spec fn is_run(bus: Bus, events: Seq<Event>) -> bool {
    forall|i: int|
        0 <= i < events.len() ==> answers(at(bus, events, i).asks(), #[trigger] events[i])
            && bus_at(bus, events, i).counter_readable(events[i])
}

proof fn lemma_unfold(bus: Bus, events: Seq<Event>, n: int)
    requires
        is_run(bus, events),
        0 <= n < events.len(),
    ensures
        stepped(at(bus, events, n), bus_at(bus, events, n), events[n]) == (
            at(bus, events, n + 1),
            bus_at(bus, events, n + 1),
        ),
        answers(at(bus, events, n).asks(), events[n]),
{
    reveal(is_run);
    reveal_with_fuel(after, 2);
    assert(events.take(n + 1).drop_last() =~= events.take(n));
    assert(events.take(n + 1).last() == events[n]);
}

proof fn lemma_start(bus: Bus, events: Seq<Event>)
    ensures
        at(bus, events, 0) == (BusReset { phase: Phase::Pausing }),
        bus_at(bus, events, 0) == bus,
        at(bus, events, events.len() as int) == after(bus, events).0,
        bus_at(bus, events, events.len() as int) == after(bus, events).1,
{
    reveal(after);
    assert(events.take(0).len() == 0);
    assert(events.take(events.len() as int) =~= events);
}

/// A reset sends no token, takes no reply and acknowledges nothing: no transaction reaches
/// the device before the reset and its recovery are over.
pub proof fn law_no_transaction_in_reset(r: BusReset)
    ensures
        !(r.asks() is Transmit),
        !(r.asks() is Receive),
        !(r.asks() is StartAck),
{
}

/// Whether a phase lies between the disarming of the hardware SOF and its rearming.
pub open spec fn lines_held(phase: Phase) -> bool {
    phase is Driving || phase is Holding || phase is Releasing || phase is Resuming
}

/// How the phases of a reset tie to the state of the bus.
pub open spec fn consistent(r: BusReset, bus: Bus, speed: Speed, has_hw: bool) -> bool {
    &&& bus.speed == speed
    &&& bus.hw_sof is Some == has_hw
    &&& lines_held(r.phase) ==> !bus.hw_active()
    &&& r.phase matches Phase::Disarming { switch } ==> !switch.on && !(switch.phase is Starting
        || switch.phase is Service || switch.phase is Preparing || switch.phase is Finished)
    &&& r.phase matches Phase::Arming { switch } ==> switch.on && has_hw && speed == Speed::Full
        && !(switch.phase is Finished) && (switch.phase is Starting || switch.phase is Service
        || switch.phase is Preparing ==> bus.hw_active())
    &&& r.phase is Recovering || r.phase is RecoverySleep || r.phase is Finished ==> bus.hw_active()
        == (has_hw && speed == Speed::Full)
}

proof fn lemma_step_consistent(r: BusReset, bus: Bus, event: Event, speed: Speed, has_hw: bool)
    requires
        consistent(r, bus, speed, has_hw),
        answers(r.asks(), event),
    ensures
        consistent(stepped(r, bus, event).0, stepped(r, bus, event).1, speed, has_hw),
{
    reveal(stepped);
}

proof fn lemma_consistent(bus: Bus, events: Seq<Event>, n: int)
    requires
        is_run(bus, events),
        0 <= n <= events.len(),
    ensures
        consistent(at(bus, events, n), bus_at(bus, events, n), bus.speed, bus.hw_sof is Some),
    decreases n,
{
    lemma_start(bus, events);
    if n > 0 {
        lemma_consistent(bus, events, n - 1);
        lemma_unfold(bus, events, n - 1);
        lemma_step_consistent(
            at(bus, events, n - 1),
            bus_at(bus, events, n - 1),
            events[n - 1],
            bus.speed,
            bus.hw_sof is Some,
        );
    }
}

/// While SE0 is driven, the hardware SOF is off.
pub proof fn law_hw_sof_off_during_reset(bus: Bus, events: Seq<Event>, n: int)
    requires
        is_run(bus, events),
        0 <= n <= events.len(),
        at(bus, events, n).asks() is DriveReset || at(bus, events, n).asks() is ReleaseReset || at(
            bus,
            events,
            n,
        ).phase is Holding,
    ensures
        !bus_at(bus, events, n).hw_active(),
{
    lemma_consistent(bus, events, n);
}

proof fn lemma_step_sequence(r: BusReset, bus: Bus, event: Event)
    requires
        answers(r.asks(), event),
    ensures
        ({
            let phase = stepped(r, bus, event).0.phase;
            &&& r.phase is Driving ==> phase is Holding
            &&& r.phase is Holding ==> phase is Releasing
            &&& r.phase is Releasing ==> phase is Resuming
            &&& phase is Holding ==> r.phase is Driving
            &&& phase is Releasing ==> r.phase is Holding
            &&& phase is Resuming ==> r.phase is Releasing
        }),
{
    reveal(stepped);
}

/// SE0 is driven, held for 50 ms and released, in this order and with nothing in between.
pub proof fn law_reset_pulse(bus: Bus, events: Seq<Event>, n: int)
    requires
        is_run(bus, events),
        0 <= n <= events.len(),
        at(bus, events, n).asks() is ReleaseReset,
    ensures
        n >= 2,
        at(bus, events, n - 1).asks() == (Action::Sleep { us: 50_000 }),
        at(bus, events, n - 2).asks() is DriveReset,
{
    lemma_start(bus, events);
    lemma_unfold(bus, events, n - 1);
    lemma_step_sequence(at(bus, events, n - 1), bus_at(bus, events, n - 1), events[n - 1]);
    lemma_unfold(bus, events, n - 2);
    lemma_step_sequence(at(bus, events, n - 2), bus_at(bus, events, n - 2), events[n - 2]);
}

/// Whether SOFs are announced as paused after the answered actions.
pub open spec fn paused(bus: Bus, events: Seq<Event>, n: int) -> bool
    decreases n,
{
    if n <= 0 {
        false
    } else {
        match at(bus, events, n - 1).asks() {
            Action::PauseSof { paused } => paused,
            _ => paused(bus, events, n - 1),
        }
    }
}

proof fn lemma_step_paused(r: BusReset, bus: Bus, event: Event)
    requires
        answers(r.asks(), event),
    ensures
        ({
            let phase = stepped(r, bus, event).0.phase;
            &&& !(phase is Pausing)
            &&& phase is Disarming ==> r.phase is Pausing || r.phase is Disarming
            &&& lines_held(phase) ==> r.phase is Pausing || r.phase is Disarming || lines_held(
                r.phase,
            )
            &&& lines_held(phase) ==> !(r.phase is Resuming)
            &&& !(phase is Disarming || lines_held(phase)) ==> !(r.phase is Pausing || r.phase
                is Disarming || r.phase is Driving || r.phase is Holding || r.phase is Releasing)
            &&& r.asks() is PauseSof ==> r.phase is Pausing || r.phase is Resuming
            &&& r.phase is Pausing ==> r.asks() == (Action::PauseSof { paused: true })
            &&& r.phase is Resuming ==> r.asks() == (Action::PauseSof { paused: false })
        }),
{
    reveal(stepped);
}

/// SOFs are announced as paused for as long as the port is held in reset, and no longer
/// once the reset is over.
pub proof fn law_sof_paused_during_reset(bus: Bus, events: Seq<Event>, n: int)
    requires
        is_run(bus, events),
        0 <= n <= events.len(),
    ensures
        ({
            let phase = at(bus, events, n).phase;
            if phase is Disarming || lines_held(phase) {
                paused(bus, events, n)
            } else {
                !paused(bus, events, n)
            }
        }),
    decreases n,
{
    lemma_start(bus, events);
    if n > 0 {
        law_sof_paused_during_reset(bus, events, n - 1);
        lemma_unfold(bus, events, n - 1);
        lemma_step_paused(at(bus, events, n - 1), bus_at(bus, events, n - 1), events[n - 1]);
    }
}

/// How many sleeps have been answered.
pub open spec fn slept(bus: Bus, events: Seq<Event>, n: int) -> nat
    decreases n,
{
    if n <= 0 {
        0
    } else {
        slept(bus, events, n - 1) + (if at(bus, events, n - 1).asks() is Sleep {
            1nat
        } else {
            0nat
        })
    }
}

/// The sleeps that a phase has behind it.
pub open spec fn sleeps_before(phase: Phase) -> nat {
    match phase {
        Phase::Pausing => 0,
        Phase::Disarming { .. } => 0,
        Phase::Driving => 0,
        Phase::Holding => 0,
        Phase::Releasing => 1,
        Phase::Resuming => 1,
        Phase::Arming { .. } => 1,
        Phase::Recovering { frame, .. } => 1 + frame as nat,
        Phase::RecoverySleep { frame, .. } => 1 + frame as nat,
        Phase::Finished => 16,
    }
}

/// Whether the frame counter of a phase is in range.
pub open spec fn frame_ok(phase: Phase) -> bool {
    &&& phase matches Phase::Recovering { frame, .. } ==> frame < 15
    &&& phase matches Phase::RecoverySleep { frame, .. } ==> frame < 15
}

proof fn lemma_step_sleeps(r: BusReset, bus: Bus, event: Event)
    requires
        answers(r.asks(), event),
        frame_ok(r.phase),
    ensures
        ({
            let phase = stepped(r, bus, event).0.phase;
            &&& frame_ok(phase)
            &&& sleeps_before(phase) == sleeps_before(r.phase) + (if r.asks() is Sleep {
                1nat
            } else {
                0nat
            })
        }),
{
    reveal(stepped);
}

proof fn lemma_sleeps(bus: Bus, events: Seq<Event>, n: int)
    requires
        is_run(bus, events),
        0 <= n <= events.len(),
    ensures
        frame_ok(at(bus, events, n).phase),
        slept(bus, events, n) == sleeps_before(at(bus, events, n).phase),
    decreases n,
{
    lemma_start(bus, events);
    if n > 0 {
        lemma_sleeps(bus, events, n - 1);
        lemma_unfold(bus, events, n - 1);
        lemma_step_sleeps(at(bus, events, n - 1), bus_at(bus, events, n - 1), events[n - 1]);
    }
}

/// A finished reset has slept 16 times: once with SE0 driven, and once in each of the 15
/// recovery frames.
pub proof fn law_recovery_frames(bus: Bus, events: Seq<Event>)
    requires
        is_run(bus, events),
        after(bus, events).0.phase is Finished,
    ensures
        slept(bus, events, events.len() as int) == 16,
{
    lemma_start(bus, events);
    lemma_sleeps(bus, events, events.len() as int);
}

/// After a reset, hardware SOFs run exactly if the bus has a hardware SOF and is at full
/// speed.
pub proof fn law_hw_sof_after_reset(bus: Bus, events: Seq<Event>)
    requires
        is_run(bus, events),
        after(bus, events).0.phase is Finished,
    ensures
        after(bus, events).1.hw_active() == (bus.hw_sof is Some && bus.speed == Speed::Full),
        after(bus, events).1.speed == bus.speed,
{
    lemma_start(bus, events);
    lemma_consistent(bus, events, events.len() as int);
}

proof fn lemma_step_attachment(r: BusReset, bus: Bus, event: Event)
    ensures
        ({
            let after = stepped(r, bus, event).1;
            &&& after.attached == bus.attached
            &&& after.debounce == bus.debounce
            &&& after.absent == bus.absent
            &&& after.speed == bus.speed
            &&& after.sof_sm == bus.sof_sm
        }),
{
    reveal(stepped);
}

/// A reset leaves attachment, debounce and speed alone, at every point and as a whole: it
/// neither reports nor hides a device.
pub proof fn law_reset_keeps_attachment(bus: Bus, events: Seq<Event>, n: int)
    requires
        is_run(bus, events),
        0 <= n <= events.len(),
    ensures
        bus_at(bus, events, n).attached == bus.attached,
        bus_at(bus, events, n).debounce == bus.debounce,
        bus_at(bus, events, n).absent == bus.absent,
        bus_at(bus, events, n).speed == bus.speed,
        bus_at(bus, events, n).sof_sm == bus.sof_sm,
        n == events.len() ==> bus_at(bus, events, n) == after(bus, events).1,
    decreases n,
{
    lemma_start(bus, events);
    if n > 0 {
        law_reset_keeps_attachment(bus, events, n - 1);
        lemma_unfold(bus, events, n - 1);
        lemma_step_attachment(at(bus, events, n - 1), bus_at(bus, events, n - 1), events[n - 1]);
    }
}

/// A poll and its bus after one event.
#[verifier::opaque]
pub open spec fn poll_stepped(p: PollDevice, bus: Bus, event: Event) -> (PollDevice, Bus) {
    (p.next(bus, event), p.next_bus(bus, event))
}

/// A poll, begun on `bus`, and its bus after a sequence of events.
#[verifier::opaque]
pub open spec fn poll_after(bus: Bus, events: Seq<Event>) -> (PollDevice, Bus)
    decreases events.len(),
{
    if events.len() == 0 {
        (PollDevice { phase: PollPhase::Sampling }, bus)
    } else {
        let before = poll_after(bus, events.drop_last());
        poll_stepped(before.0, before.1, events.last())
    }
}

/// The poll after the first `n` events.
pub open spec fn poll_at(bus: Bus, events: Seq<Event>, n: int) -> PollDevice {
    poll_after(bus, events.take(n)).0
}

/// Whether each event answers the action it was asked for.
#[verifier::opaque]
pub open spec fn is_poll_run(bus: Bus, events: Seq<Event>) -> bool {
    forall|i: int|
        0 <= i < events.len() ==> answers(poll_at(bus, events, i).asks(), #[trigger] events[i])
            && poll_after(bus, events.take(i)).1.counter_readable(events[i])
}

proof fn lemma_poll_unfold(bus: Bus, events: Seq<Event>, n: int)
    requires
        is_poll_run(bus, events),
        0 <= n < events.len(),
    ensures
        poll_stepped(poll_at(bus, events, n), poll_after(bus, events.take(n)).1, events[n])
            == poll_after(bus, events.take(n + 1)),
        answers(poll_at(bus, events, n).asks(), events[n]),
{
    reveal(is_poll_run);
    reveal_with_fuel(poll_after, 2);
    assert(events.take(n + 1).drop_last() =~= events.take(n));
    assert(events.take(n + 1).last() == events[n]);
}

proof fn lemma_poll_start(bus: Bus, events: Seq<Event>)
    ensures
        poll_at(bus, events, 0) == (PollDevice { phase: PollPhase::Sampling }),
        poll_after(bus, events.take(0)).1 == bus,
        events.take(events.len() as int) == events,
{
    reveal(poll_after);
    assert(events.take(0).len() == 0);
    assert(events.take(events.len() as int) =~= events);
}

/// Progress of a reset.
pub open spec fn rank(phase: Phase) -> int {
    match phase {
        Phase::Pausing => 0,
        Phase::Disarming { .. } => 1,
        Phase::Driving => 2,
        Phase::Holding => 3,
        Phase::Releasing => 4,
        Phase::Resuming => 5,
        Phase::Arming { .. } => 6,
        Phase::Recovering { .. } => 7,
        Phase::RecoverySleep { .. } => 7,
        Phase::Finished => 8,
    }
}

/// How far a poll that reports an attached device has come with its reset.
pub open spec fn reset_rank(phase: PollPhase) -> int {
    match phase {
        PollPhase::Resetting { reset, .. } => rank(reset.phase),
        PollPhase::Finished { event: Some(DeviceEvent::Connected(_)) } => 8,
        _ => -1,
    }
}

/// Which device state a poll phase stands for.
pub open spec fn poll_consistent(p: PollDevice, bus: Bus) -> bool {
    match p.phase {
        PollPhase::Sampling => true,
        PollPhase::Disarming { change: DeviceEvent::Connected(speed), switch } => bus.attached
            && bus.speed == speed && !(switch.phase is Finished),
        PollPhase::Disarming { change: DeviceEvent::Disconnected, switch } => !bus.attached && !(
        switch.phase is Finished),
        PollPhase::SettingSpeed { speed } => bus.attached && bus.speed == speed,
        PollPhase::Resetting { speed, reset } => bus.attached && bus.speed == speed && !(
        reset.phase is Finished),
        PollPhase::Releasing => !bus.attached,
        PollPhase::Finished { event: Some(DeviceEvent::Connected(speed)) } => bus.attached
            && bus.speed == speed,
        PollPhase::Finished { event: Some(DeviceEvent::Disconnected) } => !bus.attached,
        PollPhase::Finished { event: None } => true,
    }
}

proof fn lemma_step_poll(p: PollDevice, bus: Bus, event: Event)
    requires
        answers(p.asks(), event),
        poll_consistent(p, bus),
    ensures
        ({
            let (p1, b1) = poll_stepped(p, bus, event);
            &&& poll_consistent(p1, b1)
            &&& reset_rank(p1.phase) >= 5 ==> reset_rank(p.phase) >= 5 || p.asks() is ReleaseReset
            &&& p1.phase is Finished && !(p.phase is Sampling) ==> reset_rank(p.phase) >= 6
                || p.phase is Releasing
            &&& p.asks() is ReleaseReset ==> reset_rank(p.phase) == 4
        }),
{
    reveal(poll_stepped);
}

proof fn lemma_poll_consistent(bus: Bus, events: Seq<Event>, n: int)
    requires
        is_poll_run(bus, events),
        0 <= n <= events.len(),
    ensures
        poll_consistent(poll_at(bus, events, n), poll_after(bus, events.take(n)).1),
    decreases n,
{
    lemma_poll_start(bus, events);
    if n > 0 {
        lemma_poll_consistent(bus, events, n - 1);
        lemma_poll_unfold(bus, events, n - 1);
        lemma_step_poll(
            poll_at(bus, events, n - 1),
            poll_after(bus, events.take(n - 1)).1,
            events[n - 1],
        );
    }
}

proof fn lemma_released(bus: Bus, events: Seq<Event>, n: int) -> (j: int)
    requires
        is_poll_run(bus, events),
        0 <= n <= events.len(),
        reset_rank(poll_at(bus, events, n).phase) >= 5,
    ensures
        0 <= j < n,
        poll_at(bus, events, j).asks() is ReleaseReset,
        reset_rank(poll_at(bus, events, j).phase) == 4,
    decreases n,
{
    lemma_poll_start(bus, events);
    lemma_poll_consistent(bus, events, n - 1);
    lemma_poll_unfold(bus, events, n - 1);
    lemma_step_poll(
        poll_at(bus, events, n - 1),
        poll_after(bus, events.take(n - 1)).1,
        events[n - 1],
    );
    if poll_at(bus, events, n - 1).asks() is ReleaseReset {
        n - 1
    } else {
        lemma_released(bus, events, n - 1)
    }
}

/// How many sleeps a poll has answered.
pub open spec fn poll_slept(bus: Bus, events: Seq<Event>, n: int) -> nat
    decreases n,
{
    if n <= 0 {
        0
    } else {
        poll_slept(bus, events, n - 1) + (if poll_at(bus, events, n - 1).asks() is Sleep {
            1nat
        } else {
            0nat
        })
    }
}

/// The sleeps that a phase of a poll has behind it: those of its reset.
pub open spec fn poll_sleeps_before(phase: PollPhase) -> nat {
    match phase {
        PollPhase::Resetting { reset, .. } => sleeps_before(reset.phase),
        PollPhase::Finished { event: Some(DeviceEvent::Connected(_)) } => 16,
        _ => 0,
    }
}

/// Whether the frame counter of a poll's reset is in range.
pub open spec fn poll_frame_ok(phase: PollPhase) -> bool {
    phase matches PollPhase::Resetting { reset, .. } ==> frame_ok(reset.phase)
}

/// Whether a poll has neither a reset behind it nor one to come.
pub open spec fn without_reset(phase: PollPhase) -> bool {
    match phase {
        PollPhase::Disarming { change: DeviceEvent::Disconnected, .. } => true,
        PollPhase::Releasing => true,
        PollPhase::Finished { event: Some(DeviceEvent::Connected(_)) } => false,
        PollPhase::Finished { .. } => true,
        _ => false,
    }
}

proof fn lemma_step_poll_reset(p: PollDevice, bus: Bus, event: Event)
    requires
        answers(p.asks(), event),
        poll_frame_ok(p.phase),
    ensures
        ({
            let phase = poll_stepped(p, bus, event).0.phase;
            &&& poll_frame_ok(phase)
            &&& poll_sleeps_before(phase) == poll_sleeps_before(p.phase) + (if p.asks() is Sleep {
                1nat
            } else {
                0nat
            })
            &&& reset_rank(phase) == 3 ==> reset_rank(p.phase) == 2 && p.asks() is DriveReset
            &&& reset_rank(phase) == 4 ==> reset_rank(p.phase) == 3 && p.asks() == (
            Action::Sleep { us: 50_000 })
            &&& !(phase is Sampling)
            &&& without_reset(phase) ==> (p.phase is Sampling || without_reset(p.phase))
            &&& p.asks() is DriveReset ==> reset_rank(p.phase) == 2
        }),
{
    reveal(poll_stepped);
}

proof fn lemma_poll_reset(bus: Bus, events: Seq<Event>, n: int)
    requires
        is_poll_run(bus, events),
        0 <= n <= events.len(),
    ensures
        poll_frame_ok(poll_at(bus, events, n).phase),
        poll_slept(bus, events, n) == poll_sleeps_before(poll_at(bus, events, n).phase),
        poll_at(bus, events, n).phase is Sampling ==> n == 0,
        without_reset(poll_at(bus, events, n).phase) ==> forall|i: int|
            0 <= i < n ==> !((#[trigger] poll_at(bus, events, i)).asks() is DriveReset),
    decreases n,
{
    lemma_poll_start(bus, events);
    if n > 0 {
        lemma_poll_reset(bus, events, n - 1);
        lemma_poll_unfold(bus, events, n - 1);
        lemma_step_poll_reset(
            poll_at(bus, events, n - 1),
            poll_after(bus, events.take(n - 1)).1,
            events[n - 1],
        );
    }
}

/// Whether a whole reset lies behind a poll: SE0 driven at action `i`, held for 50 ms and
/// released, then a sleep in each of 15 recovery frames.
pub open spec fn reset_whole(bus: Bus, events: Seq<Event>, i: int) -> bool {
    &&& 0 <= i
    &&& i + 2 < events.len()
    &&& poll_at(bus, events, i).asks() is DriveReset
    &&& poll_at(bus, events, i + 1).asks() == (Action::Sleep { us: 50_000 })
    &&& poll_at(bus, events, i + 2).asks() is ReleaseReset
    &&& poll_slept(bus, events, i + 3) == 1
    &&& poll_slept(bus, events, events.len() as int) == 1 + 15
}

/// A poll reports a device only after a whole reset of it, and then the bus is attached and
/// runs at the reported speed; it reports a detached device only with the bus detached, and
/// drives no reset on the way.
pub proof fn law_reported_device_was_reset(bus: Bus, events: Seq<Event>)
    requires
        is_poll_run(bus, events),
    ensures
        poll_after(bus, events).0.phase matches PollPhase::Finished {
            event: Some(DeviceEvent::Connected(speed)),
        } ==> poll_after(bus, events).1.attached && poll_after(bus, events).1.speed == speed
            && exists|i: int| reset_whole(bus, events, i),
        poll_after(bus, events).0.phase == (PollPhase::Finished {
            event: Some(DeviceEvent::Disconnected),
        }) ==> !poll_after(bus, events).1.attached && forall|i: int|
            0 <= i < events.len() ==> !((#[trigger] poll_at(bus, events, i)).asks() is DriveReset),
{
    let n = events.len() as int;
    lemma_poll_start(bus, events);
    lemma_poll_consistent(bus, events, n);
    lemma_poll_reset(bus, events, n);
    if reset_rank(poll_after(bus, events).0.phase) == 8 {
        let j = lemma_released(bus, events, n);
        lemma_poll_reset(bus, events, j);
        lemma_poll_unfold(bus, events, j - 1);
        lemma_poll_reset(bus, events, j - 1);
        lemma_step_poll_reset(
            poll_at(bus, events, j - 1),
            poll_after(bus, events.take(j - 1)).1,
            events[j - 1],
        );
        lemma_poll_unfold(bus, events, j - 2);
        lemma_poll_reset(bus, events, j - 2);
        lemma_step_poll_reset(
            poll_at(bus, events, j - 2),
            poll_after(bus, events.take(j - 2)).1,
            events[j - 2],
        );
        assert(reset_whole(bus, events, j - 2));
    }
}

} // verus!
