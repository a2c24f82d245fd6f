//! What holds of every run of a transaction, whatever the hardware reports.

use crate::bus::{Bus, RxPacketStatus};
use crate::frame::{elapsed_spec, near_boundary_spec, slot_spec};
use crate::io::{answers, Action, Event};
use crate::reply::{handshake_bad, in_reply_bad};
use crate::settle::{counted_from, idle_from, law_settled, settle_after, Sample, Settle};
use crate::transaction::{guard_phase, Phase, Transaction};
use vstd::prelude::*;

verus! {

/// A transaction and its bus after one event.
#[verifier::opaque]
pub open spec fn stepped(t: Transaction, bus: Bus, event: Event) -> (Transaction, Bus) {
    (t.next(bus, event), t.next_bus(bus, event))
}

/// A transaction and its bus after a sequence of events.
#[verifier::opaque]
pub open spec fn after(t: Transaction, bus: Bus, events: Seq<Event>) -> (Transaction, Bus)
    decreases events.len(),
{
    if events.len() == 0 {
        (t, bus)
    } else {
        let before = after(t, bus, events.drop_last());
        stepped(before.0, before.1, events.last())
    }
}

/// The transaction after the first `n` events.
pub open spec fn at(t: Transaction, bus: Bus, events: Seq<Event>, n: int) -> Transaction {
    after(t, bus, events.take(n)).0
}

/// The bus after the first `n` events.
pub open spec fn bus_at(t: Transaction, bus: Bus, events: Seq<Event>, n: int) -> Bus {
    after(t, bus, events.take(n)).1
}

/// Whether each event answers the action it was asked for.
#[verifier::opaque]
pub open spec fn is_run(t: Transaction, bus: Bus, events: Seq<Event>) -> bool {
    forall|i: int|
        0 <= i < events.len() ==> answers(at(t, bus, events, i).asks(), #[trigger] events[i])
            && bus_at(t, bus, events, i).counter_readable(events[i])
}

/// Whether a transaction has just been made for a bus.
pub open spec fn fresh(t: Transaction, bus: Bus) -> bool {
    t.phase == Phase::Stamp || t.phase == guard_phase(bus)
}

/// Progress of a phase; no step takes it back.
pub open spec fn rank(phase: Phase) -> int {
    match phase {
        Phase::Stamp => 0,
        Phase::HwGuard => 1,
        Phase::HwService => 2,
        Phase::Preparing { .. } => 3,
        Phase::Guard => 1,
        Phase::NextFrame { .. } => 2,
        Phase::Sof => 3,
        Phase::SofSending { .. } => 4,
        Phase::Sending => 5,
        Phase::Receiving => 6,
        Phase::Acking { .. } => 7,
        Phase::ReplyStamp { .. } => 8,
        Phase::Draining => 9,
        Phase::SettleStart => 9,
        Phase::Settling { .. } => 10,
        Phase::SettleStamp => 11,
        Phase::Finished => 12,
    }
}

/// Whether an action puts a packet on the bus.
pub open spec fn sends(action: Action) -> bool {
    action is Transmit || action is TransmitSof || action is StartAck
}

proof fn lemma_unfold(t: Transaction, bus: Bus, events: Seq<Event>, n: int)
    requires
        is_run(t, bus, events),
        0 <= n < events.len(),
    ensures
        stepped(at(t, bus, events, n), bus_at(t, bus, events, n), events[n]) == (
            at(t, bus, events, n + 1),
            bus_at(t, bus, events, n + 1),
        ),
        answers(at(t, bus, events, n).asks(), events[n]),
{
    reveal(is_run);
    reveal_with_fuel(after, 2);
    assert(events.take(n + 1).drop_last() =~= events.take(n));
    assert(events.take(n + 1).last() == events[n]);
}

proof fn lemma_start(t: Transaction, bus: Bus, events: Seq<Event>)
    ensures
        at(t, bus, events, 0) == t,
        bus_at(t, bus, events, 0) == bus,
        at(t, bus, events, events.len() as int) == after(t, bus, events).0,
        bus_at(t, bus, events, events.len() as int) == after(t, bus, events).1,
{
    reveal(after);
    assert(events.take(0).len() == 0);
    assert(events.take(events.len() as int) =~= events);
}

proof fn lemma_step_fixed(t: Transaction, bus: Bus, event: Event)
    ensures
        ({
            let (t1, b1) = stepped(t, bus, event);
            &&& t1.at(t.phase) == t
            &&& b1.attached == bus.attached
            &&& b1.speed == bus.speed
            &&& b1.hw_active() == bus.hw_active()
            &&& b1.hw_sof is Some == bus.hw_sof is Some
            &&& bus.hw_sof is Some ==> b1.hw_sof->0.counts == bus.hw_sof->0.counts
        }),
{
    reveal(stepped);
}

/// What a transaction never changes: what it sends, and the mode of the bus.
proof fn lemma_fixed(t: Transaction, bus: Bus, events: Seq<Event>, n: int)
    requires
        is_run(t, bus, events),
        0 <= n <= events.len(),
    ensures
        at(t, bus, events, n).at(t.phase) == t,
        bus_at(t, bus, events, n).attached == bus.attached,
        bus_at(t, bus, events, n).speed == bus.speed,
        bus_at(t, bus, events, n).hw_active() == bus.hw_active(),
        bus_at(t, bus, events, n).hw_sof is Some == bus.hw_sof is Some,
        bus.hw_sof is Some ==> bus_at(t, bus, events, n).hw_sof->0.counts == bus.hw_sof->0.counts,
    decreases n,
{
    lemma_start(t, bus, events);
    if n > 0 {
        lemma_fixed(t, bus, events, n - 1);
        lemma_unfold(t, bus, events, n - 1);
        lemma_step_fixed(at(t, bus, events, n - 1), bus_at(t, bus, events, n - 1), events[n - 1]);
    }
}

proof fn lemma_step_rank(t: Transaction, bus: Bus, event: Event)
    requires
        answers(t.asks(), event),
    ensures
        rank(t.phase) <= rank(stepped(t, bus, event).0.phase),
        sends(t.asks()) || t.asks() is PrepareSof ==> rank(t.phase) < rank(
            stepped(t, bus, event).0.phase,
        ),
{
    reveal(stepped);
}

proof fn lemma_rank_grows(t: Transaction, bus: Bus, events: Seq<Event>, i: int, j: int)
    requires
        is_run(t, bus, events),
        0 <= i <= j <= events.len(),
    ensures
        rank(at(t, bus, events, i).phase) <= rank(at(t, bus, events, j).phase),
        i < j && (sends(at(t, bus, events, i).asks()) || at(t, bus, events, i).asks() is PrepareSof)
            ==> rank(at(t, bus, events, i).phase) < rank(at(t, bus, events, j).phase),
    decreases j - i,
{
    if i < j {
        lemma_rank_grows(t, bus, events, i + 1, j);
        lemma_unfold(t, bus, events, i);
        lemma_step_rank(at(t, bus, events, i), bus_at(t, bus, events, i), events[i]);
    }
}

/// In a run, the token goes out at most once, and so do the SOF, the prepared SOF and the
/// ACK.
pub proof fn law_sent_once(t: Transaction, bus: Bus, events: Seq<Event>, i: int, j: int)
    requires
        is_run(t, bus, events),
        0 <= i < j <= events.len(),
    ensures
        !(at(t, bus, events, i).asks() is Transmit && at(t, bus, events, j).asks() is Transmit),
        !(at(t, bus, events, i).asks() is TransmitSof && at(
            t,
            bus,
            events,
            j,
        ).asks() is TransmitSof),
        !(at(t, bus, events, i).asks() is PrepareSof && at(t, bus, events, j).asks() is PrepareSof),
        !(at(t, bus, events, i).asks() is StartAck && at(t, bus, events, j).asks() is StartAck),
{
    lemma_rank_grows(t, bus, events, i, j);
}

/// Once a reply has been received, no token, data or SOF goes out any more in this
/// transaction, and no SOF is prepared: at most the ACK.
pub proof fn law_only_ack_after_reply(
    t: Transaction,
    bus: Bus,
    events: Seq<Event>,
    i: int,
    n: int,
)
    requires
        is_run(t, bus, events),
        0 <= i < n <= events.len(),
        events[i] is Received,
    ensures
        !(at(t, bus, events, n).asks() is Transmit),
        !(at(t, bus, events, n).asks() is TransmitSof),
        !(at(t, bus, events, n).asks() is PrepareSof),
{
    lemma_unfold(t, bus, events, i);
    lemma_rank_grows(t, bus, events, i, n);
}

/// A run that ends has sent its token, and received its reply after that.
pub proof fn law_finished_has_exchanged(t: Transaction, bus: Bus, events: Seq<Event>)
    requires
        is_run(t, bus, events),
        fresh(t, bus),
        after(t, bus, events).0.phase is Finished,
    ensures
        exists|i: int, j: int|
            0 <= i < j < events.len() && (#[trigger] at(t, bus, events, i)).asks()
                == (Action::Transmit { token: t.token, data: t.data }) && (#[trigger] at(
                t,
                bus,
                events,
                j,
            )).asks() is Receive,
{
    let n = events.len() as int;
    lemma_start(t, bus, events);
    let j = lemma_passed_receive(t, bus, events, n);
    let i = lemma_passed_sending(t, bus, events, j);
    lemma_fixed(t, bus, events, i);
    assert(at(t, bus, events, i).asks() == (Action::Transmit { token: t.token, data: t.data }));
    assert(at(t, bus, events, j).asks() is Receive);
}

proof fn lemma_step_exchange(t: Transaction, bus: Bus, event: Event)
    requires
        answers(t.asks(), event),
    ensures
        rank(stepped(t, bus, event).0.phase) >= 7 ==> rank(t.phase) >= 7 || t.phase is Receiving,
        rank(stepped(t, bus, event).0.phase) >= 6 ==> rank(t.phase) >= 6 || t.phase is Sending,
{
    reveal(stepped);
}

proof fn lemma_passed_receive(t: Transaction, bus: Bus, events: Seq<Event>, n: int) -> (j: int)
    requires
        is_run(t, bus, events),
        fresh(t, bus),
        0 <= n <= events.len(),
        rank(at(t, bus, events, n).phase) >= 7,
    ensures
        0 <= j < n,
        at(t, bus, events, j).phase is Receiving,
    decreases n,
{
    lemma_start(t, bus, events);
    lemma_unfold(t, bus, events, n - 1);
    lemma_step_exchange(at(t, bus, events, n - 1), bus_at(t, bus, events, n - 1), events[n - 1]);
    if at(t, bus, events, n - 1).phase is Receiving {
        n - 1
    } else {
        lemma_passed_receive(t, bus, events, n - 1)
    }
}

proof fn lemma_passed_sending(t: Transaction, bus: Bus, events: Seq<Event>, n: int) -> (i: int)
    requires
        is_run(t, bus, events),
        fresh(t, bus),
        0 <= n <= events.len(),
        rank(at(t, bus, events, n).phase) >= 6,
    ensures
        0 <= i < n,
        at(t, bus, events, i).phase is Sending,
    decreases n,
{
    lemma_start(t, bus, events);
    lemma_unfold(t, bus, events, n - 1);
    lemma_step_exchange(at(t, bus, events, n - 1), bus_at(t, bus, events, n - 1), events[n - 1]);
    if at(t, bus, events, n - 1).phase is Sending {
        n - 1
    } else {
        lemma_passed_sending(t, bus, events, n - 1)
    }
}

/// Whether event `k` is a timer reading at which a transaction may start: outside the
/// end-of-frame guard, or in another frame than an earlier reading.
pub open spec fn clear_reading(events: Seq<Event>, k: int) -> bool {
    events[k] matches Event::Clock(now) && (!near_boundary_spec(now) || exists|j: int|
        0 <= j < k && ((#[trigger] events[j]) matches Event::Clock(earlier) && slot_spec(earlier)
            != slot_spec(now)))
}

/// With software SOFs on a full-speed bus, the token is sent only after a timer reading
/// clear of the next frame boundary.
pub proof fn law_token_clear_of_boundary(t: Transaction, bus: Bus, events: Seq<Event>, n: int)
    requires
        is_run(t, bus, events),
        fresh(t, bus),
        bus.full_speed(),
        !bus.hw_active(),
        0 <= n <= events.len(),
        at(t, bus, events, n).asks() is Transmit,
    ensures
        exists|k: int| 0 <= k < n && #[trigger] clear_reading(events, k),
{
    lemma_guarded(t, bus, events, n);
}

proof fn lemma_step_guard(t: Transaction, bus: Bus, event: Event)
    requires
        answers(t.asks(), event),
        bus.full_speed(),
        !bus.hw_active(),
        !(t.phase is HwGuard || t.phase is HwService || t.phase is Preparing),
    ensures
        ({
            let phase = stepped(t, bus, event).0.phase;
            &&& !(phase is HwGuard || phase is HwService || phase is Preparing)
            &&& phase matches Phase::NextFrame { slot } ==> t.phase == phase || (event
                matches Event::Clock(now) && slot_spec(now) == slot)
            &&& rank(phase) >= 3 ==> rank(t.phase) >= 3 || (event matches Event::Clock(now) && (
            !near_boundary_spec(now) || (t.phase matches Phase::NextFrame { slot } && slot
                != slot_spec(now))))
        }),
{
    reveal(stepped);
}

proof fn lemma_guarded(t: Transaction, bus: Bus, events: Seq<Event>, n: int)
    requires
        is_run(t, bus, events),
        fresh(t, bus),
        bus.full_speed(),
        !bus.hw_active(),
        0 <= n <= events.len(),
    ensures
        ({
            let phase = at(t, bus, events, n).phase;
            &&& !(phase is HwGuard || phase is HwService || phase is Preparing)
            &&& phase matches Phase::NextFrame { slot } ==> exists|j: int|
                0 <= j < n && ((#[trigger] events[j]) matches Event::Clock(earlier) && slot_spec(
                    earlier,
                ) == slot)
            &&& rank(phase) >= 3 ==> exists|k: int| 0 <= k < n && #[trigger] clear_reading(events, k)
        }),
    decreases n,
{
    lemma_start(t, bus, events);
    if n > 0 {
        lemma_guarded(t, bus, events, n - 1);
        lemma_unfold(t, bus, events, n - 1);
        lemma_fixed(t, bus, events, n - 1);
        lemma_step_guard(at(t, bus, events, n - 1), bus_at(t, bus, events, n - 1), events[n - 1]);
        let before = at(t, bus, events, n - 1).phase;
        let phase = at(t, bus, events, n).phase;
        if rank(phase) >= 3 && rank(before) < 3 {
            if let Phase::NextFrame { slot } = before {
                let j = choose|j: int|
                    0 <= j < n - 1 && ((#[trigger] events[j]) matches Event::Clock(earlier)
                        && slot_spec(earlier) == slot);
                assert(events[j] is Clock);
            }
            assert(clear_reading(events, n - 1));
        }
    }
}

/// With hardware SOFs, the token is sent only after a reading of the frame counter that is
/// clear of the SOF and of the next boundary.
pub proof fn law_token_clear_of_hw_sof(t: Transaction, bus: Bus, events: Seq<Event>, n: int)
    requires
        is_run(t, bus, events),
        fresh(t, bus),
        bus.hw_active(),
        0 <= n <= events.len(),
        at(t, bus, events, n).asks() is Transmit,
    ensures
        exists|k: int|
            0 <= k < n && ((#[trigger] events[k]) matches Event::Counter(counter)
                && bus.hw_sof->0.clear_of_sof(counter)),
{
    lemma_hw_guarded(t, bus, events, n);
}

proof fn lemma_step_hw_guard(t: Transaction, bus: Bus, event: Event)
    requires
        answers(t.asks(), event),
        bus.hw_active(),
        !(t.phase is Guard || t.phase is NextFrame || t.phase is Sof || t.phase is SofSending),
    ensures
        ({
            let phase = stepped(t, bus, event).0.phase;
            &&& !(phase is Guard || phase is NextFrame || phase is Sof || phase is SofSending)
            &&& rank(phase) >= 2 ==> rank(t.phase) >= 2 || (event matches Event::Counter(counter)
                && bus.hw_sof->0.clear_of_sof(counter))
        }),
{
    reveal(stepped);
}

proof fn lemma_hw_guarded(t: Transaction, bus: Bus, events: Seq<Event>, n: int)
    requires
        is_run(t, bus, events),
        fresh(t, bus),
        bus.hw_active(),
        0 <= n <= events.len(),
    ensures
        ({
            let phase = at(t, bus, events, n).phase;
            &&& !(phase is Guard || phase is NextFrame || phase is Sof || phase is SofSending)
            &&& rank(phase) >= 2 ==> exists|k: int|
                0 <= k < n && ((#[trigger] events[k]) matches Event::Counter(counter)
                    && bus.hw_sof->0.clear_of_sof(counter))
        }),
    decreases n,
{
    lemma_start(t, bus, events);
    if n > 0 {
        lemma_hw_guarded(t, bus, events, n - 1);
        lemma_unfold(t, bus, events, n - 1);
        lemma_fixed(t, bus, events, n - 1);
        lemma_step_hw_guard(
            at(t, bus, events, n - 1),
            bus_at(t, bus, events, n - 1),
            events[n - 1],
        );
    }
}

/// With software SOFs on a full-speed bus, no token overtakes an SOF: at the last timer
/// reading before the token, this frame's SOF has been sent or is held back by the
/// spacing guard.
pub proof fn law_sof_before_token(t: Transaction, bus: Bus, events: Seq<Event>, n: int)
    requires
        is_run(t, bus, events),
        fresh(t, bus),
        bus.full_speed(),
        !bus.hw_active(),
        0 <= n <= events.len(),
        at(t, bus, events, n).asks() is Transmit,
    ensures
        exists|k: int|
            0 <= k < n && ((#[trigger] events[k]) matches Event::Clock(now) && !bus_at(
                t,
                bus,
                events,
                n,
            ).sof_due(now)) && forall|m: int| k < m < n ==> !((#[trigger] events[m]) is Clock),
{
    lemma_start(t, bus, events);
    lemma_guarded(t, bus, events, n - 1);
    lemma_unfold(t, bus, events, n - 1);
    lemma_fixed(t, bus, events, n - 1);
    let before = at(t, bus, events, n - 1);
    lemma_step_sof(before, bus_at(t, bus, events, n - 1), events[n - 1]);
    if before.phase is SofSending {
        lemma_guarded(t, bus, events, n - 2);
        lemma_unfold(t, bus, events, n - 2);
        lemma_fixed(t, bus, events, n - 2);
        lemma_step_sof(at(t, bus, events, n - 2), bus_at(t, bus, events, n - 2), events[n - 2]);
        assert(events[n - 2] is Clock);
    } else {
        assert(events[n - 1] is Clock);
    }
}

proof fn lemma_step_sof(t: Transaction, bus: Bus, event: Event)
    requires
        answers(t.asks(), event),
        bus.full_speed(),
        !bus.hw_active(),
        !(t.phase is HwGuard || t.phase is HwService || t.phase is Preparing),
    ensures
        ({
            let (t1, b1) = stepped(t, bus, event);
            &&& t1.phase is SofSending ==> (event matches Event::Clock(now) && !b1.sof_due(now))
            &&& t1.phase is Sending ==> (t.phase is SofSending && !(event is Clock) && b1 == bus)
                || (event matches Event::Clock(now) && !b1.sof_due(now))
        }),
{
    reveal(stepped);
}

/// An ACK is fired exactly when data with a valid CRC answered an IN token.
pub proof fn law_ack_iff_valid_data(t: Transaction, bus: Bus, events: Seq<Event>, n: int)
    requires
        is_run(t, bus, events),
        fresh(t, bus),
        0 <= n <= events.len(),
    ensures
        at(t, bus, events, n).asks() is StartAck <==> (n > 0 && t.data is None && (events[n
            - 1] matches Event::Received { status, .. } && status == RxPacketStatus::ValidData)),
{
    lemma_start(t, bus, events);
    if n > 0 {
        lemma_unfold(t, bus, events, n - 1);
        lemma_fixed(t, bus, events, n - 1);
        reveal(stepped);
    }
}

/// Whether a reply was not taken in whole and is not acknowledged.
pub open spec fn bad_reply(t: Transaction, event: Event) -> bool {
    event matches Event::Received { packet, status } && if t.data is Some {
        handshake_bad(packet@)
    } else {
        in_reply_bad(packet@, status) && status != RxPacketStatus::ValidData
    }
}

/// The line samples among a stretch of events.
pub open spec fn samples_of(events: Seq<Event>, from: int, to: int) -> Seq<Sample> {
    Seq::new(
        (to - from) as nat,
        |i: int|
            match events[from + i] {
                Event::Line { now, dp, dm } => Sample { now, dp, dm },
                _ => arbitrary(),
            },
    )
}

/// What follows a bad reply at event `i`, up to event `n`.
proof fn lemma_settling(t: Transaction, bus: Bus, events: Seq<Event>, i: int, n: int)
    requires
        is_run(t, bus, events),
        0 <= i < n <= events.len(),
        bad_reply(t, events[i]),
    ensures
        ({
            let phase = at(t, bus, events, n).phase;
            &&& n == i + 1 ==> phase == Phase::ReplyStamp {
                follow: crate::reply::FollowUp::Settle,
            }
            &&& n == i + 2 ==> phase == Phase::SettleStart
            &&& n >= i + 3 ==> events[i + 2] is Clock && ({
                let start = events[i + 2]->Clock_0;
                ||| phase == Phase::Settling {
                    settle: settle_after(start, bus.speed, samples_of(events, i + 3, n)),
                }
                ||| phase is SettleStamp && n >= i + 4 && settle_after(
                    start,
                    bus.speed,
                    samples_of(events, i + 3, n).drop_last(),
                ).ends(bus.speed, samples_of(events, i + 3, n).last())
                ||| phase is Finished && n >= i + 5 && settle_after(
                    start,
                    bus.speed,
                    samples_of(events, i + 3, n - 1).drop_last(),
                ).ends(bus.speed, samples_of(events, i + 3, n - 1).last())
            })
        }),
    decreases n - i,
{
    lemma_unfold(t, bus, events, n - 1);
    lemma_fixed(t, bus, events, n - 1);
    lemma_step_settle(at(t, bus, events, n - 1), bus_at(t, bus, events, n - 1), events[n - 1]);
    if n > i + 1 {
        lemma_settling(t, bus, events, i, n - 1);
        if n == i + 3 {
            assert(samples_of(events, i + 3, n) =~= Seq::empty());
        } else if n > i + 3 {
            assert(samples_of(events, i + 3, n).drop_last() =~= samples_of(events, i + 3, n - 1));
        }
    }
}

proof fn lemma_step_settle(t: Transaction, bus: Bus, event: Event)
    requires
        answers(t.asks(), event),
    ensures
        ({
            let phase = stepped(t, bus, event).0.phase;
            &&& bad_reply(t, event) ==> phase == Phase::ReplyStamp {
                follow: crate::reply::FollowUp::Settle,
            }
            &&& t.phase == Phase::ReplyStamp { follow: crate::reply::FollowUp::Settle } ==> phase
                is SettleStart
            &&& t.phase is SettleStart ==> event is Clock && phase == Phase::Settling {
                settle: Settle::begun(event->Clock_0),
            }
            &&& t.phase matches Phase::Settling { settle } ==> (event matches Event::Line {
                now,
                dp,
                dm,
            } && ({
                let sample = Sample { now, dp, dm };
                if settle.ends(bus.speed, sample) {
                    phase is SettleStamp
                } else {
                    phase == Phase::Settling { settle: settle.sampled(bus.speed, sample) }
                }
            }))
            &&& t.phase is SettleStamp ==> phase is Finished
            &&& !(t.phase is Finished)
        }),
{
    reveal(stepped);
}

/// After a reply that was not taken in whole and is not acknowledged, nothing more goes on
/// the bus in this transaction.
pub proof fn law_silent_after_bad_reply(
    t: Transaction,
    bus: Bus,
    events: Seq<Event>,
    i: int,
    n: int,
)
    requires
        is_run(t, bus, events),
        0 <= i < n <= events.len(),
        bad_reply(t, events[i]),
    ensures
        !sends(at(t, bus, events, n).asks()),
        at(t, bus, events, n).asks() is ReadClock || at(t, bus, events, n).asks() is SampleLine
            || at(t, bus, events, n).asks() is Finished,
{
    lemma_settling(t, bus, events, i, n);
}

/// After such a reply the transaction ends, and the bus is free for the next packet, only
/// once the line has been idle for 2 microseconds or 100 microseconds have passed.
pub proof fn law_settled_after_bad_reply(t: Transaction, bus: Bus, events: Seq<Event>, i: int)
    requires
        is_run(t, bus, events),
        0 <= i < events.len(),
        bad_reply(t, events[i]),
        after(t, bus, events).0.phase is Finished,
    ensures
        events.len() >= i + 5,
        events[i + 2] is Clock,
        ({
            let start = events[i + 2]->Clock_0;
            let samples = samples_of(events, i + 3, events.len() - 1);
            elapsed_spec(start, samples.last().now) >= 100 || exists|from: int|
                0 <= from < samples.len() && #[trigger] idle_from(bus.speed, samples, from)
                    && elapsed_spec(counted_from(start, samples, from), samples.last().now) >= 2
        }),
{
    let n = events.len() as int;
    lemma_start(t, bus, events);
    lemma_settling(t, bus, events, i, n);
    law_settled(events[i + 2]->Clock_0, bus.speed, samples_of(events, i + 3, n - 1));
}

/// Every transaction leaves the bus stamped with the timer reading that ended it: the last
/// reading of the run is the bus's last activity.
pub proof fn law_transaction_is_activity(t: Transaction, bus: Bus, events: Seq<Event>)
    requires
        is_run(t, bus, events),
        fresh(t, bus),
        after(t, bus, events).0.phase is Finished,
    ensures
        exists|k: int|
            0 <= k < events.len() && ((#[trigger] events[k]) matches Event::Clock(now) && after(
                t,
                bus,
                events,
            ).1.last_activity == now) && forall|m: int|
                k < m < events.len() ==> !((#[trigger] events[m]) is Clock),
{
    let n = events.len() as int;
    lemma_start(t, bus, events);
    lemma_unfold(t, bus, events, n - 1);
    lemma_step_last_stamp(
        at(t, bus, events, n - 1),
        bus_at(t, bus, events, n - 1),
        events[n - 1],
    );
    if at(t, bus, events, n - 1).phase is Draining {
        lemma_unfold(t, bus, events, n - 2);
        lemma_step_last_stamp(
            at(t, bus, events, n - 2),
            bus_at(t, bus, events, n - 2),
            events[n - 2],
        );
        assert(events[n - 2] is Clock);
    } else {
        assert(events[n - 1] is Clock);
    }
}

proof fn lemma_step_last_stamp(t: Transaction, bus: Bus, event: Event)
    requires
        answers(t.asks(), event),
    ensures
        ({
            let (t1, b1) = stepped(t, bus, event);
            &&& t1.phase is Draining ==> (event matches Event::Clock(now) && b1.last_activity == now)
            &&& t1.phase is Finished ==> (t.phase is Draining && !(event is Clock) && b1 == bus)
                || (event matches Event::Clock(now) && b1.last_activity == now)
        }),
{
    reveal(stepped);
}

} // verus!
