//! What holds of every run of a transfer, whatever the device answers.

use crate::bus::PipeError;
use crate::pid::data_pid_spec;
use crate::pipe::{needs_terminating_zlp_spec, PioPipe};
use crate::reply::{handshake_spec, status_in_spec, stored};
use crate::transfer::{
    answers, chunk_end_spec, Action, ControlIn, ControlInPhase, ControlOut, ControlOutPhase, Event,
    RequestIn, RequestOut, RequestOutPhase,
};
use vstd::prelude::*;

verus! {

/// Packets one after another.
pub open spec fn joined(packets: Seq<Seq<u8>>) -> Seq<u8>
    decreases packets.len(),
{
    if packets.len() == 0 {
        Seq::empty()
    } else {
        joined(packets.drop_last()) + packets.last()
    }
}

/// Whether an event is an ACK handshake.
pub open spec fn is_acked(event: Event) -> bool {
    event is Reply && handshake_spec(event->packet@) == Ok::<bool, PipeError>(true)
}

/// Whether every packet before the last is a full one.
pub open spec fn full_but_last(packets: Seq<Seq<u8>>, mps: int) -> bool {
    forall|i: int| 0 <= i < packets.len() - 1 ==> (#[trigger] packets[i]).len() == mps
}

/// Whether every packet is a full one.
pub open spec fn all_full(packets: Seq<Seq<u8>>, mps: int) -> bool {
    forall|i: int| 0 <= i < packets.len() ==> (#[trigger] packets[i]).len() == mps
}

proof fn lemma_joined_push(packets: Seq<Seq<u8>>, packet: Seq<u8>)
    ensures
        joined(packets.push(packet)) == joined(packets) + packet,
{
    reveal_with_fuel(joined, 2);
    assert(packets.push(packet).drop_last() =~= packets);
}

proof fn lemma_joined_nonempty(packets: Seq<Seq<u8>>)
    requires
        packets.len() > 0,
        packets.last().len() > 0,
    ensures
        joined(packets).len() > 0,
{
}

/// Full packets have their size times their number of bytes.
pub proof fn lemma_full_len(packets: Seq<Seq<u8>>, mps: int)
    requires
        all_full(packets, mps),
    ensures
        joined(packets).len() == packets.len() * mps,
    decreases packets.len(),
{
    if packets.len() > 0 {
        let front = packets.drop_last();
        assert forall|i: int| 0 <= i < front.len() implies (#[trigger] front[i]).len() == mps by {
            assert(front[i] == packets[i]);
        }
        lemma_full_len(front, mps);
        assert(packets.last() == packets[packets.len() - 1]);
        assert(packets.len() * mps == (packets.len() - 1) * mps + mps) by (nonlinear_arith);
    } else {
        assert(packets.len() * mps == 0) by (nonlinear_arith)
            requires
                packets.len() == 0,
        ;
    }
}

// Control IN.

/// A control-IN transfer and the caller's buffer after one event.
#[verifier::opaque]
pub open spec fn in_stepped(t: ControlIn, buf: Seq<u8>, event: Event) -> (ControlIn, Seq<u8>) {
    (t.next(event), t.next_buf(buf, event))
}

/// A control-IN transfer and the caller's buffer after a sequence of events.
#[verifier::opaque]
pub open spec fn in_after(t: ControlIn, buf: Seq<u8>, events: Seq<Event>) -> (ControlIn, Seq<u8>)
    decreases events.len(),
{
    if events.len() == 0 {
        (t, buf)
    } else {
        let before = in_after(t, buf, events.drop_last());
        in_stepped(before.0, before.1, events.last())
    }
}

/// The transfer after the first `n` events.
pub open spec fn in_at(t: ControlIn, buf: Seq<u8>, events: Seq<Event>, n: int) -> ControlIn {
    in_after(t, buf, events.take(n)).0
}

/// The caller's buffer after the first `n` events.
pub open spec fn in_buf_at(t: ControlIn, buf: Seq<u8>, events: Seq<Event>, n: int) -> Seq<u8> {
    in_after(t, buf, events.take(n)).1
}

/// Whether each event answers the action it was asked for.
#[verifier::opaque]
pub open spec fn in_is_run(t: ControlIn, buf: Seq<u8>, events: Seq<Event>) -> bool {
    forall|i: int|
        0 <= i < events.len() ==> answers(in_at(t, buf, events, i).asks(), #[trigger] events[i])
}

/// Whether a control-IN transfer has just begun with this buffer.
pub open spec fn in_fresh(t: ControlIn, buf: Seq<u8>) -> bool {
    &&& t.wf()
    &&& t.phase is Setup
    &&& t.total == 0
    &&& t.data1
    &&& buf.len() == t.room
}

/// The payload that a transfer takes in with an event.
pub open spec fn in_taken(t: ControlIn, event: Event) -> Option<Seq<u8>> {
    match (t.accepts(event), event) {
        (Some(n), Event::Reply { packet, .. }) => Some(
            if n == 0 {
                Seq::empty()
            } else {
                packet@.subrange(2, 2 + n)
            },
        ),
        _ => None,
    }
}

/// The payloads that a transfer has taken in with the first `n` events.
pub open spec fn in_payloads(t: ControlIn, buf: Seq<u8>, events: Seq<Event>, n: int) -> Seq<Seq<u8>>
    decreases n,
{
    if n <= 0 {
        Seq::empty()
    } else {
        let before = in_payloads(t, buf, events, n - 1);
        match in_taken(in_at(t, buf, events, n - 1), events[n - 1]) {
            Some(payload) => before.push(payload),
            None => before,
        }
    }
}

/// Whether the DATA stage has neither begun nor been passed.
pub open spec fn in_setup_stage(phase: ControlInPhase) -> bool {
    phase is Setup || phase is SetupCheck || phase is SetupWait
}

/// Whether a transfer is in its DATA stage.
pub open spec fn in_data_stage(phase: ControlInPhase) -> bool {
    phase is Data || phase is DataCheck || phase is DataWait
}

/// Whether a transfer has completed its DATA stage.
pub open spec fn in_data_done(phase: ControlInPhase) -> bool {
    phase is Status || phase is StatusCheck || phase is StatusWait || phase matches
        ControlInPhase::Done(Ok(_))
}

/// What the state of a transfer says of the payloads taken in so far.
pub open spec fn in_accounted(
    t: ControlIn,
    buf: Seq<u8>,
    before: Seq<u8>,
    payloads: Seq<Seq<u8>>,
) -> bool {
    &&& t.wf()
    &&& buf.len() == t.room
    &&& before.len() == t.room
    &&& joined(payloads).len() == t.total
    &&& buf.take(t.total as int) == joined(payloads)
    &&& buf.skip(t.total as int) == before.skip(t.total as int)
    &&& t.data1 == (payloads.len() % 2 == 0)
    &&& full_but_last(payloads, t.mps as int)
    &&& payloads.len() > 0 ==> joined(payloads.drop_last()).len() < t.wlen
    &&& in_data_done(t.phase) && payloads.len() == 0 ==> t.wlen == 0
    &&& in_setup_stage(t.phase) ==> payloads.len() == 0
    &&& in_data_stage(t.phase) ==> all_full(payloads, t.mps as int) && t.total < t.wlen
    &&& in_data_done(t.phase) ==> t.total >= t.wlen || (payloads.len() > 0 && payloads.last().len()
        < t.mps)
    &&& t.phase matches ControlInPhase::Done(Ok(n)) ==> n == t.total
}

proof fn lemma_in_unfold(t: ControlIn, buf: Seq<u8>, events: Seq<Event>, n: int)
    requires
        in_is_run(t, buf, events),
        0 <= n < events.len(),
    ensures
        in_stepped(in_at(t, buf, events, n), in_buf_at(t, buf, events, n), events[n]) == (
            in_at(t, buf, events, n + 1),
            in_buf_at(t, buf, events, n + 1),
        ),
        answers(in_at(t, buf, events, n).asks(), events[n]),
{
    reveal(in_is_run);
    reveal_with_fuel(in_after, 2);
    assert(events.take(n + 1).drop_last() =~= events.take(n));
    assert(events.take(n + 1).last() == events[n]);
}

proof fn lemma_in_start(t: ControlIn, buf: Seq<u8>, events: Seq<Event>)
    ensures
        in_at(t, buf, events, 0) == t,
        in_buf_at(t, buf, events, 0) == buf,
        in_at(t, buf, events, events.len() as int) == in_after(t, buf, events).0,
        in_buf_at(t, buf, events, events.len() as int) == in_after(t, buf, events).1,
{
    reveal(in_after);
    assert(events.take(0).len() == 0);
    assert(events.take(events.len() as int) =~= events);
}

proof fn lemma_in_step_fixed(t: ControlIn, buf: Seq<u8>, event: Event)
    ensures
        ({
            let t1 = in_stepped(t, buf, event).0;
            &&& t1.room == t.room
            &&& t1.wlen == t.wlen
            &&& t1.mps == t.mps
            &&& t1.deadline == t.deadline
            &&& !in_setup_stage(t.phase) ==> !in_setup_stage(t1.phase)
        }),
{
    reveal(in_stepped);
}

/// What a control-IN transfer never changes, and that it does not return to the SETUP.
proof fn lemma_in_fixed(t: ControlIn, buf: Seq<u8>, events: Seq<Event>, m: int, n: int)
    requires
        in_is_run(t, buf, events),
        0 <= m <= n <= events.len(),
    ensures
        in_at(t, buf, events, n).room == t.room,
        in_at(t, buf, events, n).wlen == t.wlen,
        in_at(t, buf, events, n).mps == t.mps,
        in_at(t, buf, events, n).deadline == t.deadline,
        !in_setup_stage(in_at(t, buf, events, m).phase) ==> !in_setup_stage(
            in_at(t, buf, events, n).phase,
        ),
    decreases n,
{
    if n == 0 {
        lemma_in_start(t, buf, events);
    } else if m == n {
        lemma_in_fixed(t, buf, events, 0, n - 1);
        lemma_in_unfold(t, buf, events, n - 1);
        lemma_in_step_fixed(
            in_at(t, buf, events, n - 1),
            in_buf_at(t, buf, events, n - 1),
            events[n - 1],
        );
    } else {
        lemma_in_fixed(t, buf, events, m, n - 1);
        lemma_in_unfold(t, buf, events, n - 1);
        lemma_in_step_fixed(
            in_at(t, buf, events, n - 1),
            in_buf_at(t, buf, events, n - 1),
            events[n - 1],
        );
    }
}

proof fn lemma_in_step_accounted(
    t: ControlIn,
    buf: Seq<u8>,
    before: Seq<u8>,
    payloads: Seq<Seq<u8>>,
    event: Event,
)
    requires
        in_accounted(t, buf, before, payloads),
        answers(t.asks(), event),
    ensures
        ({
            let (t1, buf1) = in_stepped(t, buf, event);
            in_accounted(
                t1,
                buf1,
                before,
                match in_taken(t, event) {
                    Some(payload) => payloads.push(payload),
                    None => payloads,
                },
            )
        }),
{
    reveal(in_stepped);
    let (t1, buf1) = in_stepped(t, buf, event);
    match in_taken(t, event) {
        Some(payload) => {
            let n = t.accepts(event)->0;
            let packet = event->packet@;
            lemma_joined_push(payloads, payload);
            assert(payload.len() == n);
            if n > 0 {
                assert(buf1 == stored(packet, n as int, buf, t.total as int));
            }
            assert(buf1.take(t1.total as int) =~= buf.take(t.total as int) + payload);
            assert(buf1.skip(t1.total as int) =~= buf.skip(t.total as int).skip(n as int));
            assert(before.skip(t1.total as int) =~= before.skip(t.total as int).skip(n as int));
            let pushed = payloads.push(payload);
            assert(pushed.drop_last() =~= payloads);
            assert forall|i: int| 0 <= i < pushed.len() - 1 implies (#[trigger] pushed[i]).len()
                == t.mps by {
                assert(pushed[i] == payloads[i]);
            }
            assert forall|i: int|
                t1.phase is Data && 0 <= i < pushed.len() implies (#[trigger] pushed[i]).len()
                == t.mps by {
                if i < payloads.len() {
                    assert(pushed[i] == payloads[i]);
                }
            }
        },
        None => {},
    }
}

proof fn lemma_in_accounted(t: ControlIn, buf: Seq<u8>, events: Seq<Event>, n: int)
    requires
        in_fresh(t, buf),
        in_is_run(t, buf, events),
        0 <= n <= events.len(),
    ensures
        in_accounted(
            in_at(t, buf, events, n),
            in_buf_at(t, buf, events, n),
            buf,
            in_payloads(t, buf, events, n),
        ),
    decreases n,
{
    if n == 0 {
        lemma_in_start(t, buf, events);
        assert(buf.take(0) =~= Seq::empty());
    } else {
        lemma_in_accounted(t, buf, events, n - 1);
        lemma_in_unfold(t, buf, events, n - 1);
        lemma_in_step_accounted(
            in_at(t, buf, events, n - 1),
            in_buf_at(t, buf, events, n - 1),
            buf,
            in_payloads(t, buf, events, n - 1),
            events[n - 1],
        );
    }
}

/// A control-IN transfer that succeeds with `n` bytes leaves the payloads of the accepted
/// packets, one after another, at the front of the buffer, and nothing else is touched;
/// they end at the requested length or at a short packet, none is asked for beyond that,
/// and all before the last are full. The last thing that happened is that the device
/// acknowledged the empty DATA1 packet of the STATUS stage.
pub proof fn law_control_in_delivers(t: ControlIn, buf: Seq<u8>, events: Seq<Event>, n: usize)
    requires
        in_fresh(t, buf),
        in_is_run(t, buf, events),
        in_after(t, buf, events).0.phase == ControlInPhase::Done(Ok(n)),
    ensures
        ({
            let after = in_after(t, buf, events).1;
            let payloads = in_payloads(t, buf, events, events.len() as int);
            &&& after.len() == buf.len()
            &&& n <= buf.len()
            &&& after.take(n as int) == joined(payloads)
            &&& after.skip(n as int) == buf.skip(n as int)
            &&& full_but_last(payloads, t.mps as int)
            &&& n >= t.wlen || (payloads.len() > 0 && payloads.last().len() < t.mps)
            &&& payloads.len() == 0 <==> t.wlen == 0
            &&& payloads.len() > 0 ==> joined(payloads.drop_last()).len() < t.wlen
        }),
        events.len() > 0,
        in_at(t, buf, events, events.len() - 1).asks() == (Action::Send {
            data1: true,
            start: 0,
            end: 0,
        }),
        is_acked(events.last()),
{
    let len = events.len() as int;
    lemma_in_start(t, buf, events);
    lemma_in_accounted(t, buf, events, len);
    lemma_in_fixed(t, buf, events, 0, len);
    lemma_in_unfold(t, buf, events, len - 1);
    lemma_in_step_done(
        in_at(t, buf, events, len - 1),
        in_buf_at(t, buf, events, len - 1),
        events[len - 1],
    );
}

proof fn lemma_in_step_done(t: ControlIn, buf: Seq<u8>, event: Event)
    requires
        answers(t.asks(), event),
    ensures
        in_stepped(t, buf, event).0.phase matches ControlInPhase::Done(Ok(_)) ==> t.phase is Status
            && is_acked(event),
{
    reveal(in_stepped);
}

/// However a control-IN transfer ends, or if it is abandoned, the buffer beyond what was
/// received is as it was.
pub proof fn law_control_in_buffer(t: ControlIn, buf: Seq<u8>, events: Seq<Event>)
    requires
        in_fresh(t, buf),
        in_is_run(t, buf, events),
    ensures
        ({
            let (after, after_buf) = in_after(t, buf, events);
            let payloads = in_payloads(t, buf, events, events.len() as int);
            &&& after.total == joined(payloads).len()
            &&& after_buf.take(after.total as int) == joined(payloads)
            &&& after_buf.skip(after.total as int) == buf.skip(after.total as int)
        }),
{
    lemma_in_start(t, buf, events);
    lemma_in_accounted(t, buf, events, events.len() as int);
}

/// The DATA packets of a control-IN transfer alternate, and the first is DATA1.
pub proof fn law_control_in_toggles(t: ControlIn, buf: Seq<u8>, events: Seq<Event>, i: int)
    requires
        in_fresh(t, buf),
        in_is_run(t, buf, events),
        0 <= i < events.len(),
        in_taken(in_at(t, buf, events, i), events[i]) is Some,
    ensures
        events[i] is Reply,
        events[i]->packet@[1] == data_pid_spec(in_payloads(t, buf, events, i).len() % 2 == 0),
{
    lemma_in_accounted(t, buf, events, i);
}

/// Once the device has acknowledged the SETUP of a control-IN transfer, it is not sent
/// again.
pub proof fn law_control_in_setup_once(
    t: ControlIn,
    buf: Seq<u8>,
    events: Seq<Event>,
    i: int,
    j: int,
)
    requires
        in_is_run(t, buf, events),
        0 <= i < j <= events.len(),
        in_at(t, buf, events, i).asks() is Setup,
        events[i] matches Event::Reply { packet, .. } && handshake_spec(packet@) == Ok::<
            bool,
            PipeError,
        >(true),
    ensures
        !(in_at(t, buf, events, j).asks() is Setup),
{
    lemma_in_unfold(t, buf, events, i);
    assert(!in_setup_stage(in_at(t, buf, events, i + 1).phase)) by {
        reveal(in_stepped);
    }
    lemma_in_fixed(t, buf, events, i + 1, j);
}

proof fn lemma_in_step_deadline(t: ControlIn, buf: Seq<u8>, event: Event)
    requires
        answers(t.asks(), event),
    ensures
        ({
            let t1 = in_stepped(t, buf, event).0;
            &&& t1.asks() is Sleep ==> (event matches Event::Instant(now) && now < t.deadline)
            &&& t1.phase == ControlInPhase::Done(Err(PipeError::Timeout)) ==> (event matches
                Event::Instant(now) && now >= t.deadline)
        }),
{
    reveal(in_stepped);
}

/// A control-IN transfer pauses for a retry, one frame, only if it has just seen that the
/// deadline is ahead, and times out only if it has just seen that it is past.
pub proof fn law_control_in_deadline(t: ControlIn, buf: Seq<u8>, events: Seq<Event>, i: int)
    requires
        in_fresh(t, buf),
        in_is_run(t, buf, events),
        0 <= i <= events.len(),
    ensures
        in_at(t, buf, events, i).asks() matches Action::Sleep { us } ==> us == 1000 && i > 0 && (
        events[i - 1] matches Event::Instant(now) && now < t.deadline),
        in_at(t, buf, events, i).phase == ControlInPhase::Done(Err(PipeError::Timeout)) ==> i > 0
            && (events[i - 1] matches Event::Instant(now) && now >= t.deadline),
{
    lemma_in_start(t, buf, events);
    if i > 0 {
        lemma_in_unfold(t, buf, events, i - 1);
        lemma_in_fixed(t, buf, events, 0, i - 1);
        lemma_in_step_deadline(
            in_at(t, buf, events, i - 1),
            in_buf_at(t, buf, events, i - 1),
            events[i - 1],
        );
    }
}

// Control OUT.

/// A control-OUT transfer after a sequence of events.
#[verifier::opaque]
pub open spec fn out_after(t: ControlOut, events: Seq<Event>) -> ControlOut
    decreases events.len(),
{
    if events.len() == 0 {
        t
    } else {
        out_after(t, events.drop_last()).next(events.last())
    }
}

/// The transfer after the first `n` events.
pub open spec fn out_at(t: ControlOut, events: Seq<Event>, n: int) -> ControlOut {
    out_after(t, events.take(n))
}

/// Whether each event answers the action it was asked for.
#[verifier::opaque]
pub open spec fn out_is_run(t: ControlOut, events: Seq<Event>) -> bool {
    forall|i: int|
        0 <= i < events.len() ==> answers(out_at(t, events, i).asks(), #[trigger] events[i])
}

/// Whether a control-OUT transfer of these bytes has just begun.
pub open spec fn out_fresh(t: ControlOut, data: Seq<u8>) -> bool {
    &&& t.wf()
    &&& t.phase is Setup
    &&& t.sent == 0
    &&& t.data1
    &&& t.len == data.len()
}

/// The DATA packet that an event acknowledges.
pub open spec fn out_taken(t: ControlOut, data: Seq<u8>, event: Event) -> Option<Seq<u8>> {
    match (t.asks(), event) {
        (Action::Send { start, end, .. }, Event::Reply { packet, .. }) if handshake_spec(packet@)
            == Ok::<bool, PipeError>(true) => Some(data.subrange(start as int, end as int)),
        _ => None,
    }
}

/// The DATA packets that the device has acknowledged with the first `n` events.
pub open spec fn out_payloads(t: ControlOut, data: Seq<u8>, events: Seq<Event>, n: int) -> Seq<
    Seq<u8>,
>
    decreases n,
{
    if n <= 0 {
        Seq::empty()
    } else {
        let before = out_payloads(t, data, events, n - 1);
        match out_taken(out_at(t, events, n - 1), data, events[n - 1]) {
            Some(payload) => before.push(payload),
            None => before,
        }
    }
}

/// Whether the SETUP has not been acknowledged.
pub open spec fn out_setup_stage(phase: ControlOutPhase) -> bool {
    phase is Setup || phase is SetupCheck || phase is SetupWait
}

/// Whether the device has acknowledged all the data.
pub open spec fn out_data_done(phase: ControlOutPhase) -> bool {
    phase is Status || phase is StatusCheck || phase is StatusWait || phase matches
        ControlOutPhase::Done(Ok(_))
}

/// What the state of a transfer says of the packets acknowledged so far.
pub open spec fn out_accounted(t: ControlOut, data: Seq<u8>, payloads: Seq<Seq<u8>>) -> bool {
    &&& t.wf()
    &&& t.len == data.len()
    &&& joined(payloads) == data.take(t.sent as int)
    &&& t.data1 == (payloads.len() % 2 == 0)
    &&& full_but_last(payloads, t.mps as int)
    &&& t.sent < t.len ==> all_full(payloads, t.mps as int)
    &&& forall|i: int| 0 <= i < payloads.len() ==> 0 < (#[trigger] payloads[i]).len() <= t.mps
    &&& out_data_done(t.phase) ==> t.sent == t.len
}

proof fn lemma_out_unfold(t: ControlOut, events: Seq<Event>, n: int)
    requires
        out_is_run(t, events),
        0 <= n < events.len(),
    ensures
        out_at(t, events, n).next(events[n]) == out_at(t, events, n + 1),
        answers(out_at(t, events, n).asks(), events[n]),
{
    reveal(out_is_run);
    reveal_with_fuel(out_after, 2);
    assert(events.take(n + 1).drop_last() =~= events.take(n));
    assert(events.take(n + 1).last() == events[n]);
}

proof fn lemma_out_start(t: ControlOut, events: Seq<Event>)
    ensures
        out_at(t, events, 0) == t,
        out_at(t, events, events.len() as int) == out_after(t, events),
{
    reveal(out_after);
    assert(events.take(0).len() == 0);
    assert(events.take(events.len() as int) =~= events);
}

/// What a control-OUT transfer never changes, and that it does not return to the SETUP.
proof fn lemma_out_fixed(t: ControlOut, events: Seq<Event>, m: int, n: int)
    requires
        out_is_run(t, events),
        0 <= m <= n <= events.len(),
    ensures
        out_at(t, events, n).len == t.len,
        out_at(t, events, n).mps == t.mps,
        out_at(t, events, n).deadline == t.deadline,
        !out_setup_stage(out_at(t, events, m).phase) ==> !out_setup_stage(
            out_at(t, events, n).phase,
        ),
    decreases n,
{
    if n == 0 {
        lemma_out_start(t, events);
    } else if m == n {
        lemma_out_fixed(t, events, 0, n - 1);
        lemma_out_unfold(t, events, n - 1);
    } else {
        lemma_out_fixed(t, events, m, n - 1);
        lemma_out_unfold(t, events, n - 1);
    }
}

proof fn lemma_out_step_accounted(
    t: ControlOut,
    data: Seq<u8>,
    payloads: Seq<Seq<u8>>,
    event: Event,
)
    requires
        out_accounted(t, data, payloads),
        answers(t.asks(), event),
    ensures
        out_accounted(
            t.next(event),
            data,
            match out_taken(t, data, event) {
                Some(payload) => payloads.push(payload),
                None => payloads,
            },
        ),
{
    let t1 = t.next(event);
    match out_taken(t, data, event) {
        Some(payload) => {
            lemma_joined_push(payloads, payload);
            assert(data.take(t1.sent as int) =~= data.take(t.sent as int) + payload);
            let pushed = payloads.push(payload);
            assert forall|i: int| 0 <= i < pushed.len() implies 0 < (#[trigger] pushed[i]).len()
                <= t.mps by {
                if i < payloads.len() {
                    assert(pushed[i] == payloads[i]);
                }
            }
            assert forall|i: int| 0 <= i < payloads.len() implies (#[trigger] pushed[i]).len()
                == t.mps by {
                assert(pushed[i] == payloads[i]);
            }
        },
        None => {},
    }
}

proof fn lemma_out_accounted(t: ControlOut, data: Seq<u8>, events: Seq<Event>, n: int)
    requires
        out_fresh(t, data),
        out_is_run(t, events),
        0 <= n <= events.len(),
    ensures
        out_accounted(out_at(t, events, n), data, out_payloads(t, data, events, n)),
    decreases n,
{
    if n == 0 {
        lemma_out_start(t, events);
        assert(data.take(0) =~= Seq::empty());
    } else {
        lemma_out_accounted(t, data, events, n - 1);
        lemma_out_unfold(t, events, n - 1);
        lemma_out_step_accounted(
            out_at(t, events, n - 1),
            data,
            out_payloads(t, data, events, n - 1),
            events[n - 1],
        );
    }
}

/// A control-OUT transfer that succeeds has had all its data acknowledged, in order, in
/// non-empty packets that are full up to the last, none if there is no data. The last thing
/// that happened is that the device answered the STATUS stage with its empty packet.
pub proof fn law_control_out_delivers(t: ControlOut, data: Seq<u8>, events: Seq<Event>)
    requires
        out_fresh(t, data),
        out_is_run(t, events),
        out_after(t, events).phase == ControlOutPhase::Done(Ok(())),
    ensures
        ({
            let payloads = out_payloads(t, data, events, events.len() as int);
            &&& joined(payloads) == data
            &&& full_but_last(payloads, t.mps as int)
            &&& forall|i: int|
                0 <= i < payloads.len() ==> 0 < (#[trigger] payloads[i]).len() <= t.mps
            &&& payloads.len() == 0 <==> data.len() == 0
        }),
        events.len() > 0,
        out_at(t, events, events.len() - 1).asks() is PollStatus,
        events.last() is Reply,
        status_in_spec(events.last()->packet@, events.last()->status) == Ok::<bool, PipeError>(
            true,
        ),
{
    let len = events.len() as int;
    let payloads = out_payloads(t, data, events, len);
    lemma_out_start(t, events);
    lemma_out_accounted(t, data, events, len);
    lemma_out_fixed(t, events, 0, len);
    assert(data.take(data.len() as int) =~= data);
    lemma_out_unfold(t, events, len - 1);
    if payloads.len() > 0 {
        assert(payloads.last() == payloads[payloads.len() - 1]);
        lemma_joined_nonempty(payloads);
    }
}

/// The DATA packets of a control-OUT transfer alternate, and the first is DATA1; each is
/// sent from where the acknowledged data ends.
pub proof fn law_control_out_toggles(t: ControlOut, data: Seq<u8>, events: Seq<Event>, i: int)
    requires
        out_fresh(t, data),
        out_is_run(t, events),
        0 <= i <= events.len(),
    ensures
        out_at(t, events, i).asks() matches Action::Send { data1, start, .. } ==> data1 == (
        out_payloads(t, data, events, i).len() % 2 == 0) && start == joined(
            out_payloads(t, data, events, i),
        ).len(),
{
    lemma_out_accounted(t, data, events, i);
}

/// Once the device has acknowledged the SETUP of a control-OUT transfer, it is not sent
/// again.
pub proof fn law_control_out_setup_once(t: ControlOut, events: Seq<Event>, i: int, j: int)
    requires
        out_is_run(t, events),
        0 <= i < j <= events.len(),
        out_at(t, events, i).asks() is Setup,
        events[i] matches Event::Reply { packet, .. } && handshake_spec(packet@) == Ok::<
            bool,
            PipeError,
        >(true),
    ensures
        !(out_at(t, events, j).asks() is Setup),
{
    lemma_out_unfold(t, events, i);
    lemma_out_fixed(t, events, i + 1, j);
}

/// A control-OUT transfer pauses for a retry, one frame, only if it has just seen that the
/// deadline is ahead, and times out only if it has just seen that it is past.
pub proof fn law_control_out_deadline(t: ControlOut, data: Seq<u8>, events: Seq<Event>, i: int)
    requires
        out_fresh(t, data),
        out_is_run(t, events),
        0 <= i <= events.len(),
    ensures
        out_at(t, events, i).asks() matches Action::Sleep { us } ==> us == 1000 && i > 0 && (
        events[i - 1] matches Event::Instant(now) && now < t.deadline),
        out_at(t, events, i).phase == ControlOutPhase::Done(Err(PipeError::Timeout)) ==> i > 0 && (
        events[i - 1] matches Event::Instant(now) && now >= t.deadline),
{
    lemma_out_start(t, events);
    if i > 0 {
        lemma_out_unfold(t, events, i - 1);
        lemma_out_fixed(t, events, 0, i - 1);
    }
}

// Interrupt and bulk OUT.

/// An OUT transfer and its pipe after a sequence of events.
#[verifier::opaque]
pub open spec fn send_after(t: RequestOut, pipe: PioPipe, events: Seq<Event>) -> (
    RequestOut,
    PioPipe,
)
    decreases events.len(),
{
    if events.len() == 0 {
        (t, pipe)
    } else {
        let before = send_after(t, pipe, events.drop_last());
        (before.0.next(events.last()), before.0.next_pipe(before.1, events.last()))
    }
}

/// The transfer after the first `n` events.
pub open spec fn send_at(t: RequestOut, pipe: PioPipe, events: Seq<Event>, n: int) -> RequestOut {
    send_after(t, pipe, events.take(n)).0
}

/// The pipe after the first `n` events.
pub open spec fn send_pipe_at(t: RequestOut, pipe: PioPipe, events: Seq<Event>, n: int) -> PioPipe {
    send_after(t, pipe, events.take(n)).1
}

/// Whether each event answers the action it was asked for.
#[verifier::opaque]
pub open spec fn send_is_run(t: RequestOut, pipe: PioPipe, events: Seq<Event>) -> bool {
    forall|i: int|
        0 <= i < events.len() ==> answers(
            send_at(t, pipe, events, i).asks(send_pipe_at(t, pipe, events, i)),
            #[trigger] events[i],
        )
}

/// Whether an OUT transfer of these bytes has just begun.
pub open spec fn send_fresh(t: RequestOut, data: Seq<u8>) -> bool {
    &&& t.wf()
    &&& t.sent == 0
    &&& t.len == data.len()
    &&& t.len == 0 ==> t.zlp && t.phase is Terminating
    &&& t.len > 0 ==> t.phase is Sending
}

/// The packet that an event acknowledges.
pub open spec fn send_taken(t: RequestOut, data: Seq<u8>, event: Event) -> Option<Seq<u8>> {
    if !t.is_ack(event) {
        None
    } else if t.phase is Terminating {
        Some(Seq::empty())
    } else {
        Some(data.subrange(t.sent as int, chunk_end_spec(t.sent, t.mps, t.len) as int))
    }
}

/// The packets that the device has acknowledged with the first `n` events.
pub open spec fn send_payloads(
    t: RequestOut,
    pipe: PioPipe,
    data: Seq<u8>,
    events: Seq<Event>,
    n: int,
) -> Seq<Seq<u8>>
    decreases n,
{
    if n <= 0 {
        Seq::empty()
    } else {
        let before = send_payloads(t, pipe, data, events, n - 1);
        match send_taken(send_at(t, pipe, events, n - 1), data, events[n - 1]) {
            Some(payload) => before.push(payload),
            None => before,
        }
    }
}

/// What the state of a transfer says of the packets acknowledged so far.
pub open spec fn send_accounted(
    t: RequestOut,
    pipe: PioPipe,
    toggle: bool,
    data: Seq<u8>,
    payloads: Seq<Seq<u8>>,
) -> bool {
    let ended = t.phase == RequestOutPhase::Done(Ok(()));
    &&& t.wf()
    &&& t.len == data.len()
    &&& t.len == 0 ==> t.zlp
    &&& joined(payloads) == data.take(t.sent as int)
    &&& pipe.toggle_data1 == (toggle == (payloads.len() % 2 == 0))
    &&& t.sent < t.len ==> all_full(payloads, t.mps as int)
    &&& !(ended && t.zlp) ==> full_but_last(payloads, t.mps as int)
    &&& !ended ==> forall|i: int|
        0 <= i < payloads.len() ==> 0 < (#[trigger] payloads[i]).len() <= t.mps
    &&& (t.phase is Terminating || t.phase is TerminatingWait) ==> t.zlp && t.sent == t.len
    &&& ended ==> {
        &&& t.sent == t.len
        &&& payloads.len() > 0
        &&& forall|i: int|
            0 <= i < payloads.len() - 1 ==> 0 < (#[trigger] payloads[i]).len() <= t.mps
        &&& t.zlp ==> payloads.last().len() == 0
        &&& t.zlp ==> full_but_last(payloads.drop_last(), t.mps as int)
        &&& !t.zlp ==> 0 < payloads.last().len() <= t.mps
    }
}

proof fn lemma_send_unfold(t: RequestOut, pipe: PioPipe, events: Seq<Event>, n: int)
    requires
        send_is_run(t, pipe, events),
        0 <= n < events.len(),
    ensures
        send_at(t, pipe, events, n).next(events[n]) == send_at(t, pipe, events, n + 1),
        send_at(t, pipe, events, n).next_pipe(send_pipe_at(t, pipe, events, n), events[n])
            == send_pipe_at(t, pipe, events, n + 1),
        answers(
            send_at(t, pipe, events, n).asks(send_pipe_at(t, pipe, events, n)),
            events[n],
        ),
{
    reveal(send_is_run);
    reveal_with_fuel(send_after, 2);
    assert(events.take(n + 1).drop_last() =~= events.take(n));
    assert(events.take(n + 1).last() == events[n]);
}

proof fn lemma_send_start(t: RequestOut, pipe: PioPipe, events: Seq<Event>)
    ensures
        send_at(t, pipe, events, 0) == t,
        send_pipe_at(t, pipe, events, 0) == pipe,
        send_at(t, pipe, events, events.len() as int) == send_after(t, pipe, events).0,
        send_pipe_at(t, pipe, events, events.len() as int) == send_after(t, pipe, events).1,
{
    reveal(send_after);
    assert(events.take(0).len() == 0);
    assert(events.take(events.len() as int) =~= events);
}

proof fn lemma_send_fixed(t: RequestOut, pipe: PioPipe, events: Seq<Event>, n: int)
    requires
        send_is_run(t, pipe, events),
        0 <= n <= events.len(),
    ensures
        send_at(t, pipe, events, n).len == t.len,
        send_at(t, pipe, events, n).mps == t.mps,
        send_at(t, pipe, events, n).zlp == t.zlp,
        send_pipe_at(t, pipe, events, n) == (PioPipe {
            toggle_data1: send_pipe_at(t, pipe, events, n).toggle_data1,
            ..pipe
        }),
    decreases n,
{
    lemma_send_start(t, pipe, events);
    if n > 0 {
        lemma_send_fixed(t, pipe, events, n - 1);
        lemma_send_unfold(t, pipe, events, n - 1);
    }
}

proof fn lemma_send_step_accounted(
    t: RequestOut,
    pipe: PioPipe,
    toggle: bool,
    data: Seq<u8>,
    payloads: Seq<Seq<u8>>,
    event: Event,
)
    requires
        send_accounted(t, pipe, toggle, data, payloads),
        answers(t.asks(pipe), event),
    ensures
        send_accounted(
            t.next(event),
            t.next_pipe(pipe, event),
            toggle,
            data,
            match send_taken(t, data, event) {
                Some(payload) => payloads.push(payload),
                None => payloads,
            },
        ),
{
    let t1 = t.next(event);
    match send_taken(t, data, event) {
        Some(payload) => {
            lemma_joined_push(payloads, payload);
            assert(data.take(t1.sent as int) =~= data.take(t.sent as int) + payload);
            let pushed = payloads.push(payload);
            assert(pushed.drop_last() =~= payloads);
            assert forall|i: int| 0 <= i < payloads.len() implies #[trigger] pushed[i]
                == payloads[i] by {}
        },
        None => {},
    }
}

proof fn lemma_send_accounted(
    t: RequestOut,
    pipe: PioPipe,
    data: Seq<u8>,
    events: Seq<Event>,
    n: int,
)
    requires
        send_fresh(t, data),
        send_is_run(t, pipe, events),
        0 <= n <= events.len(),
    ensures
        send_accounted(
            send_at(t, pipe, events, n),
            send_pipe_at(t, pipe, events, n),
            pipe.toggle_data1,
            data,
            send_payloads(t, pipe, data, events, n),
        ),
    decreases n,
{
    if n == 0 {
        lemma_send_start(t, pipe, events);
        assert(data.take(0) =~= Seq::empty());
    } else {
        lemma_send_accounted(t, pipe, data, events, n - 1);
        lemma_send_unfold(t, pipe, events, n - 1);
        lemma_send_step_accounted(
            send_at(t, pipe, events, n - 1),
            send_pipe_at(t, pipe, events, n - 1),
            pipe.toggle_data1,
            data,
            send_payloads(t, pipe, data, events, n - 1),
            events[n - 1],
        );
    }
}

/// An OUT transfer that succeeds has had all its data acknowledged, in order. It ends with
/// an empty packet if and only if one was due, and no other packet is empty: without data,
/// that one is all there is.
pub proof fn law_request_out_delivers(
    t: RequestOut,
    pipe: PioPipe,
    data: Seq<u8>,
    events: Seq<Event>,
)
    requires
        send_fresh(t, data),
        send_is_run(t, pipe, events),
        send_after(t, pipe, events).0.phase == RequestOutPhase::Done(Ok(())),
    ensures
        ({
            let payloads = send_payloads(t, pipe, data, events, events.len() as int);
            &&& joined(payloads) == data
            &&& payloads.len() > 0
            &&& t.zlp <==> payloads.last().len() == 0
            &&& forall|i: int|
                0 <= i < payloads.len() ==> ((#[trigger] payloads[i]).len() == 0 <==> t.zlp && i
                    == payloads.len() - 1)
            &&& forall|i: int| 0 <= i < payloads.len() ==> (#[trigger] payloads[i]).len() <= t.mps
            &&& data.len() == 0 ==> payloads.len() == 1
            &&& full_but_last(
                if t.zlp {
                    payloads.drop_last()
                } else {
                    payloads
                },
                t.mps as int,
            )
        }),
{
    let len = events.len() as int;
    lemma_send_start(t, pipe, events);
    lemma_send_accounted(t, pipe, data, events, len);
    lemma_send_fixed(t, pipe, events, len);
    assert(data.take(data.len() as int) =~= data);
    let payloads = send_payloads(t, pipe, data, events, len);
    let front = payloads.drop_last();
    assert(payloads.last() == payloads[payloads.len() - 1]);
    if front.len() > 0 {
        assert(front.last() == payloads[payloads.len() - 2]);
        lemma_joined_nonempty(front);
    }
}

/// Where the caller asks for the end of an OUT transfer to be marked, the last packet is
/// short: the device can tell that the transfer is over.
pub proof fn law_request_out_end_is_short(
    t: RequestOut,
    pipe: PioPipe,
    data: Seq<u8>,
    events: Seq<Event>,
)
    requires
        send_fresh(t, data),
        send_is_run(t, pipe, events),
        send_after(t, pipe, events).0.phase == RequestOutPhase::Done(Ok(())),
        t.zlp == (data.len() == 0 || needs_terminating_zlp_spec(data.len(), t.mps as nat, true)),
    ensures
        send_payloads(t, pipe, data, events, events.len() as int).last().len() < t.mps,
{
    let payloads = send_payloads(t, pipe, data, events, events.len() as int);
    law_request_out_delivers(t, pipe, data, events);
    let mps = t.mps as int;
    let count = payloads.len() as int;
    if !t.zlp && payloads.last().len() >= mps {
        lemma_send_start(t, pipe, events);
        lemma_send_accounted(t, pipe, data, events, events.len() as int);
        lemma_send_fixed(t, pipe, events, events.len() as int);
        assert forall|i: int| 0 <= i < payloads.len() implies (#[trigger] payloads[i]).len()
            == mps by {
            if i == count - 1 {
                assert(payloads[i] == payloads.last());
            }
        }
        lemma_full_len(payloads, mps);
        assert((count * mps) % mps == 0) by (nonlinear_arith)
            requires
                mps > 0,
        ;
        assert(false);
    }
}

/// The toggle of a pipe advances with each packet that the device acknowledges, and only
/// then; every packet goes out with the toggle it has reached. An abandoned transfer
/// leaves it in step with the device.
pub proof fn law_request_out_toggles(
    t: RequestOut,
    pipe: PioPipe,
    data: Seq<u8>,
    events: Seq<Event>,
    i: int,
)
    requires
        send_fresh(t, data),
        send_is_run(t, pipe, events),
        0 <= i <= events.len(),
    ensures
        ({
            let reached = pipe.toggle_data1 == (send_payloads(t, pipe, data, events, i).len() % 2
                == 0);
            let now = send_pipe_at(t, pipe, events, i);
            &&& now == (PioPipe { toggle_data1: reached, ..pipe })
            &&& send_at(t, pipe, events, i).asks(now) matches Action::Send { data1, .. } ==> data1
                == reached
        }),
{
    lemma_send_accounted(t, pipe, data, events, i);
    lemma_send_fixed(t, pipe, events, i);
}

/// An OUT transfer of an interrupt or bulk pipe never times out: it is retried, one polling
/// interval later, until it is acknowledged or the endpoint fails.
pub proof fn law_request_out_never_times_out(t: RequestOut, pipe: PioPipe, event: Event)
    requires
        t.wf(),
        answers(t.asks(pipe), event),
    ensures
        t.next(event).phase != RequestOutPhase::Done(Err(PipeError::Timeout)),
        t.next(event).asks(pipe) matches Action::Sleep { us } ==> us == pipe.interval_us,
        t.asks(pipe) is Sleep ==> t.next(event).asks(pipe) is Send,
{
}

// Interrupt and bulk IN.

/// An IN transfer, its pipe and the caller's buffer after a sequence of events.
#[verifier::opaque]
pub open spec fn poll_after(
    t: RequestIn,
    pipe: PioPipe,
    buf: Seq<u8>,
    events: Seq<Event>,
) -> (RequestIn, PioPipe, Seq<u8>)
    decreases events.len(),
{
    if events.len() == 0 {
        (t, pipe, buf)
    } else {
        let (t1, pipe1, buf1) = poll_after(t, pipe, buf, events.drop_last());
        (
            t1.next(pipe1, buf1.len(), events.last()),
            t1.next_pipe(pipe1, buf1.len(), events.last()),
            t1.next_buf(pipe1, buf1, events.last()),
        )
    }
}

/// Whether each event answers the action it was asked for.
pub open spec fn poll_is_run(t: RequestIn, pipe: PioPipe, buf: Seq<u8>, events: Seq<Event>) -> bool
    decreases events.len(),
{
    events.len() == 0 || {
        let (t1, pipe1, _) = poll_after(t, pipe, buf, events.drop_last());
        &&& poll_is_run(t, pipe, buf, events.drop_last())
        &&& answers(t1.asks(pipe1), events.last())
    }
}

/// An IN transfer of an interrupt or bulk pipe takes in at most one packet. Until it does,
/// toggle and buffer are as they were, however often it polls; with it the toggle
/// advances, the payload is at the front of the buffer, and the transfer is over. It never
/// times out.
pub proof fn law_request_in_takes_one(pipe: PioPipe, buf: Seq<u8>, events: Seq<Event>)
    requires
        poll_is_run(RequestIn::Polling, pipe, buf, events),
    ensures
        ({
            let (t, pipe1, buf1) = poll_after(RequestIn::Polling, pipe, buf, events);
            match t {
                RequestIn::Done(Ok(n)) => {
                    &&& events.len() > 0
                    &&& events.last() is Reply
                    &&& n <= buf.len()
                    &&& pipe1 == (PioPipe { toggle_data1: !pipe.toggle_data1, ..pipe })
                    &&& events.last()->packet@[1] == data_pid_spec(pipe.toggle_data1)
                    &&& buf1 == events.last()->packet@.subrange(2, 2 + n) + buf.skip(n as int)
                },
                RequestIn::Done(Err(err)) => pipe1 == pipe && buf1 == buf && err
                    != PipeError::Timeout,
                _ => pipe1 == pipe && buf1 == buf,
            }
        }),
    decreases events.len(),
{
    reveal(poll_after);
    if events.len() > 0 {
        law_request_in_takes_one(pipe, buf, events.drop_last());
    }
}

} // verus!
