//! What a transfer does for its caller, in terms of the caller's buffer and of the bytes
//! that the device sends.

use crate::bus::{Bus, PipeError};
use crate::clock::deadline_fits;
use crate::io;
use crate::pipe::{needs_terminating_zlp_spec, PioPipe};
use crate::transfer::{
    answers, begun, packet_pid_spec, Action, ControlIn, ControlInPhase, ControlOut,
    ControlOutPhase, Event, RequestIn, RequestOut, RequestOutPhase,
};
use crate::transfer_runs::{
    full_but_last, in_at, in_fresh, in_is_run, in_taken, joined, law_control_out_delivers,
    law_request_in_takes_one, law_request_out_delivers, lemma_full_len, out_after, out_at,
    out_fresh, out_is_run, poll_after, poll_is_run, send_after, send_fresh, send_is_run,
    send_payloads,
};
use crate::wire_laws::{
    carries, has_data_pid, law_accepted_packet_is_whole, law_handshake_by_bytes,
    law_status_needs_empty_packet, pid_byte,
};
use vstd::prelude::*;

verus! {

/// Whether an event is a reply with this PID byte.
pub open spec fn replied(event: Event, pid: u8) -> bool {
    event is Reply && pid_byte(event->packet@) == Some(pid)
}

/// Whether an event is a data packet that arrived whole, with this toggle.
pub open spec fn data_arrived(event: Event, data1: bool) -> bool {
    &&& event is Reply
    &&& event->status is ValidData
    &&& pid_byte(event->packet@) == Some(
        if data1 {
            0x4bu8
        } else {
            0xc3u8
        },
    )
}

/// The payload of a packet: what lies between its PID and its CRC16.
pub open spec fn payload_of(packet: Seq<u8>) -> Seq<u8> {
    if packet.len() >= 4 {
        packet.subrange(2, packet.len() - 2)
    } else {
        Seq::empty()
    }
}

proof fn lemma_packet_len(event: Event)
    requires
        event is Reply,
    ensures
        event->packet@.len() <= usize::MAX,
        carries(event->packet@, payload_of(event->packet@)),
{
    let packet = event->packet;
    assert(packet.len() == packet@.len());
}

/// A control-IN transfer asks for as much as bytes 6 and 7 of the SETUP say, low byte first,
/// and is refused at once exactly if that is more than the buffer holds. It takes packets of
/// the size of its endpoint; only a size of 0 becomes 1, and only one above 64 becomes 64.
/// It has its data timeout, in milliseconds of a clock that ticks in microseconds.
pub proof fn law_control_in_begins(
    pipe: PioPipe,
    setup: Seq<u8>,
    room: usize,
    now: u64,
    buf: Seq<u8>,
)
    requires
        setup.len() == 8,
        deadline_fits(now, pipe.timeout.data_ms),
        buf.len() == room,
    ensures
        ({
            let begun = pipe.control_in_begun(setup, room, now);
            &&& begun is Err <==> setup[6] + 256 * setup[7] > room
            &&& begun matches Err(err) ==> err is BufferOverflow
            &&& begun matches Ok(t) ==> {
                &&& t.wlen % 256 == setup[6]
                &&& t.wlen / 256 == setup[7]
                &&& t.room == room
                &&& 1 <= pipe.mps <= 64 ==> t.mps == pipe.mps
                &&& pipe.mps == 0 ==> t.mps == 1
                &&& pipe.mps > 64 ==> t.mps == 64
                &&& t.deadline - now == 1000 * pipe.timeout.data_ms
                &&& t.asks() is Setup
                &&& in_fresh(t, buf)
            }
        }),
{
}

/// A control-OUT transfer sends packets of the size of its endpoint (1 if that is 0), and
/// has a timeout of its own if there is no data.
pub proof fn law_control_out_begins(pipe: PioPipe, data: Seq<u8>, now: u64)
    requires
        data.len() <= usize::MAX,
        deadline_fits(now, pipe.out_timeout(data.len())),
    ensures
        ({
            let t = pipe.control_out_begun(data.len() as usize, now);
            &&& pipe.mps > 0 ==> t.mps == pipe.mps
            &&& pipe.mps == 0 ==> t.mps == 1
            &&& t.deadline - now == 1000 * (if data.len() == 0 {
                pipe.timeout.no_data_ms
            } else {
                pipe.timeout.data_ms
            })
            &&& t.asks() is Setup
            &&& out_fresh(t, data)
        }),
{
}

/// An OUT transfer ends with an empty packet if there is no data, or if the caller asks for
/// the end to be marked and the data is a whole number of packets; never otherwise.
pub proof fn law_request_out_begins(pipe: PioPipe, data: Seq<u8>, ensure_transaction_end: bool)
    requires
        data.len() <= usize::MAX,
        pipe.mps > 0,
    ensures
        ({
            let t = pipe.request_out_begun(data.len() as usize, ensure_transaction_end);
            let whole = exists|packets: int| #[trigger] (packets * pipe.mps) == data.len();
            &&& data.len() == 0 ==> t.zlp
            &&& data.len() > 0 && !ensure_transaction_end ==> !t.zlp
            &&& data.len() > 0 && ensure_transaction_end ==> (t.zlp <==> whole)
            &&& t.mps == pipe.mps
            &&& send_fresh(t, data)
        }),
{
    let mps = pipe.mps as int;
    let len = data.len() as int;
    if len % mps == 0 {
        assert((len / mps) * mps == len) by (nonlinear_arith)
            requires
                len % mps == 0,
                mps > 0,
        ;
    }
    assert forall|packets: int| #[trigger] (packets * pipe.mps) == data.len() implies len % mps
        == 0 by {
        assert((packets * mps) % mps == 0) by (nonlinear_arith)
            requires
                mps > 0,
        ;
    }
}

/// The rule of the empty packet, for any size: it takes a caller who asks for it and data
/// that fills its last packet.
pub proof fn law_zlp_rule(len: nat, mps: nat, ensure_transaction_end: bool)
    ensures
        needs_terminating_zlp_spec(len, mps, ensure_transaction_end) ==> ensure_transaction_end
            && len >= mps > 0,
        forall|packets: nat|
            packets > 0 && mps > 0 && #[trigger] (packets * mps) == len && ensure_transaction_end
                ==> needs_terminating_zlp_spec(len, mps, ensure_transaction_end),
        forall|packets: nat, rest: nat|
            0 < rest < mps && #[trigger] (packets * mps + rest) == len
                ==> !needs_terminating_zlp_spec(len, mps, ensure_transaction_end),
{
    assert forall|packets: nat|
        packets > 0 && mps > 0 && #[trigger] (packets * mps) == len
            && ensure_transaction_end implies needs_terminating_zlp_spec(
        len,
        mps,
        ensure_transaction_end,
    ) by {
        assert((packets * mps) % mps == 0 && packets * mps > 0) by (nonlinear_arith)
            requires
                mps > 0,
                packets > 0,
        ;
    }
    assert forall|packets: nat, rest: nat|
        0 < rest < mps && #[trigger] (packets * mps + rest)
            == len implies !needs_terminating_zlp_spec(len, mps, ensure_transaction_end) by {
        assert((packets * mps + rest) % mps == rest) by (nonlinear_arith)
            requires
                0 < rest < mps,
        ;
    }
    if needs_terminating_zlp_spec(len, mps, ensure_transaction_end) {
        assert(len >= mps) by (nonlinear_arith)
            requires
                len % mps == 0,
                len > 0,
                mps > 0,
        ;
    }
}

/// The transaction of an action: a SETUP (0x2d) with DATA0, an OUT (0xe1) with the action's
/// toggle, or an IN (0x69), for the device and endpoint of the pipe, with room for the
/// packet that may come back. A payload that was not encoded is refused, and nothing is
/// sent. A clock reading, a sleep and the end stand for no transaction.
pub proof fn law_actions_are_transactions(action: Action, bus: Bus, pipe: PioPipe, encoded: bool)
    ensures
        ({
            let transaction = begun(action, bus, pipe, encoded);
            let sends = action is Setup || action is Send;
            let polls = action is PollData || action is PollStatus || action is Poll;
            &&& transaction is Some <==> sends || polls
            &&& transaction matches Some(Err(err)) ==> sends && !encoded && err is BufferOverflow
            &&& sends && !encoded ==> (transaction matches Some(Err(_)))
            &&& transaction matches Some(Ok(t)) ==> {
                &&& t.token.addr == pipe.addr
                &&& t.token.ep == pipe.ep
                &&& action is Setup ==> t.token.pid == 0x2d && t.data == Some(0xc3u8)
                &&& action matches Action::Send { data1, .. } ==> t.token.pid == 0xe1 && t.data
                    == Some(
                    if data1 {
                        0x4bu8
                    } else {
                        0xc3u8
                    },
                )
                &&& polls ==> t.token.pid == 0x69 && t.data is None
                &&& action is PollData || action is Poll ==> t.capacity == 68
                &&& sends || action is PollStatus ==> t.capacity == 8
                &&& t.data == packet_pid_spec(action)
                &&& action is Poll ==> t.asks() is ReadClock
                &&& !(action is Poll) && !bus.attached && bus.hw_sof is None ==> t.asks() == (
                io::Action::Transmit { token: t.token, data: t.data })
            }
        }),
{
}

/// A control-IN transfer moves on as the device lets it: an acknowledged SETUP opens the DATA
/// stage, or the STATUS stage if nothing is asked for; a data packet with the expected toggle
/// that is no larger than a packet may be, and fits, is taken whole, and ends the stage if it
/// is short or completes the request; an acknowledged STATUS packet ends the transfer with
/// the number of bytes taken.
pub proof fn law_control_in_progress(t: ControlIn, buf: Seq<u8>, event: Event)
    requires
        t.wf(),
        buf.len() == t.room,
        answers(t.asks(), event),
    ensures
        ({
            let t1 = t.next(event);
            let status = Action::Send { data1: true, start: 0, end: 0 };
            &&& t.asks() is Setup && replied(event, 0xd2) ==> t1.total == t.total && t1.data1
                == t.data1 && t1.asks() == (if t.wlen > 0 {
                Action::PollData
            } else {
                status
            })
            &&& t.asks() == status && replied(event, 0xd2) ==> t1.phase == ControlInPhase::Done(
                Ok(t.total),
            )
            &&& t.asks() is PollData && data_arrived(event, t.data1) ==> {
                let payload = payload_of(event->packet@);
                if payload.len() <= t.mps && t.total + payload.len() <= t.room {
                    &&& in_taken(t, event) == Some(payload)
                    &&& t1.total == t.total + payload.len()
                    &&& t1.data1 == !t.data1
                    &&& t1.asks() == (if payload.len() == t.mps && t.total + payload.len()
                        < t.wlen {
                        Action::PollData
                    } else {
                        status
                    })
                    &&& t.next_buf(buf, event) == buf.take(t.total as int) + payload + buf.skip(
                        t.total + payload.len(),
                    )
                } else {
                    t1.phase == ControlInPhase::Done(Err(PipeError::BufferOverflow))
                }
            }
        }),
{
    if event is Reply {
        let packet = event->packet@;
        let payload = payload_of(packet);
        lemma_packet_len(event);
        law_handshake_by_bytes(packet);
        law_accepted_packet_is_whole(packet, event->status, t.data1, t.mps as nat, payload);
        if t.asks() is PollData && data_arrived(event, t.data1) && payload.len() <= t.mps && t.total
            + payload.len() <= t.room {
            assert(packet.subrange(2, 2 + payload.len() as int) =~= payload);
            assert(in_taken(t, event) == Some(payload));
            assert(t.next_buf(buf, event) =~= buf.take(t.total as int) + payload + buf.skip(
                t.total + payload.len(),
            ));
        }
    }
}

/// Only a whole data packet with the expected toggle is taken in, and its whole payload with
/// it; the buffer changes with nothing else.
pub proof fn law_control_in_takes_whole_packets(t: ControlIn, buf: Seq<u8>, event: Event)
    requires
        t.wf(),
        buf.len() == t.room,
        answers(t.asks(), event),
    ensures
        in_taken(t, event) matches Some(payload) ==> t.asks() is PollData && data_arrived(
            event,
            t.data1,
        ) && carries(event->packet@, payload) && payload.len() <= t.mps && t.total + payload.len()
            <= t.room,
        in_taken(t, event) is None ==> t.next_buf(buf, event) == buf && t.next(event).total
            == t.total && t.next(event).data1 == t.data1,
{
    if event is Reply {
        let packet = event->packet@;
        lemma_packet_len(event);
        law_accepted_packet_is_whole(
            packet,
            event->status,
            t.data1,
            t.mps as nat,
            payload_of(packet),
        );
        match in_taken(t, event) {
            Some(payload) => {
                assert(payload =~= payload_of(packet));
            },
            None => {},
        }
    }
}

/// Every payload of a control-IN transfer is that of a packet that the device sent, whole.
pub proof fn law_control_in_payloads_are_whole(
    t: ControlIn,
    buf: Seq<u8>,
    events: Seq<Event>,
    i: int,
)
    requires
        in_fresh(t, buf),
        in_is_run(t, buf, events),
        0 <= i < events.len(),
        in_taken(in_at(t, buf, events, i), events[i]) is Some,
    ensures
        events[i] is Reply,
        events[i]->status is ValidData,
        has_data_pid(events[i]->packet@),
        events[i]->packet@.len() >= 4 ==> in_taken(in_at(t, buf, events, i), events[i])->0.len() + 4
            == events[i]->packet@.len(),
        carries(events[i]->packet@, in_taken(in_at(t, buf, events, i), events[i])->0),
{
    let at = in_at(t, buf, events, i);
    let packet = events[i]->packet@;
    lemma_packet_len(events[i]);
    law_accepted_packet_is_whole(
        packet,
        events[i]->status,
        at.data1,
        at.mps as nat,
        payload_of(packet),
    );
    assert(in_taken(at, events[i])->0 =~= payload_of(packet));
}

/// Whether a reply leaves the stage of a transfer open: no ACK or STALL where a handshake is
/// due, no packet with the expected toggle where data is.
pub open spec fn in_left_open(t: ControlIn, event: Event) -> bool {
    &&& event is Reply
    &&& pid_byte(event->packet@) != Some(0x1eu8)
    &&& if t.asks() is PollData {
        !(event->status is Overflow) && !data_arrived(event, t.data1)
    } else {
        pid_byte(event->packet@) != Some(0xd2u8)
    }
}

/// A stage of a control-IN transfer that the device leaves open is tried again a frame later
/// exactly as before, as often as it takes, until the deadline; then it has timed out.
pub proof fn law_control_in_retries(t: ControlIn, buf: Seq<u8>, event: Event, now: u64)
    requires
        t.wf(),
        buf.len() == t.room,
        t.asks() is Setup || t.asks() is PollData || t.asks() is Send,
        in_left_open(t, event),
    ensures
        t.next(event).asks() is ReadInstant,
        t.next_buf(buf, event) == buf,
        now < t.deadline ==> t.next(event).next(Event::Instant(now)).asks() == (Action::Sleep {
            us: 1000,
        }) && t.next(event).next(Event::Instant(now)).next(Event::Slept) == t,
        now >= t.deadline ==> t.next(event).next(Event::Instant(now)).phase == ControlInPhase::Done(
            Err(PipeError::Timeout),
        ),
{
    let packet = event->packet@;
    lemma_packet_len(event);
    law_handshake_by_bytes(packet);
    law_accepted_packet_is_whole(packet, event->status, t.data1, t.mps as nat, payload_of(packet));
}

/// A control-IN transfer fails for a cause: a STALL, a packet too long for the receiver, a
/// packet larger than the endpoint's or than the buffer left, an encoder that refused, or a
/// clock past the deadline; and on each of them it does fail.
pub proof fn law_control_in_fails_for_cause(t: ControlIn, event: Event)
    requires
        t.wf(),
        answers(t.asks(), event),
    ensures
        ({
            let phase = t.next(event).phase;
            let failed = |err: PipeError| phase == ControlInPhase::Done(Err(err));
            let polling = t.asks() is PollData;
            let overflow = polling && event is Reply && event->status is Overflow;
            &&& failed(PipeError::Stall) <==> replied(event, 0x1e) && !overflow
            &&& failed(PipeError::Babble) <==> overflow
            &&& failed(PipeError::BufferOverflow) <==> event is Refused || (polling && data_arrived(
                event,
                t.data1,
            ) && (payload_of(event->packet@).len() > t.mps || t.total + payload_of(
                event->packet@,
            ).len() > t.room))
            &&& failed(PipeError::Timeout) <==> event is Instant && event->Instant_0 >= t.deadline
            &&& !failed(PipeError::BadResponse)
            &&& phase matches ControlInPhase::Done(Ok(n)) ==> t.asks() is Send && replied(
                event,
                0xd2,
            ) && n == t.total
        }),
{
    if event is Reply {
        let packet = event->packet@;
        lemma_packet_len(event);
        law_handshake_by_bytes(packet);
        law_accepted_packet_is_whole(
            packet,
            event->status,
            t.data1,
            t.mps as nat,
            payload_of(packet),
        );
    }
}

/// A request that one packet answers: for every endpoint size and every request that fits,
/// if the device acknowledges the SETUP, sends a packet that is short or completes the
/// request, and acknowledges the STATUS packet, the caller gets exactly that packet.
pub proof fn law_control_in_one_packet(
    pipe: PioPipe,
    setup: Seq<u8>,
    now: u64,
    buf: Seq<u8>,
    acked: Event,
    answer: Event,
)
    requires
        setup.len() == 8,
        1 <= pipe.mps <= 64,
        deadline_fits(now, pipe.timeout.data_ms),
        0 < setup[6] + 256 * setup[7] <= buf.len() <= usize::MAX,
        replied(acked, 0xd2),
        data_arrived(answer, true),
        payload_of(answer->packet@).len() <= pipe.mps,
        payload_of(answer->packet@).len() <= buf.len(),
        payload_of(answer->packet@).len() < pipe.mps || payload_of(answer->packet@).len()
            >= setup[6] + 256 * setup[7],
    ensures
        ({
            let t = pipe.control_in_begun(setup, buf.len() as usize, now)->Ok_0;
            let payload = payload_of(answer->packet@);
            &&& t.next(acked).next(answer).next(acked).phase == ControlInPhase::Done(
                Ok(payload.len() as usize),
            )
            &&& t.next(acked).next_buf(buf, answer) == payload + buf.skip(payload.len() as int)
        }),
{
    let t = pipe.control_in_begun(setup, buf.len() as usize, now)->Ok_0;
    let payload = payload_of(answer->packet@);
    law_control_in_begins(pipe, setup, buf.len() as usize, now, buf);
    law_control_in_progress(t, buf, acked);
    law_control_in_progress(t.next(acked), buf, answer);
    law_control_in_progress(
        t.next(acked).next(answer),
        t.next(acked).next_buf(buf, answer),
        acked,
    );
    assert(buf.take(0) + payload + buf.skip(payload.len() as int) =~= payload + buf.skip(
        payload.len() as int,
    ));
}

/// A control-OUT transfer moves on as the device lets it: an acknowledged SETUP or packet is
/// followed by the next stretch of the data, as long as a packet may be or as is left, with
/// the other toggle; when all is acknowledged, by the STATUS stage, which an empty packet
/// ends.
pub proof fn law_control_out_progress(t: ControlOut, event: Event)
    requires
        t.wf(),
        answers(t.asks(), event),
    ensures
        ({
            let t1 = t.next(event);
            let left = t1.len - t1.sent;
            &&& t.asks() is Setup && replied(event, 0xd2) ==> t1.sent == t.sent && t1.data1
                == t.data1 && out_offers(t1)
            &&& t.asks() matches Action::Send { start, end, data1 } ==> start == t.sent && data1
                == t.data1 && end - start == (if t.len - t.sent <= t.mps {
                t.len - t.sent
            } else {
                t.mps as int
            }) && (replied(event, 0xd2) ==> t1.sent == end && t1.data1 == !t.data1 && out_offers(
                t1,
            ))
            &&& t.asks() is PollStatus && event is Reply && event->status is ValidData
                && has_data_pid(event->packet@) ==> t1.phase == ControlOutPhase::Done(
                if event->packet@.len() <= 4 {
                    Ok(())
                } else {
                    Err(PipeError::BadResponse)
                },
            )
        }),
{
    if event is Reply {
        lemma_packet_len(event);
        law_handshake_by_bytes(event->packet@);
        law_status_needs_empty_packet(event->packet@, event->status);
    }
}

/// What a control-OUT transfer offers between packets: the data from where the acknowledged
/// part ends, or the STATUS stage if there is none left.
pub open spec fn out_offers(t: ControlOut) -> bool {
    if t.sent < t.len {
        t.asks() matches Action::Send { data1, start, .. } && data1 == t.data1 && start == t.sent
    } else {
        t.asks() is PollStatus
    }
}

/// Whether a reply leaves the stage of a transfer open: no ACK or STALL where a handshake is
/// due, no whole data packet where the STATUS packet is.
pub open spec fn out_left_open(t: ControlOut, event: Event) -> bool {
    &&& event is Reply
    &&& pid_byte(event->packet@) != Some(0x1eu8)
    &&& if t.asks() is PollStatus {
        !(event->status is Overflow) && !(event->status is ValidData && has_data_pid(
            event->packet@,
        ))
    } else {
        pid_byte(event->packet@) != Some(0xd2u8)
    }
}

/// A stage of a control-OUT transfer that the device leaves open is tried again a frame later
/// exactly as before, as often as it takes, until the deadline; then it has timed out.
pub proof fn law_control_out_retries(t: ControlOut, event: Event, now: u64)
    requires
        t.wf(),
        t.asks() is Setup || t.asks() is PollStatus || t.asks() is Send,
        out_left_open(t, event),
    ensures
        t.next(event).asks() is ReadInstant,
        now < t.deadline ==> t.next(event).next(Event::Instant(now)).asks() == (Action::Sleep {
            us: 1000,
        }) && t.next(event).next(Event::Instant(now)).next(Event::Slept) == t,
        now >= t.deadline ==> t.next(event).next(Event::Instant(now)).phase
            == ControlOutPhase::Done(Err(PipeError::Timeout)),
{
    lemma_packet_len(event);
    law_handshake_by_bytes(event->packet@);
    law_status_needs_empty_packet(event->packet@, event->status);
}

/// A control-OUT transfer fails for a cause, and on each of them it does fail.
pub proof fn law_control_out_fails_for_cause(t: ControlOut, event: Event)
    requires
        t.wf(),
        answers(t.asks(), event),
    ensures
        ({
            let phase = t.next(event).phase;
            let failed = |err: PipeError| phase == ControlOutPhase::Done(Err(err));
            let polling = t.asks() is PollStatus && event is Reply;
            let overflow = polling && event->status is Overflow;
            &&& failed(PipeError::Stall) <==> replied(event, 0x1e) && !overflow
            &&& failed(PipeError::Babble) <==> overflow
            &&& failed(PipeError::BufferOverflow) <==> event is Refused
            &&& failed(PipeError::BadResponse) <==> polling && event->status is ValidData
                && has_data_pid(event->packet@) && event->packet@.len() > 4
            &&& failed(PipeError::Timeout) <==> event is Instant && event->Instant_0 >= t.deadline
        }),
{
    if event is Reply {
        lemma_packet_len(event);
        law_handshake_by_bytes(event->packet@);
        law_status_needs_empty_packet(event->packet@, event->status);
    }
}

/// A control-OUT transfer is reported as done only if the device has answered its STATUS
/// stage: the last reply arrived whole, is a data packet, and is empty.
pub proof fn law_control_out_needs_status(t: ControlOut, data: Seq<u8>, events: Seq<Event>)
    requires
        out_fresh(t, data),
        out_is_run(t, events),
        out_after(t, events).phase == ControlOutPhase::Done(Ok(())),
    ensures
        events.len() > 0,
        out_at(t, events, events.len() - 1).asks() is PollStatus,
        events.last() is Reply,
        events.last()->status is ValidData,
        2 <= events.last()->packet@.len() <= 4,
        events.last()->packet@[1] == 0xc3 || events.last()->packet@[1] == 0x4b,
{
    law_control_out_delivers(t, data, events);
    lemma_packet_len(events.last());
    law_status_needs_empty_packet(events.last()->packet@, events.last()->status);
}

/// An IN transfer of an interrupt or bulk pipe ends with the first whole packet of the
/// expected toggle that fits, and delivers it whole; a packet that does not fit, a STALL and
/// a packet too long for the receiver are errors; everything else is waited out for one
/// polling interval, after which the transfer is as it was.
pub proof fn law_request_in_reacts(pipe: PioPipe, buf: Seq<u8>, event: Event)
    requires
        event is Reply,
    ensures
        ({
            let t = RequestIn::Polling;
            let t1 = t.next(pipe, buf.len(), event);
            let pipe1 = t.next_pipe(pipe, buf.len(), event);
            let payload = payload_of(event->packet@);
            let arrived = data_arrived(event, pipe.toggle_data1);
            let overflow = event->status is Overflow;
            &&& t.asks(pipe) is Poll
            &&& arrived && payload.len() <= buf.len() ==> t1 == RequestIn::Done(
                Ok(payload.len() as usize),
            ) && pipe1 == (PioPipe { toggle_data1: !pipe.toggle_data1, ..pipe }) && t.next_buf(
                pipe,
                buf,
                event,
            ) == payload + buf.skip(payload.len() as int)
            &&& !(arrived && payload.len() <= buf.len()) ==> pipe1 == pipe && t.next_buf(
                pipe,
                buf,
                event,
            ) == buf
            &&& arrived && payload.len() > buf.len() ==> t1 == RequestIn::Done(
                Err(PipeError::BufferOverflow),
            )
            &&& overflow ==> t1 == RequestIn::Done(Err(PipeError::Babble))
            &&& !overflow && replied(event, 0x1e) ==> t1 == RequestIn::Done(Err(PipeError::Stall))
            &&& !arrived && !overflow && !replied(event, 0x1e) ==> t1.asks(pipe) == (
            Action::Sleep { us: pipe.interval_us }) && t1.next(pipe, buf.len(), Event::Slept) == t
        }),
{
    let packet = event->packet@;
    let payload = payload_of(packet);
    lemma_packet_len(event);
    law_accepted_packet_is_whole(packet, event->status, pipe.toggle_data1, buf.len(), payload);
    if data_arrived(event, pipe.toggle_data1) && payload.len() <= buf.len() {
        assert(packet.subrange(2, 2 + payload.len() as int) =~= payload);
    }
}

/// What an IN transfer of an interrupt or bulk pipe delivers is a whole packet: as many bytes
/// as lie between its PID and its CRC16.
pub proof fn law_request_in_delivers_whole(
    pipe: PioPipe,
    buf: Seq<u8>,
    events: Seq<Event>,
    n: usize,
)
    requires
        poll_is_run(RequestIn::Polling, pipe, buf, events),
        poll_after(RequestIn::Polling, pipe, buf, events).0 == RequestIn::Done(Ok(n)),
    ensures
        ({
            let after = poll_after(RequestIn::Polling, pipe, buf, events).2;
            &&& events.len() > 0
            &&& data_arrived(events.last(), pipe.toggle_data1)
            &&& carries(events.last()->packet@, after.take(n as int))
            &&& events.last()->packet@.len() >= 4 ==> n == events.last()->packet@.len() - 4
            &&& after.skip(n as int) == buf.skip(n as int)
        }),
{
    reveal(poll_after);
    law_request_in_takes_one(pipe, buf, events);
    law_request_in_takes_one(pipe, buf, events.drop_last());
    let last = events.last();
    let after = poll_after(RequestIn::Polling, pipe, buf, events).2;
    lemma_packet_len(last);
    law_request_in_reacts(pipe, buf, last);
    law_accepted_packet_is_whole(
        last->packet@,
        last->status,
        pipe.toggle_data1,
        buf.len(),
        payload_of(last->packet@),
    );
    assert(after.take(n as int) =~= payload_of(last->packet@));
    assert(after.skip(n as int) =~= buf.skip(n as int));
}

/// An OUT transfer of an interrupt or bulk pipe moves on with each ACK: the next stretch of
/// the data, then the empty packet if one is due, then the end. Without an ACK it waits one
/// polling interval and is then as it was. A STALL and a refused payload are errors.
pub proof fn law_request_out_reacts(t: RequestOut, pipe: PioPipe, event: Event)
    requires
        t.wf(),
        t.asks(pipe) is Send,
        event is Reply || event is Refused,
    ensures
        ({
            let t1 = t.next(event);
            let pipe1 = t.next_pipe(pipe, event);
            let end = t.asks(pipe)->end;
            let start = t.asks(pipe)->start;
            let last = t.phase is Terminating;
            &&& t.asks(pipe)->data1 == pipe.toggle_data1
            &&& !last ==> start == t.sent && end - start == (if t.len - t.sent <= t.mps {
                t.len - t.sent
            } else {
                t.mps as int
            })
            &&& last ==> start == end
            &&& pipe1 == (PioPipe {
                toggle_data1: if replied(event, 0xd2) {
                    !pipe.toggle_data1
                } else {
                    pipe.toggle_data1
                },
                ..pipe
            })
            &&& replied(event, 0xd2) && last ==> t1.phase == RequestOutPhase::Done(Ok(()))
            &&& replied(event, 0xd2) && !last ==> t1.sent == end && if end < t.len {
                t1.asks(pipe1) is Send && t1.asks(pipe1)->start == end && !(t1.phase is Terminating)
            } else if t.zlp {
                t1.phase is Terminating
            } else {
                t1.phase == RequestOutPhase::Done(Ok(()))
            }
            &&& replied(event, 0x1e) ==> t1.phase == RequestOutPhase::Done(Err(PipeError::Stall))
            &&& event is Refused ==> t1.phase == RequestOutPhase::Done(
                Err(PipeError::BufferOverflow),
            )
            &&& event is Reply && !replied(event, 0xd2) && !replied(event, 0x1e) ==> t1.asks(pipe)
                == (Action::Sleep { us: pipe.interval_us }) && t1.next(Event::Slept) == t
        }),
{
    if event is Reply {
        law_handshake_by_bytes(event->packet@);
    }
}

proof fn lemma_zlp_after_full(packets: Seq<Seq<u8>>, data: Seq<u8>, mps: int)
    requires
        mps > 0,
        data.len() > 0,
        data.len() as int % mps == 0,
        joined(packets) == data,
        full_but_last(packets, mps),
        forall|i: int| 0 <= i < packets.len() ==> 0 < (#[trigger] packets[i]).len() <= mps,
    ensures
        packets.len() * mps == data.len(),
{
    assert(packets.len() > 0);
    let front = packets.drop_last();
    assert forall|i: int| 0 <= i < front.len() implies (#[trigger] front[i]).len() == mps by {
        assert(front[i] == packets[i]);
    }
    lemma_full_len(front, mps);
    assert(packets.last() == packets[packets.len() - 1]);
    assert(joined(packets) == joined(front) + packets.last());
    let full = front.len() as int;
    let rest = packets.last().len() as int;
    if rest < mps {
        assert((full * mps + rest) % mps == rest) by (nonlinear_arith)
            requires
                0 < rest < mps,
        ;
    }
    assert((full + 1) * mps == full * mps + mps) by (nonlinear_arith);
}

/// An OUT transfer that succeeds takes as few packets as its data needs: the data in full
/// packets and a last one for the rest, and one empty packet if the transfer has to end with
/// one.
pub proof fn law_request_out_packet_count(
    pipe: PioPipe,
    data: Seq<u8>,
    ensure_transaction_end: bool,
    events: Seq<Event>,
)
    requires
        pipe.mps > 0,
        data.len() <= usize::MAX,
        send_is_run(
            pipe.request_out_begun(data.len() as usize, ensure_transaction_end),
            pipe,
            events,
        ),
        send_after(
            pipe.request_out_begun(data.len() as usize, ensure_transaction_end),
            pipe,
            events,
        ).0.phase == RequestOutPhase::Done(Ok(())),
    ensures
        ({
            let t = pipe.request_out_begun(data.len() as usize, ensure_transaction_end);
            let payloads = send_payloads(t, pipe, data, events, events.len() as int);
            let count = payloads.len() as int;
            &&& joined(payloads) == data
            &&& !ensure_transaction_end && data.len() > 0 ==> {
                &&& forall|i: int| 0 <= i < count ==> (#[trigger] payloads[i]).len() > 0
                &&& (count - 1) * pipe.mps < data.len() <= count * pipe.mps
            }
            &&& ensure_transaction_end && data.len() > 0 ==> (count - 1) * pipe.mps <= data.len()
                < count * pipe.mps
            &&& data.len() == 0 ==> count == 1
        }),
{
    let t = pipe.request_out_begun(data.len() as usize, ensure_transaction_end);
    law_request_out_begins(pipe, data, ensure_transaction_end);
    law_request_out_delivers(t, pipe, data, events);
    let payloads = send_payloads(t, pipe, data, events, events.len() as int);
    let mps = pipe.mps as int;
    let count = payloads.len() as int;
    let front = payloads.drop_last();
    assert(payloads.last() == payloads[count - 1]);
    assert(joined(payloads) == joined(front) + payloads.last());
    if t.zlp {
        if data.len() > 0 {
            lemma_zlp_after_full(front, data, mps);
            assert((count - 1) * mps < count * mps) by (nonlinear_arith)
                requires
                    mps > 0,
            ;
        }
    } else {
        assert forall|i: int| 0 <= i < front.len() implies (#[trigger] front[i]).len() == mps by {
            assert(front[i] == payloads[i]);
        }
        lemma_full_len(front, mps);
        assert(count * mps == (count - 1) * mps + mps) by (nonlinear_arith);
        if ensure_transaction_end && payloads.last().len() == mps {
            assert(count * pipe.mps == data.len());
        }
    }
}

} // verus!
