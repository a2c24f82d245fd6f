//! What the numbers and bytes on the wire mean, in the terms of USB 2.0.
//!
//! The laws here speak of packet bytes, timer readings and counts alone.

use crate::bus::{PipeError, RxPacketStatus};
use crate::diag::{counted, handshake_anomaly_spec, Anomaly, Tally};
use crate::frame::{
    elapsed_spec, later_spec, near_boundary_spec, position_spec, reached_spec, remaining_spec,
    slot_spec,
};
use crate::packet::{
    frame_number_spec, MAX_DATA_PACKET_BYTES, MAX_DATA_PAYLOAD_BYTES, SHORT_PACKET_BYTES,
};
use crate::pid::{
    data_pid_spec, USB_PID_ACK, USB_PID_DATA0, USB_PID_DATA1, USB_PID_IN, USB_PID_NAK, USB_PID_OUT,
    USB_PID_SETUP, USB_PID_STALL,
};
use crate::reply::{
    data_in_buffer, data_in_spec, handshake_bad, handshake_follow_up_spec, handshake_spec,
    in_follow_up_spec, in_reply_acked, in_reply_bad, in_reply_spec, status_in_spec, stored, InReply,
};
use vstd::prelude::*;

verus! {

/// The timer counts modulo 2^32: distances are below that, lead from one reading to the
/// other, and advancing is addition.
pub proof fn law_timer_is_modular(from: u32, to: u32, us: u32)
    ensures
        0 <= elapsed_spec(from, to) < 0x1_0000_0000,
        (from + elapsed_spec(from, to)) % 0x1_0000_0000 == to,
        later_spec(from, us) == (from + us) % 0x1_0000_0000,
{
}

/// A target counts as reached from the moment it is due until half the timer range later,
/// and as ahead for half the range before it.
pub proof fn law_reached_half_range(now: u32, us: u32)
    ensures
        us < 0x8000_0000 ==> reached_spec(now, ((now + us) % 0x1_0000_0000) as u32),
        0 < us <= 0x8000_0000 ==> !reached_spec(((now + us) % 0x1_0000_0000) as u32, now),
{
}

/// A reading lies in the slot that begins at the last multiple of 1 ms; position and
/// remainder measure from there to the next one. The end-of-frame guard is the last stretch
/// with less than 80 us to go.
pub proof fn law_slots_are_milliseconds(now: u32)
    ensures
        slot_spec(now) * 1000 <= now < slot_spec(now) * 1000 + 1000,
        slot_spec(now) * 1000 + position_spec(now) == now,
        now + remaining_spec(now) == slot_spec(now) * 1000 + 1000,
        near_boundary_spec(now) <==> slot_spec(now) * 1000 + 1000 - now < 80,
{
}

/// The frame number is congruent to the slot modulo 2048, and has 11 bits.
pub proof fn law_frame_number_is_congruent(slot: u32)
    ensures
        frame_number_spec(slot) < 2048,
        (slot - frame_number_spec(slot)) % 2048 == 0,
{
}

/// Packet types have the codes of USB 2.0 table 8-1, each followed by its complement, and
/// packets their sizes: SYNC, PID and CRC16 around at most 64 bytes.
pub proof fn law_wire_constants(data1: bool)
    ensures
        USB_PID_OUT % 16 == 0b0001 && USB_PID_OUT / 16 == 15 - 0b0001,
        USB_PID_IN % 16 == 0b1001 && USB_PID_IN / 16 == 15 - 0b1001,
        USB_PID_SETUP % 16 == 0b1101 && USB_PID_SETUP / 16 == 15 - 0b1101,
        USB_PID_DATA0 % 16 == 0b0011 && USB_PID_DATA0 / 16 == 15 - 0b0011,
        USB_PID_DATA1 % 16 == 0b1011 && USB_PID_DATA1 / 16 == 15 - 0b1011,
        USB_PID_ACK % 16 == 0b0010 && USB_PID_ACK / 16 == 15 - 0b0010,
        USB_PID_NAK % 16 == 0b1010 && USB_PID_NAK / 16 == 15 - 0b1010,
        USB_PID_STALL % 16 == 0b1110 && USB_PID_STALL / 16 == 15 - 0b1110,
        data_pid_spec(data1) % 16 == (if data1 {
            0b1011int
        } else {
            0b0011int
        }),
        data_pid_spec(data1) / 16 == 15 - data_pid_spec(data1) % 16,
        MAX_DATA_PAYLOAD_BYTES == 64,
        MAX_DATA_PACKET_BYTES == 1 + 1 + 64 + 2,
        SHORT_PACKET_BYTES == 8,
{
}

/// The PID byte of a captured packet, if it got that far.
pub open spec fn pid_byte(packet: Seq<u8>) -> Option<u8> {
    if packet.len() >= 2 {
        Some(packet[1])
    } else {
        None
    }
}

/// Whether a packet is one that a device sends with data: PID byte 0xc3 or 0x4b.
pub open spec fn has_data_pid(packet: Seq<u8>) -> bool {
    pid_byte(packet) == Some(0xc3u8) || pid_byte(packet) == Some(0x4bu8)
}

/// Whether a packet carries exactly this payload: all that lies between its PID and its
/// CRC16. (A packet cut off before its CRC16 carries none.)
pub open spec fn carries(packet: Seq<u8>, payload: Seq<u8>) -> bool {
    if packet.len() >= 4 {
        packet.len() == payload.len() + 4 && packet.subrange(2, packet.len() - 2) == payload
    } else {
        payload.len() == 0
    }
}

/// A reply to an IN token is told apart by its status and its PID byte, and the whole
/// payload of a data packet counts.
pub proof fn law_in_reply_by_bytes(packet: Seq<u8>, status: RxPacketStatus)
    requires
        packet.len() <= usize::MAX,
    ensures
        in_reply_spec(packet, status) == Err::<InReply, PipeError>(PipeError::Babble) <==> status
            is Overflow,
        in_reply_spec(packet, status) == Err::<InReply, PipeError>(PipeError::Stall) <==> !(status
            is Overflow) && pid_byte(packet) == Some(0x1eu8),
        in_reply_spec(packet, status) == Ok::<InReply, PipeError>(InReply::NoReply) <==> !(status
            is Overflow) && packet.len() <= 1,
        in_reply_spec(packet, status) == Ok::<InReply, PipeError>(InReply::Nak) <==> !(status
            is Overflow) && pid_byte(packet) == Some(0x5au8),
        in_reply_spec(packet, status) is Ok && in_reply_spec(packet, status)->Ok_0 is Data <==> !(
        status is Overflow) && has_data_pid(packet),
        in_reply_spec(packet, status) matches Ok(InReply::Data { pid, valid_crc, payload_len })
            ==> pid == packet[1] && (valid_crc <==> status is ValidData) && (packet.len() >= 4
            ==> payload_len + 4 == packet.len()) && (packet.len() < 4 ==> payload_len == 0),
        in_reply_spec(packet, status) is Err ==> status is Overflow || pid_byte(packet) == Some(
            0x1eu8,
        ),
{
}

/// A polled data packet is accepted exactly if it arrived whole, with the expected toggle,
/// and its whole payload fits; what is accepted is its whole payload. It is refused for its
/// size exactly if it does not fit.
pub proof fn law_accepted_packet_is_whole(
    packet: Seq<u8>,
    status: RxPacketStatus,
    expect_data1: bool,
    room: nat,
    payload: Seq<u8>,
)
    requires
        packet.len() <= usize::MAX,
        carries(packet, payload),
    ensures
        ({
            let result = data_in_spec(packet, status, expect_data1, room);
            let wanted = status is ValidData && pid_byte(packet) == Some(
                if expect_data1 {
                    0x4bu8
                } else {
                    0xc3u8
                },
            );
            &&& result matches Ok(Some(n)) ==> wanted && n == payload.len() && n <= room
            &&& wanted && payload.len() <= room ==> (result matches Ok(Some(n)) && n
                == payload.len())
            &&& result == Err::<Option<usize>, PipeError>(PipeError::BufferOverflow) <==> wanted
                && payload.len() > room
            &&& result == Err::<Option<usize>, PipeError>(PipeError::Babble) <==> status
                is Overflow
            &&& result == Err::<Option<usize>, PipeError>(PipeError::Stall) <==> !(status
                is Overflow) && pid_byte(packet) == Some(0x1eu8)
            &&& result matches Err(err) ==> err is BufferOverflow || err is Babble || err is Stall
        }),
{
}

/// An accepted packet leaves its whole payload at the front of the buffer and every other
/// byte as it was; without one the buffer is as it was.
pub proof fn law_buffer_holds_payload(
    packet: Seq<u8>,
    status: RxPacketStatus,
    expect_data1: bool,
    before: Seq<u8>,
    payload: Seq<u8>,
)
    requires
        packet.len() <= usize::MAX,
        carries(packet, payload),
    ensures
        ({
            let result = data_in_spec(packet, status, expect_data1, before.len());
            let after = data_in_buffer(packet, result, before);
            &&& after.len() == before.len()
            &&& result matches Ok(Some(_)) ==> after.take(payload.len() as int) == payload
                && after.skip(payload.len() as int) == before.skip(payload.len() as int)
            &&& !(result matches Ok(Some(_))) ==> after == before
        }),
{
    let result = data_in_spec(packet, status, expect_data1, before.len());
    let after = data_in_buffer(packet, result, before);
    law_accepted_packet_is_whole(packet, status, expect_data1, before.len(), payload);
    if result matches Ok(Some(_)) {
        let n = payload.len() as int;
        assert(packet.subrange(2, 2 + n) =~= payload);
        assert(after.take(n) =~= payload);
        assert(after.skip(n) =~= before.skip(n));
    }
}

/// Storing a payload changes those bytes and no others.
pub proof fn law_stored_in_place(packet: Seq<u8>, n: int, before: Seq<u8>, from: int)
    requires
        0 <= n,
        n + 2 <= packet.len(),
        0 <= from,
        from + n <= before.len(),
    ensures
        stored(packet, n, before, from).len() == before.len(),
        forall|i: int|
            0 <= i < before.len() ==> #[trigger] stored(packet, n, before, from)[i] == (if from <= i
                < from + n {
                packet[i - from + 2]
            } else {
                before[i]
            }),
{
}

/// The STATUS stage of a control write is over exactly on a data packet that arrived whole
/// and is empty; a whole packet with a payload is an error; silence, NAK and damaged packets
/// leave the stage open.
pub proof fn law_status_needs_empty_packet(packet: Seq<u8>, status: RxPacketStatus)
    requires
        packet.len() <= usize::MAX,
    ensures
        ({
            let result = status_in_spec(packet, status);
            let whole = status is ValidData && has_data_pid(packet);
            &&& result == Ok::<bool, PipeError>(true) <==> whole && packet.len() <= 4
            &&& result == Err::<bool, PipeError>(PipeError::BadResponse) <==> whole && packet.len()
                > 4
            &&& result == Err::<bool, PipeError>(PipeError::Babble) <==> status is Overflow
            &&& result == Err::<bool, PipeError>(PipeError::Stall) <==> !(status is Overflow)
                && pid_byte(packet) == Some(0x1eu8)
            &&& result matches Err(err) ==> err is BadResponse || err is Babble || err is Stall
        }),
{
}

/// A handshake is an acknowledgement exactly if its PID byte is that of ACK, and an error
/// exactly if it is that of STALL.
pub proof fn law_handshake_by_bytes(packet: Seq<u8>)
    ensures
        handshake_spec(packet) == Ok::<bool, PipeError>(true) <==> pid_byte(packet) == Some(0xd2u8),
        handshake_spec(packet) == Err::<bool, PipeError>(PipeError::Stall) <==> pid_byte(packet)
            == Some(0x1eu8),
        handshake_spec(packet) matches Err(err) ==> err is Stall,
{
}

/// What is left to do after a reply: the ACK of a whole data packet is awaited; the line has
/// to settle after a packet that was too long, cut off after its SYNC, damaged, or of an
/// unknown type; after silence and after handshakes the bus is free.
pub proof fn law_follow_up_by_bytes(packet: Seq<u8>, status: RxPacketStatus)
    ensures
        ({
            let known = pid_byte(packet) == Some(0x5au8) || pid_byte(packet) == Some(0x1eu8);
            let follow = in_follow_up_spec(packet, status);
            &&& follow is AwaitTx <==> status is ValidData && has_data_pid(packet)
            &&& follow is Nothing <==> !(status is Overflow) && (packet.len() == 0 || known)
            &&& follow is Settle <==> in_reply_bad(packet, status)
            &&& in_reply_acked(packet, status) <==> status is ValidData && has_data_pid(packet)
        }),
        ({
            let known = pid_byte(packet) == Some(0x5au8) || pid_byte(packet) == Some(0x1eu8)
                || pid_byte(packet) == Some(0xd2u8);
            let follow = handshake_follow_up_spec(packet);
            &&& follow is Nothing <==> packet.len() == 0 || known
            &&& follow is Settle <==> packet.len() > 0 && !known
            &&& handshake_bad(packet) <==> follow is Settle
        }),
{
}

/// The anomaly of a handshake, by its length and its PID byte.
pub proof fn law_anomaly_by_bytes(packet: Seq<u8>)
    ensures
        ({
            let anomaly = handshake_anomaly_spec(packet);
            &&& anomaly == Some(Anomaly::HsNoReply) <==> packet.len() == 0
            &&& anomaly == Some(Anomaly::HsShort) <==> packet.len() == 1
            &&& anomaly == Some(Anomaly::HsStall) <==> pid_byte(packet) == Some(0x1eu8)
            &&& anomaly is None <==> pid_byte(packet) == Some(0xd2u8) || pid_byte(packet) == Some(
                0x5au8,
            )
            &&& anomaly matches Some(Anomaly::HsOther(pid)) ==> pid_byte(packet) == Some(pid)
            &&& !(anomaly matches Some(Anomaly::TxEopTimeout) || anomaly matches Some(
                Anomaly::TxBusHeld,
            ))
        }),
{
}

/// Recording an anomaly adds one to its own counter, modulo 2^32, and leaves the others; the
/// last unexpected PID is kept with its counter.
pub proof fn law_recording_counts_one(tally: Tally, anomaly: Anomaly)
    ensures
        ({
            let after = tally.after(anomaly);
            let grown = |c: u32, by: bool|
                (c + (if by {
                    1int
                } else {
                    0int
                })) % 0x1_0000_0000;
            &&& after.tx_eop_timeout == grown(tally.tx_eop_timeout, anomaly is TxEopTimeout)
            &&& after.tx_bus_held == grown(tally.tx_bus_held, anomaly is TxBusHeld)
            &&& after.hs_no_reply == grown(tally.hs_no_reply, anomaly is HsNoReply)
            &&& after.hs_short == grown(tally.hs_short, anomaly is HsShort)
            &&& after.hs_stall == grown(tally.hs_stall, anomaly is HsStall)
            &&& after.hs_other == grown(tally.hs_other, anomaly is HsOther)
            &&& after.hs_other_last == (match anomaly {
                Anomaly::HsOther(pid) => pid as u32,
                _ => tally.hs_other_last,
            })
        }),
        counted(tally.hs_other) == (tally.hs_other + 1) % 0x1_0000_0000,
{
}

} // verus!
