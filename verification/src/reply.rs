//! What a device reply means.
//!
//! A reply is the captured packet `[SYNC, PID, payload..., CRC16_lo, CRC16_hi]` (as much
//! of it as was received) and the status of its reception.

use crate::bus::{PipeError, RxPacketStatus};
use crate::pid::{USB_PID_ACK, USB_PID_DATA0, USB_PID_DATA1, USB_PID_NAK, USB_PID_STALL};
use vstd::prelude::*;

verus! {

/// Classified response to an IN token.
#[derive(Clone, Copy, Debug, PartialEq, Eq)]
pub enum InReply {
    /// No response was captured after the IN token.
    NoReply,
    /// Device returned a NAK handshake.
    Nak,
    /// Device returned DATA0/DATA1.
    Data {
        /// Raw PID byte (`DATA0` or `DATA1`).
        pid: u8,
        /// Whether CRC16 and DATA PID checks passed.
        valid_crc: bool,
        /// Payload bytes, excluding SYNC, PID, and CRC16.
        payload_len: usize,
    },
    /// Any other non-terminal response.
    Other,
}

/// Whether a PID byte is that of a data packet.
pub open spec fn is_data_pid(pid: u8) -> bool {
    pid == USB_PID_DATA0 || pid == USB_PID_DATA1
}

/// Payload bytes of a data packet of `len` bytes.
pub open spec fn payload_len_spec(len: nat) -> usize {
    if len >= 4 {
        (len - 4) as usize
    } else {
        0
    }
}

/// The meaning of a reply to an IN token.
pub open spec fn in_reply_spec(packet: Seq<u8>, status: RxPacketStatus) -> Result<
    InReply,
    PipeError,
> {
    if status == RxPacketStatus::Overflow {
        Err(PipeError::Babble)
    } else if packet.len() < 2 {
        Ok(InReply::NoReply)
    } else if packet[1] == USB_PID_STALL {
        Err(PipeError::Stall)
    } else if packet[1] == USB_PID_NAK {
        Ok(InReply::Nak)
    } else if is_data_pid(packet[1]) {
        Ok(
            InReply::Data {
                pid: packet[1],
                valid_crc: status == RxPacketStatus::ValidData,
                payload_len: payload_len_spec(packet.len()),
            },
        )
    } else {
        Ok(InReply::Other)
    }
}

/// Whether a reply to an IN token was not taken in whole (too long, cut short, bad CRC,
/// unknown PID), so that the device may still be transmitting.
pub open spec fn in_reply_bad(packet: Seq<u8>, status: RxPacketStatus) -> bool {
    ||| status == RxPacketStatus::Overflow
    ||| packet.len() == 1
    ||| packet.len() >= 2 && is_data_pid(packet[1]) && status != RxPacketStatus::ValidData
    ||| packet.len() >= 2 && !is_data_pid(packet[1]) && packet[1] != USB_PID_STALL && packet[1]
        != USB_PID_NAK
}

/// Whether a reply to an IN token is a data packet whose ACK is on its way.
pub open spec fn in_reply_acked(packet: Seq<u8>, status: RxPacketStatus) -> bool {
    status == RxPacketStatus::ValidData && packet.len() >= 2 && is_data_pid(packet[1])
}

/// The meaning of the handshake after an OUT or SETUP: `Ok(true)` for ACK, `Ok(false)`
/// for no reply, NAK or any other response, an error for STALL.
pub open spec fn handshake_spec(packet: Seq<u8>) -> Result<bool, PipeError> {
    if packet.len() < 2 {
        Ok(false)
    } else if packet[1] == USB_PID_STALL {
        Err(PipeError::Stall)
    } else {
        Ok(packet[1] == USB_PID_ACK)
    }
}

/// Whether the handshake after an OUT or SETUP was cut short or is unknown.
pub open spec fn handshake_bad(packet: Seq<u8>) -> bool {
    ||| packet.len() == 1
    ||| packet.len() >= 2 && packet[1] != USB_PID_ACK && packet[1] != USB_PID_STALL && packet[1]
        != USB_PID_NAK
}

/// The result of polling for one data packet into a buffer of `room` bytes.
pub open spec fn data_in_spec(
    packet: Seq<u8>,
    status: RxPacketStatus,
    expect_data1: bool,
    room: nat,
) -> Result<Option<usize>, PipeError> {
    match in_reply_spec(packet, status) {
        Err(err) => Err(err),
        Ok(InReply::Data { pid, valid_crc, payload_len }) => {
            if !valid_crc || (pid == USB_PID_DATA1) != expect_data1 {
                Ok(None)
            } else if payload_len > room {
                Err(PipeError::BufferOverflow)
            } else {
                Ok(Some(payload_len))
            }
        },
        Ok(_) => Ok(None),
    }
}

/// A buffer after a polled data packet: the payload at its front if one was accepted.
pub open spec fn data_in_buffer(
    packet: Seq<u8>,
    result: Result<Option<usize>, PipeError>,
    before: Seq<u8>,
) -> Seq<u8> {
    match result {
        Ok(Some(n)) => packet.subrange(2, 2 + n) + before.skip(n as int),
        _ => before,
    }
}

/// The result of polling for the empty data packet of a STATUS stage.
pub open spec fn status_in_spec(packet: Seq<u8>, status: RxPacketStatus) -> Result<
    bool,
    PipeError,
> {
    match in_reply_spec(packet, status) {
        Err(err) => Err(err),
        Ok(InReply::Data { valid_crc, payload_len, .. }) => {
            if !valid_crc {
                Ok(false)
            } else if payload_len == 0 {
                Ok(true)
            } else {
                Err(PipeError::BadResponse)
            }
        },
        Ok(_) => Ok(false),
    }
}

/// Classify the reply to an IN token.
pub fn in_reply(packet: &[u8], status: RxPacketStatus) -> (reply: Result<InReply, PipeError>)
    ensures
        reply == in_reply_spec(packet@, status),
{
    if status == RxPacketStatus::Overflow {
        return Err(PipeError::Babble);
    }
    let n: usize = packet.len();
    if n < 2 {
        return Ok(InReply::NoReply);
    }
    let pid: u8 = packet[1];
    if pid == USB_PID_STALL {
        Err(PipeError::Stall)
    } else if pid == USB_PID_NAK {
        Ok(InReply::Nak)
    } else if pid == USB_PID_DATA0 || pid == USB_PID_DATA1 {
        Ok(
            InReply::Data {
                pid,
                valid_crc: status == RxPacketStatus::ValidData,
                payload_len: n.saturating_sub(4),
            },
        )
    } else {
        Ok(InReply::Other)
    }
}

/// What is left to do on the bus after a reply.
#[derive(Clone, Copy, Debug, PartialEq, Eq, Structural)]
pub enum FollowUp {
    /// The bus is free.
    Nothing,
    /// The ACK is being transmitted: wait for it.
    AwaitTx,
    /// The device may still be transmitting: wait for an idle line.
    Settle,
}

/// What is left to do after the reply to an IN token.
pub open spec fn in_follow_up_spec(packet: Seq<u8>, status: RxPacketStatus) -> FollowUp {
    if in_reply_bad(packet, status) {
        FollowUp::Settle
    } else if in_reply_acked(packet, status) {
        FollowUp::AwaitTx
    } else {
        FollowUp::Nothing
    }
}

/// What is left to do after the handshake of an OUT or SETUP.
pub open spec fn handshake_follow_up_spec(packet: Seq<u8>) -> FollowUp {
    if handshake_bad(packet) {
        FollowUp::Settle
    } else {
        FollowUp::Nothing
    }
}

/// What is left to do after the reply to an IN token.
pub fn in_follow_up(packet: &[u8], status: RxPacketStatus) -> (follow: FollowUp)
    ensures
        follow == in_follow_up_spec(packet@, status),
{
    let short = packet.len() == 1;
    match in_reply(packet, status) {
        Err(PipeError::Babble) => FollowUp::Settle,
        Ok(InReply::NoReply) => if short {
            FollowUp::Settle
        } else {
            FollowUp::Nothing
        },
        Ok(InReply::Data { valid_crc, .. }) => if valid_crc {
            FollowUp::AwaitTx
        } else {
            FollowUp::Settle
        },
        Ok(InReply::Other) => FollowUp::Settle,
        _ => FollowUp::Nothing,
    }
}

/// Interpret the handshake after an OUT or SETUP.
pub fn check_ack(packet: &[u8]) -> (acked: Result<bool, PipeError>)
    ensures
        acked == handshake_spec(packet@),
{
    if packet.len() < 2 {
        return Ok(false);
    }
    let pid: u8 = packet[1];
    if pid == USB_PID_ACK {
        Ok(true)
    } else if pid == USB_PID_STALL {
        Err(PipeError::Stall)
    } else {
        Ok(false)
    }
}

/// What is left to do after the handshake of an OUT or SETUP.
pub fn handshake_follow_up(packet: &[u8]) -> (follow: FollowUp)
    ensures
        follow == handshake_follow_up_spec(packet@),
{
    if packet.len() < 2 {
        return if packet.len() == 1 {
            FollowUp::Settle
        } else {
            FollowUp::Nothing
        };
    }
    let pid: u8 = packet[1];
    if pid == USB_PID_ACK || pid == USB_PID_STALL || pid == USB_PID_NAK {
        FollowUp::Nothing
    } else {
        FollowUp::Settle
    }
}

/// Result of polling for one data packet of the expected toggle, with `room` bytes to
/// take its payload.
pub fn data_in(packet: &[u8], status: RxPacketStatus, expect_data1: bool, room: usize) -> (result:
    Result<Option<usize>, PipeError>)
    ensures
        result == data_in_spec(packet@, status, expect_data1, room as nat),
        result matches Ok(Some(n)) ==> n + 4 <= packet@.len() || n == 0,
{
    match in_reply(packet, status) {
        Err(err) => Err(err),
        Ok(InReply::Data { pid, valid_crc, payload_len }) => {
            if !valid_crc {
                return Ok(None);
            }
            let is_data1 = pid == USB_PID_DATA1;
            if is_data1 != expect_data1 {
                return Ok(None);
            }
            if payload_len > room {
                return Err(PipeError::BufferOverflow);
            }
            Ok(Some(payload_len))
        },
        Ok(_) => Ok(None),
    }
}

/// A buffer with the first `n` payload bytes of a packet written at `from`.
pub open spec fn stored(packet: Seq<u8>, n: int, before: Seq<u8>, from: int) -> Seq<u8> {
    before.take(from) + packet.subrange(2, 2 + n) + before.skip(from + n)
}

/// Write the first `n` payload bytes of a packet at `from`.
pub fn store(packet: &[u8], n: usize, out: &mut [u8], from: usize)
    requires
        n == 0 || n + 2 <= packet@.len(),
        from + n <= old(out)@.len(),
    ensures
        final(out)@.len() == old(out)@.len(),
        n > 0 ==> final(out)@ == stored(packet@, n as int, old(out)@, from as int),
        n == 0 ==> final(out)@ == old(out)@,
{
    let len: usize = packet.len();
    let room: usize = out.len();
    let mut i: usize = 0;
    while i < n
        invariant
            i <= n,
            n == 0 || n + 2 <= len,
            len == packet@.len(),
            from + n <= room,
            room == out@.len(),
            room == old(out)@.len(),
            forall|j: int| 0 <= j < from ==> out@[j] == old(out)@[j],
            forall|j: int| from <= j < from + i ==> out@[j] == packet@[j - from + 2],
            forall|j: int| from + i <= j < out@.len() ==> out@[j] == old(out)@[j],
        decreases n - i,
    {
        let byte: u8 = packet[i + 2];
        out[from + i] = byte;
        i = i + 1;
    }
    if n > 0 {
        assert(out@ =~= stored(packet@, n as int, old(out)@, from as int));
    } else {
        assert(out@ =~= old(out)@);
    }
}

/// Result of one IN transaction (an interrupt, bulk or control DATA-stage poll).
///
/// `Ok(Some(n))`: DATA with the expected toggle, ACKed; its payload is `out[..n]`.
/// `Ok(None)`: NAK, no reply, an undecodable packet, or a repeat of the previous packet
/// (wrong toggle, ACKed again): poll again later.
pub fn in_once(
    packet: &[u8],
    status: RxPacketStatus,
    expect_data1: bool,
    out: &mut [u8],
) -> (result: Result<Option<usize>, PipeError>)
    ensures
        result == data_in_spec(packet@, status, expect_data1, old(out)@.len()),
        final(out)@ == data_in_buffer(packet@, result, old(out)@),
{
    let result = data_in(packet, status, expect_data1, out.len());
    if let Ok(Some(n)) = result {
        store(packet, n, out, 0);
        assert(out@ =~= packet@.subrange(2, 2 + n) + old(out)@.skip(n as int));
    }
    result
}

/// Result of one STATUS-stage poll of a control-OUT transfer (the device returns a
/// zero-length DATA1; DATA0 is accepted too, for non-compliant devices).
///
/// `Ok(true)`: status received, ACKed. `Ok(false)`: NAK, no reply or an undecodable
/// packet: poll again later.
pub fn control_status_in(packet: &[u8], status: RxPacketStatus) -> (result: Result<bool, PipeError>)
    ensures
        result == status_in_spec(packet@, status),
{
    match in_reply(packet, status) {
        Err(err) => Err(err),
        Ok(InReply::Data { valid_crc, payload_len, .. }) => {
            if !valid_crc {
                Ok(false)
            } else if payload_len == 0 {
                Ok(true)
            } else {
                Err(PipeError::BadResponse)
            }
        },
        Ok(_) => Ok(false),
    }
}

/// Result of a SETUP transaction from its handshake: anything but ACK or STALL is a
/// timeout.
pub fn control_setup(packet: &[u8]) -> (result: Result<(), PipeError>)
    ensures
        result == (match handshake_spec(packet@) {
            Ok(true) => Ok(()),
            Ok(false) => Err(PipeError::Timeout),
            Err(err) => Err(err),
        }),
{
    match check_ack(packet) {
        Ok(true) => Ok(()),
        Ok(false) => Err(PipeError::Timeout),
        Err(err) => Err(err),
    }
}

/// Single step of a bulk/interrupt IN transfer: advance the toggle if a packet was
/// accepted.
pub fn request_in(polled: Result<Option<usize>, PipeError>, toggle_data1: &mut bool) -> (result:
    Result<usize, PipeError>)
    ensures
        result == (match polled {
            Ok(Some(n)) => Ok(n),
            Ok(None) => Err(PipeError::Timeout),
            Err(err) => Err(err),
        }),
        *final(toggle_data1) == (if polled matches Ok(Some(_)) {
            !*old(toggle_data1)
        } else {
            *old(toggle_data1)
        }),
{
    match polled {
        Ok(Some(n)) => {
            *toggle_data1 = !*toggle_data1;
            Ok(n)
        },
        Ok(None) => Err(PipeError::Timeout),
        Err(err) => Err(err),
    }
}

/// Single step of a bulk/interrupt OUT transfer: advance the toggle if the packet was
/// acknowledged.
pub fn request_out(acked: Result<bool, PipeError>, toggle_data1: &mut bool) -> (result: Result<
    (),
    PipeError,
>)
    ensures
        result == (match acked {
            Ok(true) => Ok(()),
            Ok(false) => Err(PipeError::Timeout),
            Err(err) => Err(err),
        }),
        *final(toggle_data1) == (if acked == Ok::<bool, PipeError>(true) {
            !*old(toggle_data1)
        } else {
            *old(toggle_data1)
        }),
{
    match acked {
        Ok(true) => {
            *toggle_data1 = !*toggle_data1;
            Ok(())
        },
        Ok(false) => Err(PipeError::Timeout),
        Err(err) => Err(err),
    }
}

/// A data packet is accepted only if it was acknowledged, and an accepted packet is never
/// one that still has the bus in doubt.
pub proof fn law_accepted_data_was_acked(
    packet: Seq<u8>,
    status: RxPacketStatus,
    expect_data1: bool,
    room: nat,
)
    requires
        data_in_spec(packet, status, expect_data1, room) matches Ok(Some(_)),
    ensures
        status == RxPacketStatus::ValidData,
        packet[1] == crate::pid::data_pid_spec(expect_data1),
        in_follow_up_spec(packet, status) == FollowUp::AwaitTx,
        data_in_spec(packet, status, expect_data1, room)->Ok_0->0 <= room,
{
}

/// A repeat of the previous packet (the other toggle) changes nothing: it is acknowledged
/// again and asked for again.
pub proof fn law_repeat_is_discarded(
    packet: Seq<u8>,
    status: RxPacketStatus,
    expect_data1: bool,
    room: nat,
)
    requires
        data_in_spec(packet, status, !expect_data1, room) matches Ok(Some(_)),
    ensures
        data_in_spec(packet, status, expect_data1, room) == Ok::<Option<usize>, PipeError>(None),
{
}

} // verus!
