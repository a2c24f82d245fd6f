//! What goes on the wire, before NRZI and bit stuffing.

use vstd::prelude::*;

verus! {

/// Largest payload of one DATA packet on a full-speed control, bulk or interrupt
/// endpoint.
pub const MAX_DATA_PAYLOAD_BYTES: usize = 64;

/// Largest DATA packet: SYNC, PID, payload and CRC16.
pub const MAX_DATA_PACKET_BYTES: usize = 68;

/// Room for a handshake, or for the empty DATA packet of a STATUS stage.
pub const SHORT_PACKET_BYTES: usize = 8;

/// A token packet: PID, device address and endpoint number.
#[derive(Clone, Copy, Debug, PartialEq, Eq, Structural)]
pub struct Token {
    pub pid: u8,
    pub addr: u8,
    pub ep: u8,
}

/// The 11-bit frame number of a timer slot.
pub open spec fn frame_number_spec(slot: u32) -> u16 {
    (slot % 2048) as u16
}

/// Frame number sent in the SOF of a slot: its low 11 bits.
pub fn frame_number(slot: u32) -> (frame: u16)
    ensures
        frame == frame_number_spec(slot),
        frame < 2048,
{
    assert(slot & 0x7ff == slot % 2048) by (bit_vector);
    (slot & 0x7ff) as u16
}

/// Consecutive slots carry consecutive frame numbers, modulo their 11 bits.
pub proof fn law_frame_numbers_count_up(slot: u32)
    requires
        slot < u32::MAX,
    ensures
        frame_number_spec((slot + 1) as u32) == (frame_number_spec(slot) + 1) % 2048,
{
}

} // verus!
