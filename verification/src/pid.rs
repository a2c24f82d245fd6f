//! Packet identifiers, as the byte that follows SYNC on the wire (USB 2.0 table 8-1).

use vstd::prelude::*;

verus! {

/// Token: host-to-device transaction.
pub const USB_PID_OUT: u8 = 0xe1;

/// Token: device-to-host transaction.
pub const USB_PID_IN: u8 = 0x69;

/// Token: start of a control transfer.
pub const USB_PID_SETUP: u8 = 0x2d;

/// Data packet, even toggle.
pub const USB_PID_DATA0: u8 = 0xc3;

/// Data packet, odd toggle.
pub const USB_PID_DATA1: u8 = 0x4b;

/// Handshake: packet accepted.
pub const USB_PID_ACK: u8 = 0xd2;

/// Handshake: not ready.
pub const USB_PID_NAK: u8 = 0x5a;

/// Handshake: endpoint halted.
pub const USB_PID_STALL: u8 = 0x1e;

/// Whether the upper nibble is the complement of the lower one.
pub open spec fn checks(pid: u8) -> bool {
    (pid >> 4) == (!pid & 0x0f)
}

/// The data PID that carries a toggle.
pub open spec fn data_pid_spec(data1: bool) -> u8 {
    if data1 {
        USB_PID_DATA1
    } else {
        USB_PID_DATA0
    }
}

/// The PID of a data packet with the given toggle (`true` is DATA1).
pub fn data_pid(data1: bool) -> (pid: u8)
    ensures
        pid == data_pid_spec(data1),
{
    if data1 {
        USB_PID_DATA1
    } else {
        USB_PID_DATA0
    }
}

/// Every PID carries its own check nibble, so no single-nibble error turns one into
/// another.
pub proof fn law_pids_carry_check_nibble()
    ensures
        checks(USB_PID_OUT),
        checks(USB_PID_IN),
        checks(USB_PID_SETUP),
        checks(USB_PID_DATA0),
        checks(USB_PID_DATA1),
        checks(USB_PID_ACK),
        checks(USB_PID_NAK),
        checks(USB_PID_STALL),
{
    assert(forall|p: u8|
        (p == 0xe1 || p == 0x69 || p == 0x2d || p == 0xc3 || p == 0x4b || p == 0xd2 || p == 0x5a
            || p == 0x1e) ==> #[trigger] (p >> 4) == (!p & 0x0f)) by (bit_vector);
}

} // verus!
