//! Frame timing on the free-running microsecond timer.
//!
//! The timer is 32 bits wide and wraps; a frame is a 1 ms slot `now / 1000` of it.

use vstd::prelude::*;

verus! {

/// Full-speed frame interval in microseconds.
///
/// USB 2.0 sections 7.1.12 and 8.4.3 define one full-speed frame every 1.000 ms. It is
/// also the low-speed keep-alive period, the presence-poll period and the retry cadence.
pub const FRAME_INTERVAL_US: u32 = 1000;

/// Minimum spacing between two SOFs.
///
/// SOFs are aligned to 1 ms timer slots; if one goes out late in its slot, the SOF of the
/// next slot is held back until at least this long after it.
pub const MIN_SOF_SPACING_US: u32 = 500;

/// End-of-frame guard: a transaction is not started within this many microseconds of the
/// next frame boundary.
///
/// Covers the longest full-speed transaction this host issues: token, turnaround, a
/// 64-byte DATA packet with worst-case bit stuffing, and the handshake.
pub const FRAME_GUARD_US: u32 = 80;

/// Microseconds from one reading of the wrapping timer to a later one.
pub open spec fn elapsed_spec(from: u32, to: u32) -> int {
    if to >= from {
        to - from
    } else {
        to - from + 0x1_0000_0000
    }
}

/// Where the timer stands `us` microseconds after a reading.
pub open spec fn later_spec(from: u32, us: u32) -> u32 {
    if from + us < 0x1_0000_0000 {
        (from + us) as u32
    } else {
        (from + us - 0x1_0000_0000) as u32
    }
}

/// Whether the timer has reached `target`, as far as half its range can tell.
pub open spec fn reached_spec(target: u32, now: u32) -> bool {
    elapsed_spec(target, now) < 0x8000_0000
}

/// The 1 ms slot of a timer reading.
pub open spec fn slot_spec(now: u32) -> u32 {
    now / 1000
}

/// Microseconds into the slot of a timer reading.
pub open spec fn position_spec(now: u32) -> u32 {
    now % 1000
}

/// Microseconds from a timer reading to the end of its slot.
pub open spec fn remaining_spec(now: u32) -> int {
    1000 - position_spec(now)
}

/// Whether a transaction started at this reading could still be on the wire at the next
/// frame boundary.
pub open spec fn near_boundary_spec(now: u32) -> bool {
    remaining_spec(now) < 80
}

/// Microseconds from `from` to `to` on the wrapping timer.
pub fn elapsed(from: u32, to: u32) -> (us: u32)
    ensures
        us == elapsed_spec(from, to),
{
    to.wrapping_sub(from)
}

/// Timer reading `us` microseconds after `from`.
pub fn later(from: u32, us: u32) -> (at: u32)
    ensures
        at == later_spec(from, us),
{
    from.wrapping_add(us)
}

/// Whether `target` is at or before `now`; readings more than half the timer range ahead
/// count as past.
pub fn reached(target: u32, now: u32) -> (b: bool)
    ensures
        b == reached_spec(target, now),
{
    elapsed(target, now) < 0x8000_0000
}

/// 1 ms slot of a timer reading.
pub fn slot(now: u32) -> (s: u32)
    ensures
        s == slot_spec(now),
{
    now / FRAME_INTERVAL_US
}

/// Microseconds into the slot of a timer reading.
pub fn position(now: u32) -> (us: u32)
    ensures
        us == position_spec(now),
        us < 1000,
{
    now % FRAME_INTERVAL_US
}

/// Microseconds to the end of the slot of a timer reading.
pub fn remaining(now: u32) -> (us: u32)
    ensures
        us == remaining_spec(now),
        1 <= us <= 1000,
{
    FRAME_INTERVAL_US - position(now)
}

/// Whether less than the end-of-frame guard is left of the frame (USB 2.0 section
/// 11.2.5).
pub fn near_boundary(now: u32) -> (b: bool)
    ensures
        b == near_boundary_spec(now),
{
    remaining(now) < FRAME_GUARD_US
}

/// Advancing a reading and measuring the distance undo each other, across the wrap too.
pub proof fn law_later_elapsed(from: u32, us: u32, to: u32)
    ensures
        elapsed_spec(from, later_spec(from, us)) == us,
        later_spec(from, elapsed_spec(from, to) as u32) == to,
{
}

} // verus!
