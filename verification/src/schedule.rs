//! The SOF schedule of a bus, whichever machine works on it.
//!
//! Transactions, keep-alive checks, resets and polls all hold the bus in turn. The slot and
//! the time of the last SOF are their common record: it moves when an SOF goes out, and
//! only then.

use crate::bus::Bus;
use crate::frame::{elapsed_spec, slot_spec};
use crate::io::{answers, Action, Event};
use crate::keepalive::Keepalive;
use crate::packet::frame_number_spec;
use crate::reset::{BusReset, PollDevice};
use crate::sof_switch::{EnableHwSof, SofSwitch};
use crate::transaction::Transaction;
use vstd::prelude::*;

verus! {

/// Whether two states of a bus have the same record of the last SOF.
pub open spec fn same_schedule(before: Bus, after: Bus) -> bool {
    before.last_sof == after.last_sof && before.sof_slot == after.sof_slot
}

/// Whether a step claims an SOF: it was due at the timer reading just taken, the record is
/// of that reading, and the SOF of that slot, with its frame number, is what goes out next.
pub open spec fn claims_sof(before: Bus, after: Bus, event: Event, asks: Action) -> bool {
    &&& event is Clock
    &&& before.sof_due(event->Clock_0)
    &&& after == before.sof_sent(event->Clock_0)
    &&& asks == (Action::TransmitSof {
        slot: slot_spec(event->Clock_0),
        frame: frame_number_spec(slot_spec(event->Clock_0)),
    })
}

/// A step keeps the record of the last SOF, or claims an SOF; and an SOF goes out only if
/// it has just been claimed.
pub open spec fn keeps_schedule(before: Bus, after: Bus, event: Event, asks: Action) -> bool {
    &&& same_schedule(before, after) || claims_sof(before, after, event, asks)
    &&& asks is TransmitSof ==> claims_sof(before, after, event, asks)
}

/// A transaction moves the SOF schedule exactly when it sends an SOF.
pub proof fn law_transaction_keeps_schedule(t: Transaction, bus: Bus, event: Event)
    requires
        answers(t.asks(), event),
    ensures
        keeps_schedule(bus, t.next_bus(bus, event), event, t.next(bus, event).asks()),
{
}

/// A keep-alive check moves the SOF schedule exactly when it sends an SOF.
pub proof fn law_keepalive_keeps_schedule(k: Keepalive, bus: Bus, event: Event)
    requires
        answers(k.asks(), event),
    ensures
        keeps_schedule(bus, k.next_bus(bus, event), event, k.next(bus, event).asks()),
{
}

/// Switching and enabling the hardware SOF leave the schedule of software SOFs alone.
pub proof fn law_switch_keeps_schedule(s: SofSwitch, e: EnableHwSof, bus: Bus, event: Event)
    requires
        answers(s.asks(), event),
    ensures
        same_schedule(bus, s.next_bus(bus, event)),
        same_schedule(bus, e.next_bus(bus, event)),
        !(s.next(bus, event).asks() is TransmitSof),
        !(e.next(bus, event).asks() is TransmitSof),
{
}

/// A reset moves the SOF schedule exactly when it sends an SOF, in its recovery frames.
pub proof fn law_reset_keeps_schedule(r: BusReset, bus: Bus, event: Event)
    requires
        answers(r.asks(), event),
    ensures
        keeps_schedule(bus, r.next_bus(bus, event), event, r.next(bus, event).asks()),
{
    match r.phase {
        crate::reset::Phase::Recovering { keepalive, .. } => {
            law_keepalive_keeps_schedule(keepalive, bus, event);
        },
        _ => {},
    }
}

/// A poll of the root port moves the SOF schedule exactly when it sends an SOF, in the
/// recovery of the reset it makes.
pub proof fn law_poll_keeps_schedule(p: PollDevice, bus: Bus, event: Event)
    requires
        answers(p.asks(), event),
    ensures
        keeps_schedule(bus, p.next_bus(bus, event), event, p.next(bus, event).asks()),
{
    match p.phase {
        crate::reset::PollPhase::Resetting { reset, .. } => {
            law_reset_keeps_schedule(reset, bus, event);
        },
        _ => {},
    }
}

/// Whatever happens on the bus between two SOFs, the second is in another slot than the
/// first and at least half a frame after it.
pub proof fn law_sofs_apart(first: Bus, at: u32, second: Bus, now: u32)
    requires
        same_schedule(first.sof_sent(at), second),
        second.sof_due(now),
    ensures
        slot_spec(now) != slot_spec(at),
        elapsed_spec(at, now) >= 500,
{
}

} // verus!
