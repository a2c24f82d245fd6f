//! Diagnostic counters for bus-level anomalies, read (and reset) by the application.

use crate::pid::{USB_PID_ACK, USB_PID_NAK, USB_PID_STALL};
use vstd::prelude::*;

verus! {

/// Anomaly that the counters tell apart.
#[derive(Clone, Copy, Debug, PartialEq, Eq)]
pub enum Anomaly {
    /// The transmitter did not raise its EOP interrupt within the wait timeout.
    TxEopTimeout,
    /// D+/D- were still driven shortly after a packet's EOP; the bus was released by
    /// force.
    TxBusHeld,
    /// Handshake after an OUT/SETUP: no reply at all.
    HsNoReply,
    /// Handshake after an OUT/SETUP: a one-byte (truncated) reply.
    HsShort,
    /// Handshake after an OUT/SETUP: STALL.
    HsStall,
    /// Handshake after an OUT/SETUP: a PID other than ACK, NAK or STALL.
    HsOther(u8),
}

/// Running counters.
#[derive(Clone, Copy, Debug, PartialEq, Eq)]
pub struct Tally {
    pub tx_eop_timeout: u32,
    pub tx_bus_held: u32,
    pub hs_no_reply: u32,
    pub hs_short: u32,
    pub hs_stall: u32,
    pub hs_other: u32,
    /// The last such PID byte.
    pub hs_other_last: u32,
}

/// Counter values since the previous [`take`].
#[derive(Clone, Copy, Debug, PartialEq, Eq)]
pub struct Counters {
    pub tx_eop_timeout: u32,
    pub tx_bus_held: u32,
    pub hs_no_reply: u32,
    pub hs_short: u32,
    pub hs_stall: u32,
    pub hs_other: u32,
    pub hs_other_last_pid: u8,
}

/// A counter after one more event; it wraps.
pub open spec fn counted(c: u32) -> u32 {
    if c == u32::MAX {
        0
    } else {
        (c + 1) as u32
    }
}

/// The anomaly that the reply to an OUT or SETUP shows, if any.
pub open spec fn handshake_anomaly_spec(reply: Seq<u8>) -> Option<Anomaly> {
    if reply.len() == 0 {
        Some(Anomaly::HsNoReply)
    } else if reply.len() == 1 {
        Some(Anomaly::HsShort)
    } else if reply[1] == USB_PID_STALL {
        Some(Anomaly::HsStall)
    } else if reply[1] == USB_PID_ACK || reply[1] == USB_PID_NAK {
        None
    } else {
        Some(Anomaly::HsOther(reply[1]))
    }
}

impl Tally {
    /// Counters as they stand after one more anomaly.
    pub open spec fn after(self, anomaly: Anomaly) -> Tally {
        match anomaly {
            Anomaly::TxEopTimeout => Tally {
                tx_eop_timeout: counted(self.tx_eop_timeout),
                ..self
            },
            Anomaly::TxBusHeld => Tally { tx_bus_held: counted(self.tx_bus_held), ..self },
            Anomaly::HsNoReply => Tally { hs_no_reply: counted(self.hs_no_reply), ..self },
            Anomaly::HsShort => Tally { hs_short: counted(self.hs_short), ..self },
            Anomaly::HsStall => Tally { hs_stall: counted(self.hs_stall), ..self },
            Anomaly::HsOther(pid) => Tally {
                hs_other: counted(self.hs_other),
                hs_other_last: pid as u32,
                ..self
            },
        }
    }

    /// All counters at zero.
    pub fn new() -> (t: Self)
        ensures
            t == (Tally {
                tx_eop_timeout: 0,
                tx_bus_held: 0,
                hs_no_reply: 0,
                hs_short: 0,
                hs_stall: 0,
                hs_other: 0,
                hs_other_last: 0,
            }),
    {
        Tally {
            tx_eop_timeout: 0,
            tx_bus_held: 0,
            hs_no_reply: 0,
            hs_short: 0,
            hs_stall: 0,
            hs_other: 0,
            hs_other_last: 0,
        }
    }

    /// Count one anomaly.
    pub fn record(&mut self, anomaly: Anomaly)
        ensures
            *final(self) == old(self).after(anomaly),
    {
        match anomaly {
            Anomaly::TxEopTimeout => count(&mut self.tx_eop_timeout),
            Anomaly::TxBusHeld => count(&mut self.tx_bus_held),
            Anomaly::HsNoReply => count(&mut self.hs_no_reply),
            Anomaly::HsShort => count(&mut self.hs_short),
            Anomaly::HsStall => count(&mut self.hs_stall),
            Anomaly::HsOther(pid) => {
                count(&mut self.hs_other);
                self.hs_other_last = pid as u32;
            },
        }
    }
}

/// The counters after a sequence of anomalies.
pub open spec fn after_all(tally: Tally, anomalies: Seq<Anomaly>) -> Tally
    decreases anomalies.len(),
{
    if anomalies.len() == 0 {
        tally
    } else {
        after_all(tally, anomalies.drop_last()).after(anomalies.last())
    }
}

/// How many of a sequence of anomalies satisfy a predicate.
pub open spec fn occurrences(anomalies: Seq<Anomaly>, of: spec_fn(Anomaly) -> bool) -> nat
    decreases anomalies.len(),
{
    if anomalies.len() == 0 {
        0
    } else {
        occurrences(anomalies.drop_last(), of) + (if of(anomalies.last()) {
            1nat
        } else {
            0nat
        })
    }
}

/// From counters at zero, as [`take`] leaves them, each counter is the number of
/// anomalies of its kind recorded since, modulo its 32 bits.
pub proof fn law_counters_since_take(start: Tally, anomalies: Seq<Anomaly>)
    requires
        start.tx_eop_timeout == 0,
        start.tx_bus_held == 0,
        start.hs_no_reply == 0,
        start.hs_short == 0,
        start.hs_stall == 0,
        start.hs_other == 0,
    ensures
        ({
            let t = after_all(start, anomalies);
            &&& t.tx_eop_timeout == occurrences(anomalies, |a: Anomaly| a is TxEopTimeout)
                % 0x1_0000_0000
            &&& t.tx_bus_held == occurrences(anomalies, |a: Anomaly| a is TxBusHeld)
                % 0x1_0000_0000
            &&& t.hs_no_reply == occurrences(anomalies, |a: Anomaly| a is HsNoReply)
                % 0x1_0000_0000
            &&& t.hs_short == occurrences(anomalies, |a: Anomaly| a is HsShort) % 0x1_0000_0000
            &&& t.hs_stall == occurrences(anomalies, |a: Anomaly| a is HsStall) % 0x1_0000_0000
            &&& t.hs_other == occurrences(anomalies, |a: Anomaly| a is HsOther) % 0x1_0000_0000
        }),
    decreases anomalies.len(),
{
    if anomalies.len() > 0 {
        law_counters_since_take(start, anomalies.drop_last());
    }
}

impl Counters {
    /// The number of anomalies counted, all kinds together.
    pub open spec fn total(self) -> int {
        self.tx_eop_timeout + self.tx_bus_held + self.hs_no_reply + self.hs_short + self.hs_stall
            + self.hs_other
    }

    /// No anomaly counted.
    pub fn is_clean(&self) -> (clean: bool)
        ensures
            clean <==> self.total() == 0,
            clean <==> (self.tx_eop_timeout == 0 && self.tx_bus_held == 0 && self.hs_no_reply == 0
                && self.hs_short == 0 && self.hs_stall == 0 && self.hs_other == 0),
    {
        self.tx_eop_timeout == 0 && self.tx_bus_held == 0 && self.hs_no_reply == 0 && self.hs_short
            == 0 && self.hs_stall == 0 && self.hs_other == 0
    }
}

impl Default for Counters {
    fn default() -> (c: Self)
        ensures
            c == (Counters {
                tx_eop_timeout: 0,
                tx_bus_held: 0,
                hs_no_reply: 0,
                hs_short: 0,
                hs_stall: 0,
                hs_other: 0,
                hs_other_last_pid: 0,
            }),
    {
        Counters {
            tx_eop_timeout: 0,
            tx_bus_held: 0,
            hs_no_reply: 0,
            hs_short: 0,
            hs_stall: 0,
            hs_other: 0,
            hs_other_last_pid: 0,
        }
    }
}

/// Count one event; the counter wraps.
pub fn count(c: &mut u32)
    ensures
        *final(c) == counted(*old(c)),
{
    *c = c.wrapping_add(1);
}

/// Anomaly shown by the reply to an OUT or SETUP.
pub fn handshake_anomaly(reply: &[u8]) -> (anomaly: Option<Anomaly>)
    ensures
        anomaly == handshake_anomaly_spec(reply@),
{
    if reply.len() == 0 {
        return Some(Anomaly::HsNoReply);
    }
    if reply.len() == 1 {
        return Some(Anomaly::HsShort);
    }
    let pid: u8 = reply[1];
    if pid == USB_PID_STALL {
        Some(Anomaly::HsStall)
    } else if pid == USB_PID_ACK || pid == USB_PID_NAK {
        None
    } else {
        Some(Anomaly::HsOther(pid))
    }
}

/// Whether values read and counters left behind add up to the counters before, counter by
/// counter, with nothing left but the last unexpected PID.
pub open spec fn taken(before: Tally, counters: Counters, after: Tally) -> bool {
    &&& counters.tx_eop_timeout + after.tx_eop_timeout == before.tx_eop_timeout
    &&& counters.tx_bus_held + after.tx_bus_held == before.tx_bus_held
    &&& counters.hs_no_reply + after.hs_no_reply == before.hs_no_reply
    &&& counters.hs_short + after.hs_short == before.hs_short
    &&& counters.hs_stall + after.hs_stall == before.hs_stall
    &&& counters.hs_other + after.hs_other == before.hs_other
    &&& after.tx_eop_timeout + after.tx_bus_held + after.hs_no_reply + after.hs_short
        + after.hs_stall + after.hs_other == 0
    &&& after.hs_other_last == before.hs_other_last
    &&& before.hs_other_last < 256 ==> counters.hs_other_last_pid == before.hs_other_last
}

/// Read and reset the counters. The last unexpected PID is not a counter and stays.
pub fn take(tally: &mut Tally) -> (counters: Counters)
    ensures
        taken(*old(tally), counters, *final(tally)),
        counters == (Counters {
            tx_eop_timeout: old(tally).tx_eop_timeout,
            tx_bus_held: old(tally).tx_bus_held,
            hs_no_reply: old(tally).hs_no_reply,
            hs_short: old(tally).hs_short,
            hs_stall: old(tally).hs_stall,
            hs_other: old(tally).hs_other,
            hs_other_last_pid: (old(tally).hs_other_last % 256) as u8,
        }),
        *final(tally) == (Tally {
            tx_eop_timeout: 0,
            tx_bus_held: 0,
            hs_no_reply: 0,
            hs_short: 0,
            hs_stall: 0,
            hs_other: 0,
            hs_other_last: old(tally).hs_other_last,
        }),
{
    let last: u32 = tally.hs_other_last;
    assert(last as u8 == last % 256) by (bit_vector);
    let counters = Counters {
        tx_eop_timeout: tally.tx_eop_timeout,
        tx_bus_held: tally.tx_bus_held,
        hs_no_reply: tally.hs_no_reply,
        hs_short: tally.hs_short,
        hs_stall: tally.hs_stall,
        hs_other: tally.hs_other,
        hs_other_last_pid: last as u8,
    };
    tally.tx_eop_timeout = 0;
    tally.tx_bus_held = 0;
    tally.hs_no_reply = 0;
    tally.hs_short = 0;
    tally.hs_stall = 0;
    tally.hs_other = 0;
    counters
}

} // verus!
