//! What the root port does, in terms of line levels, timer readings, counter words and
//! reply bytes.

use crate::bus::{
    absent_after, adjacent_spec, debounced, line_speed, Bus, DeviceEvent, Speed,
};
use crate::hw_sof::{clock_usable, divides_frame, is_divider, HwSof};
use crate::io::{answers, Action, Event};
use crate::keepalive::{self, Keepalive};
use crate::reset::{self, BusReset, PollDevice, PollPhase};
use crate::settle::Settle;
use crate::sof_switch::{EnableHwSof, EnablePhase, SofSwitch};
use crate::transaction::{guard_phase, Phase, Transaction};
use crate::wire_laws::{has_data_pid, law_follow_up_by_bytes, pid_byte};
use vstd::prelude::*;

verus! {

/// Microseconds from one reading of the timer to another, modulo its 32 bits.
pub open spec fn age(since: u32, now: u32) -> int {
    (now - since) % 0x1_0000_0000
}

/// Whether the SOF of a reading's slot is due on a full-speed bus: not the slot of the last
/// SOF, and at least half a frame after it.
pub open spec fn sof_owed(bus: Bus, now: u32) -> bool {
    &&& bus.attached
    &&& bus.speed is Full
    &&& (now as int) / 1000 != bus.sof_slot
    &&& age(bus.last_sof, now) >= 500
}

/// Whether hardware SOFs are running on a bus.
pub open spec fn hw_running(bus: Bus) -> bool {
    bus.hw_sof is Some && bus.hw_sof->0.armed
}

/// Whether a counter word lies from `from` up to, and without, `to` microseconds into the
/// frame.
pub open spec fn counter_within(hw: HwSof, word: u32, from: int, to: int) -> bool {
    from * hw.counts <= (word as int % 65536) * 1000 < to * hw.counts
}

/// The slot whose SOF the hardware has to be given at a counter word and a reading: the next
/// one, if the current SOF is out, the boundary is not close, and it does not have it yet.
pub open spec fn prepare_owed(hw: HwSof, word: u32, now: u32) -> bool {
    &&& hw.armed
    &&& counter_within(hw, word, 8, 970)
    &&& hw.prepared_slot != Some(((now as int) / 1000 + 1) as u32)
}

proof fn lemma_floor(x: int, d: int, from: int, to: int)
    requires
        d > 0,
        x >= 0,
    ensures
        from <= x / d <==> from * d <= x,
        x / d < to <==> x < to * d,
        (x / d) * d <= x < (x / d + 1) * d,
{
    assert((x / d) * d <= x < (x / d + 1) * d) by (nonlinear_arith)
        requires
            d > 0,
    ;
    assert(from <= x / d ==> from * d <= (x / d) * d) by (nonlinear_arith)
        requires
            d > 0,
    ;
    assert(from > x / d ==> from * d >= (x / d + 1) * d) by (nonlinear_arith)
        requires
            d > 0,
    ;
    assert(x / d < to ==> (x / d + 1) * d <= to * d) by (nonlinear_arith)
        requires
            d > 0,
    ;
    assert(x / d >= to ==> (x / d) * d >= to * d) by (nonlinear_arith)
        requires
            d > 0,
    ;
}

proof fn lemma_low_half(word: u32)
    ensures
        word & 0xffff == word % 65536,
{
    assert(word & 0xffff == word % 65536) by (bit_vector);
}

/// The position in the frame is the counter's share of its period, in thousandths, rounded
/// down; tokens may start from the 8th microsecond and until 80 are left; the next SOF is
/// prepared from the 8th microsecond and until 30 are left, once per slot.
pub proof fn law_hw_frame_windows(hw: HwSof, word: u32, now: u32)
    requires
        hw.wf(),
    ensures
        hw.position_at(word) * hw.counts <= (word as int % 65536) * 1000 < (hw.position_at(word)
            + 1) * hw.counts,
        hw.clear_of_sof(word) <==> counter_within(hw, word, 8, 921),
        hw.service_due(word, now) == (if prepare_owed(hw, word, now) {
            Some(((now as int) / 1000 + 1) as u32)
        } else {
            None
        }),
        hw.serviced(word, now).prepared_slot == (if prepare_owed(hw, word, now) {
            Some(((now as int) / 1000 + 1) as u32)
        } else {
            hw.prepared_slot
        }),
        hw.serviced(word, now) == (HwSof {
            prepared_slot: hw.serviced(word, now).prepared_slot,
            ..hw
        }),
{
    lemma_low_half(word);
    let x = (word as int % 65536) * 1000;
    lemma_floor(x, hw.counts as int, 8, 921);
    lemma_floor(x, hw.counts as int, 8, 970);
}

/// The PWM words: the slice stopped, the divider whole, the counter wrapping after `counts`.
/// With it the counter fits its 16 bits and divides the system clock down to exactly 1000
/// wraps a second.
pub proof fn law_pwm_words(hw: HwSof, clk_sys: u32, div: u32)
    requires
        hw.wf(),
        is_divider(clk_sys, div),
        hw.counts == (clk_sys / 1000) / div,
    ensures
        hw.pwm_words(div).slice == hw.slice,
        hw.pwm_words(div).csr == 0,
        hw.pwm_words(div).div / 16 == div && hw.pwm_words(div).div % 16 == 0,
        hw.pwm_words(div).top + 1 == hw.counts,
        hw.counts * div * 1000 == clk_sys,
        1 <= div <= 255,
        clock_usable(clk_sys),
{
    crate::hw_sof::law_period_is_one_frame(clk_sys, div);
}

/// No smaller divider would do.
pub proof fn law_divider_is_smallest(clk_sys: u32, div: u32, d: u32, counts: u32)
    requires
        is_divider(clk_sys, div),
        1 <= d < div,
        1 <= counts <= 65536,
    ensures
        counts * d * 1000 != clk_sys,
{
    if counts * d * 1000 == clk_sys {
        law_usable_clocks(clk_sys, d, counts);
    }
}

/// A clock is usable if it is a whole multiple of 1 kHz that a divider up to 255 brings
/// within 65536 counts.
pub proof fn law_usable_clocks(clk_sys: u32, div: u32, counts: u32)
    requires
        1 <= div <= 255,
        1 <= counts <= 65536,
        counts * div * 1000 == clk_sys,
    ensures
        clock_usable(clk_sys),
        divides_frame(clk_sys, div),
{
    let per = clk_sys / 1000;
    assert(per == counts * div && clk_sys % 1000 == 0) by (nonlinear_arith)
        requires
            counts * div * 1000 == clk_sys,
            per == clk_sys / 1000,
    ;
    let (ci, di) = (counts as int, div as int);
    assert((ci * di) % di == 0 && (ci * di) / di == ci) by (nonlinear_arith)
        requires
            di >= 1,
    ;
    assert(divides_frame(clk_sys, div));
}

/// The DMA words, field by field: enabled, word-sized, no increments, chained to itself,
/// paced by the wrap of the slice (request 0x20 and up), without interrupts, endless.
pub proof fn law_dma_words(hw: HwSof)
    requires
        hw.wf(),
    ensures
        ({
            let dma = hw.dma_words();
            &&& dma.dma_ch == hw.dma_ch
            &&& dma.ctrl & 1 == 1
            &&& (dma.ctrl >> 2) & 3 == 2
            &&& (dma.ctrl >> 4) & 1 == 0
            &&& (dma.ctrl >> 6) & 1 == 0
            &&& (dma.ctrl >> 13) & 15 == hw.dma_ch
            &&& (dma.ctrl >> 17) & 63 == 0x20 + hw.slice
            &&& (dma.ctrl >> 23) & 1 == 1
            &&& dma.trans_count >> 28 == 15
            &&& dma.trans_count & 0x0fff_ffff == 1
        }),
{
    let c: u32 = hw.dma_ch as u32;
    let d: u32 = (0x20 + hw.slice) as u32;
    let ctrl: u32 = hw.dma_words().ctrl;
    let count: u32 = hw.dma_words().trans_count;
    assert(ctrl == 0x0080_0009 + c * 0x2000 + d * 0x2_0000);
    assert(ctrl & 1 == 1 && (ctrl >> 2) & 3 == 2 && (ctrl >> 4) & 1 == 0 && (ctrl >> 6) & 1 == 0
        && (ctrl >> 13) & 15 == c && (ctrl >> 17) & 63 == d && (ctrl >> 23) & 1 == 1)
        by (bit_vector)
        requires
            ctrl == 0x0080_0009 + c * 0x2000 + d * 0x2_0000,
            c < 16,
            d < 0x2c,
    ;
    assert(count >> 28 == 15 && count & 0x0fff_ffff == 1) by (bit_vector)
        requires
            count == 0xf000_0001u32,
    ;
}

/// The abort word has the bit of the channel and no other.
pub proof fn law_abort_bit(hw: HwSof, channel: u32)
    requires
        hw.wf(),
        channel < 32,
    ensures
        (hw.abort_bit() >> channel) & 1 == (if channel == hw.dma_ch {
            1u32
        } else {
            0u32
        }),
{
    let ch: u32 = hw.dma_ch as u32;
    assert(((1u32 << ch) >> channel) & 1 == (if channel == ch {
        1u32
    } else {
        0u32
    })) by (bit_vector)
        requires
            ch < 16,
            channel < 32,
    ;
}

/// A new port has no device, no trace of one, and no hardware SOF; its record is of the
/// reading it was made at, so that no SOF and no keep-alive is due, and it stands ready for
/// hardware SOFs if the chip has them.
pub proof fn law_new_port(sof_sm: bool, now: u32)
    ensures
        ({
            let bus = Bus::untouched(sof_sm, now);
            &&& bus.wf()
            &&& !bus.attached && bus.debounce == 0 && bus.absent == 0
            &&& bus.hw_sof is None && bus.sof_sm == sof_sm
            &&& age(bus.last_activity, now) == 0 && age(bus.last_sof, now) == 0
            &&& bus.sof_slot * 1000 <= now < bus.sof_slot * 1000 + 1000
            &&& bus.speed is Full
        }),
{
}

/// D+ and D- are adjacent exactly if their numbers are one apart.
pub proof fn law_adjacent_pins(dp: u8, dm: u8)
    ensures
        adjacent_spec(dp, dm) <==> dp - dm == 1 || dp - dm == -1,
        adjacent_spec(dp, dm) == adjacent_spec(dm, dp),
{
}

/// The inputs are inverted: a line pulled high reads low. D+ high alone is a full-speed
/// device, D- high alone a low-speed one, anything else none.
pub proof fn law_line_levels(dp: bool, dm: bool)
    ensures
        line_speed(dp, dm) == Some(Speed::Full) <==> !dp && dm,
        line_speed(dp, dm) == Some(Speed::Low) <==> dp && !dm,
        line_speed(dp, dm) is None <==> dp == dm,
{
}

/// One sample of the line, by its levels: the accumulator counts up to 60 with a device and
/// down to 0 without; a device is reported on a detached bus once the accumulator holds 15;
/// its loss on an attached bus once the accumulator is empty and 60 samples have missed it.
/// A report switches the hardware SOF off, and nothing else of the bus changes.
pub proof fn law_poll_by_levels(bus: Bus, dp: bool, dm: bool)
    requires
        bus.wf(),
    ensures
        ({
            let device = dp != dm;
            let after = bus.polled(dp, dm);
            let event = bus.poll_event(dp, dm);
            let speed = if dm {
                Speed::Full
            } else {
                Speed::Low
            };
            let attaches = !bus.attached && device && bus.debounce >= 14;
            let detaches = bus.attached && !device && bus.debounce <= 1 && bus.absent >= 59;
            &&& event == (if attaches {
                Some(DeviceEvent::Connected(speed))
            } else if detaches {
                Some(DeviceEvent::Disconnected)
            } else {
                None
            })
            &&& device ==> after.debounce == (if bus.debounce == 60 {
                60int
            } else {
                bus.debounce + 1
            })
            &&& !device ==> after.debounce == (if bus.debounce == 0 {
                0int
            } else {
                bus.debounce - 1
            })
            &&& after.absent == (if !bus.attached || detaches {
                0int
            } else if device || bus.absent == 60 {
                bus.absent as int
            } else {
                bus.absent + 1
            })
            &&& after.attached == (if attaches {
                true
            } else if detaches {
                false
            } else {
                bus.attached
            })
            &&& after.speed == (if attaches {
                speed
            } else {
                bus.speed
            })
            &&& attaches || detaches ==> !hw_running(after)
            &&& !(attaches || detaches) ==> after.hw_sof == bus.hw_sof
            &&& after.last_activity == bus.last_activity && after.last_sof == bus.last_sof
                && after.sof_slot == bus.sof_slot && after.sof_sm == bus.sof_sm
        }),
        0 <= debounced(bus.debounce, dp != dm) <= 60,
        0 <= absent_after(bus.absent, bus.attached, dp != dm) <= 60,
{
}

/// An SOF check on a bus, by timer readings: the SOF of a slot is due once, on an attached
/// full-speed device, and not within half a frame of the one before. Sending it records slot
/// and time, and counts as activity.
pub proof fn law_sof_check_by_readings(bus: Bus, now: u32)
    ensures
        bus.sof_due(now) <==> sof_owed(bus, now),
        bus.sof_checked(now) == (if sof_owed(bus, now) {
            Bus {
                sof_slot: ((now as int) / 1000) as u32,
                last_sof: now,
                last_activity: now,
                ..bus
            }
        } else {
            bus
        }),
        bus.stamped(now) == (Bus { last_activity: now, ..bus }),
        bus.full_speed() <==> bus.attached && bus.speed is Full,
        bus.hw_active() <==> hw_running(bus),
        bus.keepalive_due(now) <==> age(bus.last_activity, now) >= 1000,
{
}

/// How many low-speed keep-alives a check has sent.
pub open spec fn keepalives_sent(bus: Bus, events: Seq<Event>) -> nat
    decreases events.len(),
{
    if events.len() == 0 {
        0
    } else {
        let asked = keepalive::after(Keepalive::begun(bus), bus, events.drop_last()).0.asks();
        keepalives_sent(bus, events.drop_last()) + (if asked is TransmitKeepalive {
            1nat
        } else {
            0nat
        })
    }
}

proof fn lemma_keepalives_sent(bus: Bus, events: Seq<Event>)
    requires
        keepalive::is_run(Keepalive::begun(bus), bus, events),
        bus.attached,
        bus.speed is Low,
    ensures
        ({
            let (k, b) = keepalive::after(Keepalive::begun(bus), bus, events);
            let n = events.len();
            let old = n > 0 && age(bus.last_activity, events[0]->Clock_0) >= 1000;
            &&& n > 0 ==> events[0] is Clock
            &&& keepalives_sent(bus, events) == (if old && n >= 3 {
                1nat
            } else {
                0nat
            })
            &&& n == 0 ==> k.phase is LsCheck && b == bus
            &&& n == 1 ==> b == bus && (if old {
                k.phase is LsStamp
            } else {
                k.phase is LsPosition
            })
            &&& n == 2 ==> (if old {
                k.phase is LsSending && events[1] is Clock && b == (Bus {
                    last_activity: events[1]->Clock_0,
                    ..bus
                })
            } else {
                k.phase is Finished && b == bus && events[1] is Clock
            })
            &&& n == 3 ==> old && k.phase is LsSent && b == (Bus {
                last_activity: b.last_activity,
                ..bus
            })
            &&& n == 4 ==> old && k.phase is LsPosition && events[3] is Clock && b == (Bus {
                last_activity: events[3]->Clock_0,
                ..bus
            })
            &&& n == 5 ==> old && k.phase is Finished && events[3] is Clock && events[4] is Clock
                && b == (Bus { last_activity: events[3]->Clock_0, ..bus })
            &&& k.phase matches keepalive::Phase::Finished { next_us } ==> {
                let end = events.last()->Clock_0;
                let quiet = age(b.last_activity, end);
                next_us == (if quiet < 1000 {
                    1000 - quiet
                } else {
                    0
                })
            }
            &&& n <= 5
        }),
    decreases events.len(),
{
    if events.len() > 0 {
        let before = events.drop_last();
        lemma_keepalives_sent(bus, before);
        assert(forall|i: int| 0 <= i < before.len() ==> before[i] == events[i]);
        assert(events.last() == events[events.len() - 1]);
        keepalive::law_check_is_bounded(bus, events);
    }
}

/// A low-speed bus gets a keep-alive exactly if it has been quiet for 1000 us or more at the
/// first reading of the check, and then exactly one; it is stamped with a reading taken
/// after it. The next check is due when the bus will have been quiet for 1000 us.
pub proof fn law_low_speed_keepalive_after_a_frame(bus: Bus, events: Seq<Event>)
    requires
        keepalive::is_run(Keepalive::begun(bus), bus, events),
        bus.attached,
        bus.speed is Low,
        keepalive::after(Keepalive::begun(bus), bus, events).0.phase is Finished,
    ensures
        events.len() > 0,
        events[0] is Clock,
        events.last() is Clock,
        ({
            let (k, after) = keepalive::after(Keepalive::begun(bus), bus, events);
            let quiet = age(bus.last_activity, events[0]->Clock_0);
            let end = age(after.last_activity, events.last()->Clock_0);
            &&& keepalives_sent(bus, events) == (if quiet >= 1000 {
                1nat
            } else {
                0nat
            })
            &&& quiet < 1000 ==> after == bus
            &&& quiet >= 1000 ==> events.len() == 5 && events[3] is Clock && after == (Bus {
                last_activity: events[3]->Clock_0,
                ..bus
            })
            &&& k.phase->next_us == (if end < 1000 {
                1000 - end
            } else {
                0
            })
        }),
{
    lemma_keepalives_sent(bus, events);
}

/// A keep-alive check of a full-speed bus with software SOFs: whatever the two readings are,
/// the SOF of the first one's slot goes out exactly if it is due, with the slot's low 11 bits
/// as its frame number, and the next check is at the end of the slot of the last one.
pub proof fn law_software_sof_check(bus: Bus, now: u32, end: u32)
    requires
        bus.attached,
        bus.speed is Full,
        !hw_running(bus),
    ensures
        ({
            let k = Keepalive::begun(bus);
            let k1 = k.next(bus, Event::Clock(now));
            let b1 = k.next_bus(bus, Event::Clock(now));
            let slot = (now as int) / 1000;
            &&& k.asks() is ReadClock
            &&& k1.asks() == (if sof_owed(bus, now) {
                Action::TransmitSof { slot: slot as u32, frame: (slot % 2048) as u16 }
            } else {
                Action::ReadClock
            })
            &&& b1 == bus.sof_checked(now)
            &&& {
                let k2 = if sof_owed(bus, now) {
                    k1.next(b1, Event::Done)
                } else {
                    k1
                };
                let k3 = k2.next(b1, Event::Clock(end));
                &&& k2.asks() is ReadClock
                &&& k3.asks() is Finished
                &&& (end + k3.phase->next_us) % 1000 == 0
                &&& 1 <= k3.phase->next_us <= 1000
            }
        }),
{
}

/// A keep-alive check of a bus with hardware SOFs prepares the SOF of the next slot exactly
/// if that is owed, and the next check is at the end of the frame that the counter shows.
pub proof fn law_hardware_sof_check(bus: Bus, counter: u32, now: u32, end: u32)
    requires
        bus.wf(),
        bus.attached,
        bus.speed is Full,
        hw_running(bus),
        bus.hw_sof->0.counter_valid(end),
    ensures
        ({
            let hw = bus.hw_sof->0;
            let k = Keepalive::begun(bus);
            let event = Event::HwTime { counter, now };
            let k1 = k.next(bus, event);
            let b1 = k.next_bus(bus, event);
            let next = (now as int) / 1000 + 1;
            let owed = prepare_owed(hw, counter, now);
            &&& k.asks() is ReadHwTime
            &&& k1.asks() == (if owed {
                Action::PrepareSof { frame: (next % 2048) as u16 }
            } else {
                Action::ReadCounter
            })
            &&& b1 == (Bus {
                hw_sof: Some(
                    HwSof {
                        prepared_slot: if owed {
                            Some(next as u32)
                        } else {
                            hw.prepared_slot
                        },
                        ..hw
                    },
                ),
                ..bus
            })
            &&& {
                let k2 = if owed {
                    k1.next(b1, Event::Done)
                } else {
                    k1
                };
                let k3 = k2.next(b1, Event::Counter(end));
                let gone = 1000 - k3.phase->next_us;
                &&& k2.asks() is ReadCounter
                &&& k3.asks() is Finished
                &&& gone * hw.counts <= (end as int % 65536) * 1000 < (gone + 1) * hw.counts
            }
        }),
{
    let hw = bus.hw_sof->0;
    law_hw_frame_windows(hw, counter, now);
    law_hw_frame_windows(hw, end, now);
    lemma_low_half(end);
    let x = (end as int % 65536) * 1000;
    lemma_floor(x, hw.counts as int, 0, 1000);
}

/// An empty port, and one at a speed the transport does not support, get nothing: the next
/// check is a frame later.
pub proof fn law_nothing_to_keep_alive(bus: Bus)
    requires
        !bus.attached || bus.speed is High,
    ensures
        Keepalive::begun(bus).asks() is Finished,
        Keepalive::begun(bus).phase->next_us == 1000,
{
}

/// How a transaction begins: with hardware SOFs it looks at the frame counter, with software
/// SOFs on a full-speed bus at the timer, otherwise it sends at once. An interrupt or bulk
/// poll stamps the bus first.
pub proof fn law_transaction_begins(t: Transaction, bus: Bus, now: u32)
    ensures
        ({
            let entered = t.at(guard_phase(bus));
            &&& hw_running(bus) ==> entered.asks() is ReadCounter
            &&& !hw_running(bus) && bus.attached && bus.speed is Full ==> entered.phase is Guard
                && entered.asks() is ReadClock
            &&& !hw_running(bus) && !(bus.attached && bus.speed is Full) ==> entered.asks() == (
            Action::Transmit { token: t.token, data: t.data })
            &&& t.phase is Stamp ==> t.asks() is ReadClock && t.next(bus, Event::Clock(now))
                == entered && t.next_bus(bus, Event::Clock(now)) == (Bus {
                last_activity: now,
                ..bus
            })
        }),
{
}

/// The software frame guard: with less than 80 us of the frame left a transaction waits for
/// the next slot; then, or else at once, the SOF of the slot is sent if it is due, and the
/// token.
pub proof fn law_software_guard(t: Transaction, bus: Bus, now: u32)
    ensures
        ({
            let slot = (now as int) / 1000;
            let t1 = t.next(bus, Event::Clock(now));
            &&& t.phase is Guard ==> if (slot + 1) * 1000 - now < 80 {
                t1.phase is NextFrame && t1.phase->NextFrame_slot == slot
            } else {
                t1.phase is Sof
            }
            &&& t.phase is NextFrame ==> if slot == t.phase->NextFrame_slot {
                t1 == t
            } else {
                t1.phase is Sof
            }
            &&& t.phase is Guard || t.phase is NextFrame ==> t.next_bus(bus, Event::Clock(now))
                == bus && t.asks() is ReadClock
            &&& t.phase is Sof ==> {
                &&& t.asks() is ReadClock
                &&& t1.asks() == (if sof_owed(bus, now) {
                    Action::TransmitSof { slot: slot as u32, frame: (slot % 2048) as u16 }
                } else {
                    Action::Transmit { token: t.token, data: t.data }
                })
                &&& t.next_bus(bus, Event::Clock(now)) == bus.sof_checked(now)
            }
            &&& t.phase is SofSending ==> t.next(bus, Event::Done).asks() == (Action::Transmit {
                token: t.token,
                data: t.data,
            })
        }),
{
}

/// The hardware frame guard: a transaction waits for a counter that shows the SOF of the
/// frame out and 80 us left, then has the next SOF prepared if that is owed, and sends the
/// token.
pub proof fn law_hardware_guard(t: Transaction, bus: Bus, counter: u32, now: u32)
    requires
        bus.wf(),
        bus.hw_sof is Some,
    ensures
        ({
            let hw = bus.hw_sof->0;
            let next = (now as int) / 1000 + 1;
            let looked = t.next(bus, Event::Counter(counter));
            let event = Event::HwTime { counter, now };
            let token = Action::Transmit { token: t.token, data: t.data };
            &&& t.phase is HwGuard ==> if counter_within(hw, counter, 8, 921) {
                looked.phase is HwService && looked.asks() is ReadHwTime
            } else {
                looked == t
            }
            &&& t.phase is HwService ==> t.next(bus, event).asks() == (if prepare_owed(
                hw,
                counter,
                now,
            ) {
                Action::PrepareSof { frame: (next % 2048) as u16 }
            } else {
                token
            })
            &&& t.phase is HwService ==> t.next_bus(bus, event).hw_sof == Some(
                HwSof {
                    prepared_slot: if prepare_owed(hw, counter, now) {
                        Some(next as u32)
                    } else {
                        hw.prepared_slot
                    },
                    ..hw
                },
            )
            &&& t.phase is Preparing ==> t.next(bus, Event::Done).asks() == token
        }),
{
    law_hw_frame_windows(bus.hw_sof->0, counter, now);
}

/// What a transaction leaves alone: only a timer reading or the pair of counter and timer
/// changes the bus, only at the steps that stamp, check or serve the SOF, and then only
/// the record of activity and SOFs.
pub proof fn law_transaction_changes_little(t: Transaction, bus: Bus, event: Event)
    requires
        answers(t.asks(), event),
    ensures
        ({
            let after = t.next_bus(bus, event);
            let stamps = t.phase is Stamp || t.phase is ReplyStamp || t.phase is SettleStamp;
            &&& !stamps && !(t.phase is Sof) && !(t.phase is HwService) ==> after == bus
            &&& stamps ==> after == (Bus { last_activity: event->Clock_0, ..bus })
            &&& t.phase is Sof ==> after == bus.sof_checked(event->Clock_0)
            &&& t.phase is HwService ==> after == (Bus { hw_sof: after.hw_sof, ..bus })
            &&& t.next(bus, event).token == t.token
            &&& t.next(bus, event).data == t.data
            &&& t.next(bus, event).capacity == t.capacity
        }),
{
}

/// What a keep-alive check leaves alone: the bus changes with an SOF, a preparation or a
/// low-speed keep-alive, and with nothing else.
pub proof fn law_keepalive_changes_little(k: Keepalive, bus: Bus, event: Event)
    requires
        answers(k.asks(), event),
    ensures
        ({
            let after = k.next_bus(bus, event);
            let stamps = k.phase is LsStamp || k.phase is LsSent;
            &&& !stamps && !(k.phase is Sof) && !(k.phase is HwService) ==> after == bus
            &&& stamps ==> after == (Bus { last_activity: event->Clock_0, ..bus })
            &&& k.phase is Sof ==> after == bus.sof_checked(event->Clock_0)
            &&& k.phase is HwService ==> after == (Bus { hw_sof: after.hw_sof, ..bus })
        }),
{
}

/// What follows the token, by the bytes of the reply: reception, with an ACK staged where
/// the device answers with data; the ACK exactly if a data packet arrived whole; a stamp;
/// and then, at once, the end, unless an ACK has to leave or the line has to settle.
pub proof fn law_after_the_token(t: Transaction, bus: Bus, event: Event, now: u32)
    requires
        event is Received,
    ensures
        t.phase is Sending ==> t.asks() == (Action::Transmit { token: t.token, data: t.data })
            && t.next(bus, Event::Done).asks() == (Action::Receive {
            capacity: t.capacity,
            stage_ack: t.data is None,
        }),
        t.phase is Receiving ==> ({
            let packet = event->packet@;
            let whole = event->status is ValidData;
            let pid = pid_byte(packet);
            let got = t.next(bus, event);
            let acks = t.data is None && whole;
            let ready = if acks {
                got.next(bus, Event::Done)
            } else {
                got
            };
            let done = ready.next(bus, Event::Clock(now));
            let polite = pid == Some(0x5au8) || pid == Some(0x1eu8) || (t.data is Some && pid
                == Some(0xd2u8));
            let too_long = t.data is None && event->status is Overflow;
            &&& acks ==> got.asks() is StartAck
            &&& !acks ==> got.asks() is ReadClock
            &&& ready.asks() is ReadClock
            &&& ready.next_bus(bus, Event::Clock(now)) == (Bus { last_activity: now, ..bus })
            &&& done.asks() is AwaitTx <==> acks && has_data_pid(packet)
            &&& done.asks() is Finished <==> !too_long && (packet.len() == 0 || polite)
            &&& !(done.asks() is AwaitTx) && !(done.asks() is Finished) ==> done.phase
                is SettleStart && done.asks() is ReadClock
        }),
        t.phase is Draining ==> t.next(bus, Event::Done).asks() is Finished,
{
    law_follow_up_by_bytes(event->packet@, event->status);
}

/// Settling, by the levels of the line: the wait ends once the line has shown the idle state
/// of its speed for 2 us, or after 100 us; a sample without it starts the 2 us again. The
/// end stamps the bus.
pub proof fn law_settling_by_levels(t: Transaction, bus: Bus, now: u32, dp: bool, dm: bool)
    ensures
        t.phase is SettleStart ==> t.next(bus, Event::Clock(now)).asks() is SampleLine && t.next(
            bus,
            Event::Clock(now),
        ).phase->settle == (Settle { start: now, idle_since: now }),
        t.phase is Settling ==> ({
            let settle = t.phase->settle;
            let t1 = t.next(bus, Event::Line { now, dp, dm });
            let idle = (bus.speed is Full && !dp && dm) || (bus.speed is Low && dp && !dm);
            let over = (idle && age(settle.idle_since, now) >= 2) || age(settle.start, now) >= 100;
            &&& over ==> t1.phase is SettleStamp && t1.asks() is ReadClock
            &&& !over ==> t1.asks() is SampleLine && t1.phase->settle == (Settle {
                start: settle.start,
                idle_since: if idle {
                    settle.idle_since
                } else {
                    now
                },
            })
        }),
        t.phase is SettleStamp ==> t.next(bus, Event::Clock(now)).asks() is Finished && t.next_bus(
            bus,
            Event::Clock(now),
        ) == (Bus { last_activity: now, ..bus }),
{
}

/// Switching the hardware SOF: abort its channel, wait until the channel's bit is clear,
/// disable the state machine; only then is the bus switched, and the channel started again
/// if SOFs are to be sent, with the first SOF prepared if that is owed.
pub proof fn law_switch_sequence(bus: Bus, on: bool, word: u32, counter: u32, now: u32)
    requires
        bus.wf(),
        bus.hw_sof is Some,
    ensures
        ({
            let hw = bus.hw_sof->0;
            let s = SofSwitch::begun(bus, on);
            let draining = s.next(bus, Event::Done);
            let drained = draining.next(bus, Event::Aborting(word));
            let bit = hw.abort_bit();
            &&& s.asks() == (Action::AbortDma { word: bit })
            &&& draining.asks() is ReadAbort
            &&& word & bit != 0 ==> drained == draining
            &&& word & bit == 0 ==> {
                let switched = drained.next(bus, Event::Done);
                let b1 = drained.next_bus(bus, Event::Done);
                &&& drained.asks() is DisableSofSm
                &&& b1 == (Bus {
                    hw_sof: Some(HwSof { armed: on, prepared_slot: None, ..hw }),
                    ..bus
                })
                &&& !on ==> switched.asks() is Finished
                &&& on ==> {
                    let started = switched.next(b1, Event::Done);
                    let event = Event::HwTime { counter, now };
                    let next = (now as int) / 1000 + 1;
                    let owed = prepare_owed(b1.hw_sof->0, counter, now);
                    let served = started.next(b1, event);
                    &&& switched.asks() == (Action::StartDma { dma: hw.dma_words() })
                    &&& started.asks() is ReadHwTime
                    &&& owed ==> served.asks() == (Action::PrepareSof {
                        frame: (next % 2048) as u16,
                    }) && served.next(b1, Event::Done).asks() is Finished
                    &&& !owed ==> served.asks() is Finished
                    &&& owed ==> started.next_bus(b1, event).hw_sof->0.prepared_slot == Some(
                        next as u32,
                    )
                }
            }
            &&& s.next_bus(bus, Event::Done) == bus
            &&& draining.next_bus(bus, Event::Aborting(word)) == bus
        }),
{
    law_hw_frame_windows(bus.sof_switched(true).hw_sof->0, counter, now);
}

/// Without a hardware SOF there is nothing to switch.
pub proof fn law_nothing_to_switch(bus: Bus, on: bool)
    requires
        bus.hw_sof is None,
    ensures
        SofSwitch::begun(bus, on).asks() is Finished,
        bus.sof_switched(on) == bus,
{
}

/// Enabling the hardware SOF: the slice is configured, then started with the counter that
/// makes it wrap with the slots of the timer, and a running full-speed device gets its SOFs
/// from it at once; any other waits for its reset.
pub proof fn law_enabling_sequence(e: EnableHwSof, bus: Bus, now: u32)
    requires
        bus.wf(),
        bus.hw_sof is Some,
    ensures
        e.phase is Configuring ==> e.asks() == (Action::ConfigurePwm { pwm: e.phase->pwm })
            && e.next(
            bus,
            Event::Done,
        ).asks() is ReadClock && e.next(bus, Event::Done).phase->Aligning_slice
            == e.phase->pwm.slice,
        e.phase is Aligning ==> ({
            let e1 = e.next(bus, Event::Clock(now));
            let word = e1.phase->word;
            let counts = bus.hw_sof->0.counts;
            &&& e1.asks() == (Action::StartPwm { slice: e.phase->Aligning_slice, word })
            &&& word * 1000 <= (now as int % 1000) * counts < (word + 1) * 1000
        }),
        e.phase is Starting ==> e.next(bus, Event::Done).asks() == (if bus.attached
            && bus.speed is Full {
            SofSwitch::begun(bus, true).asks()
        } else {
            Action::Finished
        }),
{
    let counts = bus.hw_sof->0.counts;
    let x = (now as int % 1000) * counts;
    assert(0 <= x <= 999 * 65536) by (nonlinear_arith)
        requires
            x == (now as int % 1000) * counts,
            1 <= counts <= 65536,
    ;
}

/// A reset, from its announcement to its recovery: hardware SOFs are switched off before SE0
/// is driven, SE0 is held for 50 ms, and after its release they are switched on again if the
/// bus runs at full speed.
pub proof fn law_reset_sequence(bus: Bus)
    requires
        bus.wf(),
    ensures
        ({
            let r = BusReset { phase: reset::Phase::Pausing };
            let quiet = r.next(bus, Event::Done);
            let driving = BusReset { phase: reset::Phase::Driving };
            let holding = driving.next(bus, Event::Done);
            let releasing = holding.next(bus, Event::Done);
            let resuming = releasing.next(bus, Event::Done);
            let resumed = resuming.next(bus, Event::Done);
            &&& r.asks() == (Action::PauseSof { paused: true })
            &&& bus.hw_sof is None ==> quiet == driving
            &&& bus.hw_sof is Some ==> quiet.phase == (reset::Phase::Disarming {
                switch: SofSwitch::begun(bus, false),
            })
            &&& driving.asks() is DriveReset
            &&& holding.asks() == (Action::Sleep { us: 50_000 })
            &&& releasing.asks() is ReleaseReset
            &&& resuming.asks() == (Action::PauseSof { paused: false })
            &&& bus.hw_sof is Some && bus.speed is Full ==> resumed.phase == (
            reset::Phase::Arming { switch: SofSwitch::begun(bus, true) })
            &&& forall|phase: reset::Phase|
                (phase is Pausing || phase is Driving || phase is Holding || phase is Releasing
                    || phase is Resuming) ==> #[trigger] (BusReset { phase }).next_bus(
                    bus,
                    Event::Done,
                ) == bus
        }),
{
}

/// While it switches, a reset or a poll does what the switch does, and moves on with its end.
pub proof fn law_switching_within(bus: Bus, switch: SofSwitch, change: DeviceEvent, event: Event)
    requires
        !(switch.next(bus, event).asks() is Finished),
    ensures
        ({
            let r = BusReset { phase: reset::Phase::Disarming { switch } };
            let a = BusReset { phase: reset::Phase::Arming { switch } };
            let p = PollDevice { phase: PollPhase::Disarming { change, switch } };
            &&& r.asks() == switch.asks() && a.asks() == switch.asks() && p.asks() == switch.asks()
            &&& r.next(bus, event).phase == (reset::Phase::Disarming {
                switch: switch.next(bus, event),
            })
            &&& a.next(bus, event).phase == (reset::Phase::Arming {
                switch: switch.next(bus, event),
            })
            &&& p.next(bus, event).phase == (PollPhase::Disarming {
                change,
                switch: switch.next(bus, event),
            })
            &&& r.next_bus(bus, event) == switch.next_bus(bus, event)
            &&& a.next_bus(bus, event) == switch.next_bus(bus, event)
            &&& p.next_bus(bus, event) == switch.next_bus(bus, event)
        }),
{
}

/// When the switch is done, the reset drives SE0 or begins its recovery, and the poll sets the
/// speed of the new device or releases the bus.
pub proof fn law_switched_within(bus: Bus, switch: SofSwitch, change: DeviceEvent, event: Event)
    requires
        switch.next(bus, event).asks() is Finished,
    ensures
        ({
            let r = BusReset { phase: reset::Phase::Disarming { switch } };
            let a = BusReset { phase: reset::Phase::Arming { switch } };
            let p = PollDevice { phase: PollPhase::Disarming { change, switch } };
            &&& r.next(bus, event).asks() is DriveReset
            &&& recovers(
                a.next(bus, event).phase,
                0,
                Keepalive::begun(switch.next_bus(bus, event)),
            )
            &&& p.next(bus, event).asks() == (match change {
                DeviceEvent::Connected(speed) => Action::SetSpeed { speed },
                DeviceEvent::Disconnected => Action::ReleaseBus,
            })
        }),
{
}

/// The recovery frames of a reset: each is one keep-alive check of the bus followed by a
/// sleep for as long as the check reports, and the 15th is the last.
pub proof fn law_recovery_frame(r: BusReset, bus: Bus, event: Event)
    requires
        r.allowed(bus),
        answers(r.asks(), event),
    ensures
        r.phase matches reset::Phase::RecoverySleep { frame, next_us } ==> r.asks() == (
        Action::Sleep { us: next_us as u64 }) && (frame < 14 ==> recovers(
            r.next(bus, event).phase,
            (frame + 1) as u32,
            Keepalive::begun(bus),
        )) && (frame >= 14 ==> r.next(bus, event).asks() is Finished),
        r.phase matches reset::Phase::Recovering { frame, keepalive } ==> recovers(
            r.next(bus, event).phase,
            frame,
            keepalive.next(bus, event),
        ) && r.next_bus(bus, event) == keepalive.next_bus(bus, event),
        r.phase is Resuming && (!(bus.speed is Full) || bus.hw_sof is None) ==> recovers(
            r.next(bus, event).phase,
            0,
            Keepalive::begun(bus),
        ),
{
}

/// Whether a reset is in a recovery frame with a keep-alive check, asleep if it is done.
pub open spec fn recovers(phase: reset::Phase, frame: u32, check: Keepalive) -> bool {
    if check.asks() is Finished {
        phase == (reset::Phase::RecoverySleep { frame, next_us: check.phase->next_us })
    } else {
        phase == (reset::Phase::Recovering { frame, keepalive: check })
    }
}

/// A poll samples the line once. Without a report it is over; with one the hardware SOF is
/// switched off, then a new device has its speed set and is reset, or the bus of a lost one
/// is released.
pub proof fn law_poll_sequence(bus: Bus, now: u32, dp: bool, dm: bool)
    requires
        bus.wf(),
    ensures
        ({
            let p = PollDevice { phase: PollPhase::Sampling };
            let event = Event::Line { now, dp, dm };
            let p1 = p.next(bus, event);
            let report = bus.poll_event(dp, dm);
            &&& p.asks() is SampleLine
            &&& p.next_bus(bus, event) == bus.polled(dp, dm)
            &&& report is None ==> p1.phase == (PollPhase::Finished { event: None })
            &&& report is Some && bus.hw_sof is Some ==> p1.asks() == (Action::AbortDma {
                word: bus.hw_sof->0.abort_bit(),
            })
            &&& bus.hw_sof is None ==> (report matches Some(DeviceEvent::Connected(speed))
                ==> p1.asks() == (Action::SetSpeed { speed }) && p1.next(bus, Event::Done).asks()
                == (Action::PauseSof { paused: true }))
            &&& bus.hw_sof is None && report == Some(DeviceEvent::Disconnected) ==> p1.asks()
                is ReleaseBus && p1.next(bus, Event::Done).phase == (PollPhase::Finished {
                event: Some(DeviceEvent::Disconnected),
            })
        }),
{
}

/// While it resets a new device, a poll does what the reset does; when the reset is over it
/// reports the device at the speed that the line showed.
pub proof fn law_poll_resets(bus: Bus, speed: Speed, reset: BusReset, event: Event)
    ensures
        ({
            let p = PollDevice { phase: PollPhase::Resetting { speed, reset } };
            let after = reset.next(bus, event);
            let setting = PollDevice { phase: PollPhase::SettingSpeed { speed } };
            &&& p.asks() == reset.asks()
            &&& p.next_bus(bus, event) == reset.next_bus(bus, event)
            &&& !(after.asks() is Finished) ==> p.next(bus, event).phase == (
            PollPhase::Resetting { speed, reset: after })
            &&& after.asks() is Finished ==> p.next(bus, event).phase == (PollPhase::Finished {
                event: Some(DeviceEvent::Connected(speed)),
            })
            &&& setting.next(bus, Event::Done).phase == (PollPhase::Resetting {
                speed,
                reset: BusReset { phase: reset::Phase::Pausing },
            })
            &&& setting.next_bus(bus, Event::Done) == bus
        }),
{
}

/// While it switches SOFs on, enabling does what the switch does, and ends with it.
pub proof fn law_enabling_switches(bus: Bus, switch: SofSwitch, event: Event)
    ensures
        ({
            let e = EnableHwSof { phase: EnablePhase::Arming { switch } };
            &&& e.asks() == switch.asks()
            &&& e.next_bus(bus, event) == switch.next_bus(bus, event)
            &&& e.next(bus, event).asks() == switch.next(bus, event).asks()
        }),
{
}

} // verus!
