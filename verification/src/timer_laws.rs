//! What the frame timer, the idle task and the pipe allocator do, in terms of timer readings
//! and of what they are asked for.

use crate::embassy::{
    alloc_error, allocated, interval_us_spec, Bus, EndpointInfo, EndpointType, HostError,
};
use crate::frame_timer::{
    next_boundary_spec, retry_after, tick_spec, with_frame_alarm, Action, ArmFrameAlarm,
    ArmRetryAlarm, Event, FrameTick, IdleTask, RetryPhase, StartFrameTimer, StartPhase, TickPhase,
};
use crate::port_laws::age;
use vstd::prelude::*;

verus! {

/// How far past a frame boundary the alarm fires: at it, or 20 us later with hardware SOFs.
pub open spec fn alarm_offset(shared: Bus) -> u32 {
    if shared.hw_sof {
        20
    } else {
        0
    }
}

/// The alarm target is as far ahead of the reading as the rest of its millisecond, counted
/// from the offset; across the wrap of the timer too.
pub proof fn law_alarm_target(now: u32, offset: u32)
    ensures
        age(now, next_boundary_spec(now, offset)) + age(offset, now) % 1000 == 1000,
{
}

/// Arming writes the next boundary; if a second reading shows it reached, the one a frame
/// after it.
pub proof fn law_arming_sequence(shared: Bus, now: u32, check: u32)
    ensures
        ({
            let a = ArmFrameAlarm::begun(shared);
            let written = a.next(Event::Clock(now));
            let checking = written.next(Event::Done);
            let checked = checking.next(Event::Clock(check));
            &&& a.asks() is ReadClock
            &&& written.asks() is WriteAlarm
            &&& {
                let target = written.asks()->target;
                &&& age(now, target) + age(alarm_offset(shared), now) % 1000 == 1000
                &&& checking.asks() is ReadClock
                &&& age(target, check) < 0x8000_0000 ==> checked.asks() is WriteAlarm && age(
                    target,
                    checked.asks()->target,
                ) == 1000 && checked.next(Event::Done).asks() is Finished
                &&& age(target, check) >= 0x8000_0000 ==> checked.asks() is Finished
            }
        }),
{
}

/// How soon a busy bus is tried again: with hardware SOFs after 20 us, up to 900 us into the
/// frame; with software SOFs after 2 us, up to 500 us into it, while the SOF of the slot has
/// not been sent and the port is not held in reset. Otherwise not before the next boundary.
pub proof fn law_retry_rule(shared: Bus, now: u32)
    ensures
        ({
            let into = now as int % 1000;
            let missing = shared.last_sof_slot != (now as int) / 1000 && !shared.sof_paused;
            &&& retry_after(shared, now) == Some(20u32) <==> shared.hw_sof && into < 900
            &&& retry_after(shared, now) == Some(2u32) <==> !shared.hw_sof && missing && into < 500
            &&& retry_after(shared, now) matches Some(us) ==> us == 20 || us == 2
        }),
{
}

/// Re-arming writes the retry target and enters the interrupt again at once if it has passed
/// by then; where no retry helps, it arms the next boundary.
pub proof fn law_retry_sequence(shared: Bus, now: u32, check: u32)
    ensures
        ({
            let r = ArmRetryAlarm { phase: RetryPhase::Reading };
            let read = r.next(shared, Event::Clock(now));
            let checking = read.next(shared, Event::Done);
            let checked = checking.next(shared, Event::Clock(check));
            &&& r.asks() is ReadClock
            &&& retry_after(shared, now) matches Some(us) ==> {
                &&& read.asks() is WriteAlarm
                &&& age(now, read.asks()->target) == us
                &&& checking.asks() is ReadClock
                &&& age(read.asks()->target, check) < 0x8000_0000 ==> checked.asks() is Pend
                    && checked.next(shared, Event::Done).asks() is Finished
                &&& age(read.asks()->target, check) >= 0x8000_0000 ==> checked.asks() is Finished
            }
            &&& retry_after(shared, now) is None ==> read.phase == (RetryPhase::Boundary {
                arm: ArmFrameAlarm::begun(shared),
            })
        }),
{
}

/// While it arms the next boundary, re-arming asks what arming asks, and ends with it.
pub proof fn law_retry_arms_boundary(shared: Bus, arm: ArmFrameAlarm, event: Event)
    ensures
        ({
            let r = ArmRetryAlarm { phase: RetryPhase::Boundary { arm } };
            &&& r.asks() == arm.asks()
            &&& r.next(shared, event).asks() == arm.next(event).asks()
        }),
{
}

/// The bit of alarm 1 is set, and every other kept.
pub proof fn law_frame_alarm_bit(word: u32, bit: u32)
    requires
        bit < 32,
    ensures
        (with_frame_alarm(word) >> bit) & 1 == (if bit == 1 {
            1u32
        } else {
            (word >> bit) & 1
        }),
        with_frame_alarm(0) == 2,
{
    assert(((word | 2) >> bit) & 1 == (if bit == 1 {
        1u32
    } else {
        (word >> bit) & 1
    })) by (bit_vector)
        requires
            bit < 32,
    ;
    assert(0u32 | 2 == 2) by (bit_vector);
}

/// The interrupt acknowledges its alarm and tries to take the bus. With the bus it makes one
/// keep-alive check and arms the next boundary; without it, it re-arms for a retry.
pub proof fn law_interrupt_sequence(shared: Bus, next_us: u32)
    ensures
        ({
            let t = FrameTick { phase: TickPhase::Clearing };
            let locking = t.next(shared, Event::Done);
            let free = locking.next(shared, Event::Locked(true));
            let busy = locking.next(shared, Event::Locked(false));
            let kept = free.next(shared, Event::KeptAlive { next_us });
            &&& t.asks() == (Action::WriteRaised { word: 2 })
            &&& locking.asks() is TryLock
            &&& free.asks() is Keepalive
            &&& kept.phase == (TickPhase::Arming { arm: ArmFrameAlarm::begun(shared) })
            &&& busy.phase == (TickPhase::Retrying {
                retry: ArmRetryAlarm { phase: RetryPhase::Reading },
            })
        }),
{
    law_frame_alarm_bit(0, 0);
}

/// While it arms or re-arms, the interrupt asks what they ask, and ends with them.
pub proof fn law_interrupt_arms(shared: Bus, arm: ArmFrameAlarm, retry: ArmRetryAlarm, event: Event)
    ensures
        ({
            let a = FrameTick { phase: TickPhase::Arming { arm } };
            let r = FrameTick { phase: TickPhase::Retrying { retry } };
            &&& a.asks() == arm.asks()
            &&& a.next(shared, event).asks() == arm.next(event).asks()
            &&& r.asks() == retry.asks()
            &&& r.next(shared, event).asks() == retry.next(shared, event).asks()
        }),
{
}

/// Starting the frame timer clears a raised alarm, enables alarm 1 among those enabled, arms
/// the first boundary, and enables the interrupt last.
pub proof fn law_start_sequence(shared: Bus, word: u32, arm: ArmFrameAlarm, event: Event)
    ensures
        ({
            let s = StartFrameTimer { phase: StartPhase::Clearing };
            let reading = s.next(shared, Event::Done);
            let enabling = reading.next(shared, Event::Word(word));
            let arming = enabling.next(shared, Event::Done);
            let armed = StartFrameTimer { phase: StartPhase::Arming { arm } };
            let after = armed.next(shared, event);
            &&& s.asks() == (Action::WriteRaised { word: 2 })
            &&& reading.asks() is ReadEnabled
            &&& enabling.asks() == (Action::WriteEnabled { word: with_frame_alarm(word) })
            &&& arming.phase == (StartPhase::Arming { arm: ArmFrameAlarm::begun(shared) })
            &&& armed.asks() == arm.asks()
            &&& !(arm.next(event).asks() is Finished) ==> after.asks() == arm.next(event).asks()
            &&& arm.next(event).asks() is Finished ==> after.asks() is EnableIrq && after.next(
                shared,
                Event::Done,
            ).asks() is Finished
        }),
{
    law_frame_alarm_bit(0, 0);
}

/// The idle task tries to take the bus, makes a check if it is free, and sleeps for as long
/// as the check reports, or for a quarter of a frame if it is not; then again.
pub proof fn law_idle_sequence(next_us: u32, us: u32)
    ensures
        ({
            let free = IdleTask::Locking.next(Event::Locked(true));
            let busy = IdleTask::Locking.next(Event::Locked(false));
            &&& IdleTask::Locking.asks() is TryLock
            &&& free.asks() is Keepalive
            &&& free.next(Event::KeptAlive { next_us }).asks() == (Action::Sleep { us: next_us })
            &&& busy.asks() == (Action::Sleep { us: 250 })
            &&& (IdleTask::Sleeping { us }).asks() == (Action::Sleep { us })
            &&& (IdleTask::Sleeping { us }).next(Event::Done) == IdleTask::Locking
            &&& tick_spec(Some(next_us)) == next_us
            &&& tick_spec(None) == 250
        }),
{
}

/// A pipe is refused for the first of these that holds: the device is behind a hub at another
/// speed, the types differ, the endpoint is isochronous, its packets are empty or larger than
/// 64 bytes. Otherwise it is allocated.
pub proof fn law_refused_pipes(endpoint: EndpointInfo, pipe_type: EndpointType, split: bool)
    ensures
        ({
            let error = alloc_error(endpoint, pipe_type, split);
            let same = endpoint.ep_type == pipe_type;
            let iso = endpoint.ep_type is Isochronous;
            let sized = 1 <= endpoint.max_packet_size <= 64;
            &&& error == Some(HostError::SplitUnsupported) <==> split
            &&& error == Some(HostError::TypeMismatch) <==> !split && !same
            &&& error == Some(HostError::IsochronousUnsupported) <==> !split && same && iso
            &&& error == Some(HostError::PacketSizeUnsupported) <==> !split && same && !iso
                && !sized
            &&& error is None <==> !split && same && !iso && sized
        }),
{
}

/// A new pipe is for the device and the endpoint's number without its direction bit, has the
/// endpoint's packet size, polls at its interval but not more than once a frame, starts with
/// DATA0, and has timeouts of 500 ms with a DATA stage and 50 ms without.
pub proof fn law_allocated_pipe(addr: u8, endpoint: EndpointInfo)
    ensures
        ({
            let pipe = allocated(addr, endpoint);
            &&& pipe.addr == addr
            &&& pipe.ep < 128 && (endpoint.addr - pipe.ep) % 128 == 0
            &&& pipe.mps == endpoint.max_packet_size
            &&& pipe.interval_us >= 1000 && pipe.interval_us >= 1000 * endpoint.interval_ms
            &&& pipe.interval_us == 1000 || pipe.interval_us == 1000 * endpoint.interval_ms
            &&& !pipe.toggle_data1
            &&& pipe.timeout.data_ms == 500 && pipe.timeout.no_data_ms == 50
            &&& interval_us_spec(endpoint.interval_ms) == pipe.interval_us
        }),
{
    let raw: u8 = endpoint.addr;
    assert(raw & 0x7f == raw % 128) by (bit_vector);
}

} // verus!
