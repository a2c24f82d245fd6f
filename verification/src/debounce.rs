//! What debouncing guarantees over a sequence of line samples.

use crate::bus::{line_speed, Bus, DeviceEvent, Speed, DEBOUNCE_CAP};
use vstd::prelude::*;

verus! {

/// One line sample: the input levels of D+ and D-.
pub ghost struct Levels {
    pub dp: bool,
    pub dm: bool,
}

/// Whether a sample shows a device.
pub open spec fn present(levels: Levels) -> bool {
    line_speed(levels.dp, levels.dm) is Some
}

/// The bus after a sequence of samples.
pub open spec fn polled_all(bus: Bus, samples: Seq<Levels>) -> Bus
    decreases samples.len(),
{
    if samples.len() == 0 {
        bus
    } else {
        polled_all(bus, samples.drop_last()).polled(samples.last().dp, samples.last().dm)
    }
}

/// What the last of a sequence of samples reports.
pub open spec fn last_event(bus: Bus, samples: Seq<Levels>) -> Option<DeviceEvent> {
    polled_all(bus, samples.drop_last()).poll_event(samples.last().dp, samples.last().dm)
}

/// How many samples show a device.
pub open spec fn seen(samples: Seq<Levels>) -> nat
    decreases samples.len(),
{
    if samples.len() == 0 {
        0
    } else {
        seen(samples.drop_last()) + (if present(samples.last()) {
            1nat
        } else {
            0nat
        })
    }
}

/// How many samples show no device.
pub open spec fn missed(samples: Seq<Levels>) -> nat {
    (samples.len() - seen(samples)) as nat
}

proof fn lemma_seen_bounded(samples: Seq<Levels>)
    ensures
        seen(samples) <= samples.len(),
    decreases samples.len(),
{
    if samples.len() > 0 {
        lemma_seen_bounded(samples.drop_last());
    }
}

proof fn lemma_accumulator(bus: Bus, samples: Seq<Levels>)
    requires
        bus.wf(),
    ensures
        polled_all(bus, samples).wf(),
        polled_all(bus, samples).debounce <= bus.debounce + seen(samples),
        polled_all(bus, samples).debounce >= bus.debounce - missed(samples),
        polled_all(bus, samples).absent <= bus.absent + missed(samples),
    decreases samples.len(),
{
    if samples.len() > 0 {
        lemma_accumulator(bus, samples.drop_last());
        lemma_seen_bounded(samples.drop_last());
        let before = polled_all(bus, samples.drop_last());
        assert(before.wf());
    }
}

/// A port that starts out empty reports a device only after at least 15 samples showed
/// one.
pub proof fn law_attach_needs_samples(bus: Bus, samples: Seq<Levels>)
    requires
        bus.wf(),
        bus.debounce == 0,
        samples.len() > 0,
        last_event(bus, samples) matches Some(DeviceEvent::Connected(_)),
    ensures
        seen(samples) >= 15,
{
    lemma_accumulator(bus, samples.drop_last());
}

/// A device counts as detached only after at least 60 samples without it since it was
/// attached, and not before the accumulator has been worked off, whatever lies between.
pub proof fn law_detach_needs_samples(bus: Bus, samples: Seq<Levels>)
    requires
        bus.wf(),
        samples.len() > 0,
        last_event(bus, samples) == Some(DeviceEvent::Disconnected),
    ensures
        missed(samples) + bus.absent >= 60,
        missed(samples) >= bus.debounce,
{
    lemma_accumulator(bus, samples.drop_last());
    lemma_seen_bounded(samples.drop_last());
}

/// Whether a bus stays attached over a sequence of samples.
pub open spec fn stays_attached(bus: Bus, samples: Seq<Levels>) -> bool
    decreases samples.len(),
{
    if samples.len() == 0 {
        bus.attached
    } else {
        stays_attached(bus, samples.drop_last()) && polled_all(bus, samples).attached
    }
}

/// Samples without the device add up: one that shows it does not start the count again, so
/// that a device whose line flaps is still reported as detached once it has missed 60
/// samples and the accumulator is empty.
pub proof fn law_missed_samples_add_up(bus: Bus, samples: Seq<Levels>, last: Levels)
    requires
        bus.wf(),
        stays_attached(bus, samples),
        !present(last),
    ensures
        last_event(bus, samples.push(last)) == (if bus.absent + missed(samples.push(last)) >= 60
            && polled_all(bus, samples).debounce <= 1 {
            Some(DeviceEvent::Disconnected)
        } else {
            None
        }),
{
    lemma_absent(bus, samples);
    lemma_seen_bounded(samples);
    assert(samples.push(last).drop_last() =~= samples);
}

proof fn lemma_absent(bus: Bus, samples: Seq<Levels>)
    requires
        bus.wf(),
        stays_attached(bus, samples),
    ensures
        polled_all(bus, samples).attached,
        polled_all(bus, samples).absent == (if bus.absent + missed(samples) < DEBOUNCE_CAP {
            bus.absent + missed(samples)
        } else {
            DEBOUNCE_CAP as int
        }),
    decreases samples.len(),
{
    if samples.len() > 0 {
        lemma_absent(bus, samples.drop_last());
        lemma_seen_bounded(samples.drop_last());
    }
}

/// A device that is plugged into an empty port and stays is reported, at its speed, by the
/// 15th sample and by none before.
pub proof fn law_steady_attach(bus: Bus, samples: Seq<Levels>, speed: Speed)
    requires
        bus.wf(),
        bus.debounce == 0,
        !bus.attached,
        1 <= samples.len() <= 15,
        forall|i: int|
            0 <= i < samples.len() ==> line_speed(
                (#[trigger] samples[i]).dp,
                samples[i].dm,
            ) == Some(speed),
    ensures
        last_event(bus, samples) == (if samples.len() == 15 {
            Some(DeviceEvent::Connected(speed))
        } else {
            None
        }),
{
    lemma_steady_rise(bus, samples.drop_last(), speed);
    assert(samples.last() == samples[samples.len() - 1]);
}

proof fn lemma_steady_rise(bus: Bus, samples: Seq<Levels>, speed: Speed)
    requires
        bus.wf(),
        bus.debounce == 0,
        !bus.attached,
        samples.len() < 15,
        forall|i: int|
            0 <= i < samples.len() ==> line_speed(
                (#[trigger] samples[i]).dp,
                samples[i].dm,
            ) == Some(speed),
    ensures
        polled_all(bus, samples).debounce == samples.len(),
        !polled_all(bus, samples).attached,
    decreases samples.len(),
{
    if samples.len() > 0 {
        lemma_steady_rise(bus, samples.drop_last(), speed);
        assert(samples.last() == samples[samples.len() - 1]);
    }
}

/// How many samples in a row without the device it takes to report it as detached: 60, less
/// those it has missed already, or as many as the accumulator holds if they are more.
pub open spec fn samples_to_detach(bus: Bus) -> int {
    let missing = 60 - bus.absent;
    if missing < bus.debounce {
        bus.debounce as int
    } else if missing < 1 {
        1
    } else {
        missing
    }
}

/// A device that is unplugged and stays away is reported as detached by the sample that
/// completes the count and by none before: by the 60th if it has not missed any before,
/// however long it was plugged in, and by the 60th at the latest.
pub proof fn law_steady_detach(bus: Bus, samples: Seq<Levels>)
    requires
        bus.wf(),
        bus.attached,
        1 <= samples.len() <= samples_to_detach(bus),
        forall|i: int| 0 <= i < samples.len() ==> !present(#[trigger] samples[i]),
    ensures
        last_event(bus, samples) == (if samples.len() == samples_to_detach(bus) {
            Some(DeviceEvent::Disconnected)
        } else {
            None
        }),
        bus.absent == 0 ==> samples_to_detach(bus) == 60,
        samples_to_detach(bus) <= 60,
{
    lemma_steady_fall(bus, samples.drop_last());
    assert(!present(samples[samples.len() - 1]));
}

proof fn lemma_steady_fall(bus: Bus, samples: Seq<Levels>)
    requires
        bus.wf(),
        bus.attached,
        samples.len() < samples_to_detach(bus),
        forall|i: int| 0 <= i < samples.len() ==> !present(#[trigger] samples[i]),
    ensures
        polled_all(bus, samples).attached,
        polled_all(bus, samples).debounce == (if samples.len() < bus.debounce {
            bus.debounce - samples.len()
        } else {
            0
        }),
        polled_all(bus, samples).absent == (if bus.absent + samples.len() < 60 {
            bus.absent + samples.len()
        } else {
            60
        }),
    decreases samples.len(),
{
    if samples.len() > 0 {
        lemma_steady_fall(bus, samples.drop_last());
        assert(!present(samples[samples.len() - 1]));
    }
}

/// Reports alternate: a device is reported only on a detached bus, which is then attached
/// at its speed, and its loss only on an attached bus, which is then detached. Either way
/// the hardware SOF is off, and the speed is one the transport supports.
pub proof fn law_reports_alternate(bus: Bus, dp: bool, dm: bool)
    requires
        bus.wf(),
    ensures
        bus.poll_event(dp, dm) matches Some(DeviceEvent::Connected(speed)) ==> !bus.attached
            && bus.polled(dp, dm).attached && bus.polled(dp, dm).speed == speed && (speed
            == Speed::Full || speed == Speed::Low),
        bus.poll_event(dp, dm) == Some(DeviceEvent::Disconnected) ==> bus.attached && !bus.polled(
            dp,
            dm,
        ).attached,
        bus.poll_event(dp, dm) is Some ==> !bus.polled(dp, dm).hw_active(),
        bus.poll_event(dp, dm) is None ==> bus.polled(dp, dm).attached == bus.attached
            && bus.polled(dp, dm).speed == bus.speed,
{
}

} // verus!
