//! Waiting for an idle line after a bad reply.
//!
//! After a reply the receiver could not take in whole, the device may still be
//! transmitting. Transmitting over a device packet is a collision; a hub between host and
//! device sees its port still busy at the end of the frame and disables it (USB 2.0
//! section 11.8.1). So nothing goes on the bus until the line has been idle for
//! [`BUS_IDLE_US`], or [`BUS_IDLE_TIMEOUT_US`] have passed.

use crate::bus::{detect_speed, line_speed, Speed, BUS_IDLE_TIMEOUT_US, BUS_IDLE_US};
use crate::frame::{elapsed, elapsed_spec};
use vstd::prelude::*;

verus! {

/// Progress of the wait.
#[derive(Clone, Copy, Debug, PartialEq, Eq)]
pub struct Settle {
    /// When the wait began.
    pub start: u32,
    /// Since when the line has been idle.
    pub idle_since: u32,
}

/// One sample of the line: timer reading and input levels of D+ and D-.
pub ghost struct Sample {
    pub now: u32,
    pub dp: bool,
    pub dm: bool,
}

/// Whether a sample shows the idle state (J) of a speed.
pub open spec fn idle(speed: Speed, sample: Sample) -> bool {
    line_speed(sample.dp, sample.dm) == Some(speed)
}

impl Settle {
    /// The wait as it stands at its first reading of the timer.
    pub open spec fn begun(now: u32) -> Settle {
        Settle { start: now, idle_since: now }
    }

    /// The wait after one more sample.
    pub open spec fn sampled(self, speed: Speed, sample: Sample) -> Settle {
        if idle(speed, sample) {
            self
        } else {
            Settle { idle_since: sample.now, ..self }
        }
    }

    /// Whether a sample ends the wait.
    pub open spec fn ends(self, speed: Speed, sample: Sample) -> bool {
        ||| idle(speed, sample) && elapsed_spec(self.idle_since, sample.now) >= BUS_IDLE_US
        ||| elapsed_spec(self.start, sample.now) >= BUS_IDLE_TIMEOUT_US
    }

    /// Begin waiting at a timer reading.
    pub fn begin(now: u32) -> (s: Settle)
        ensures
            s == Settle::begun(now),
    {
        Settle { start: now, idle_since: now }
    }

    /// Take in one sample of the line; `true` when the wait is over.
    pub fn poll(&mut self, speed: Speed, now: u32, dp: bool, dm: bool) -> (over: bool)
        ensures
            over == old(self).ends(speed, Sample { now, dp, dm }),
            *final(self) == old(self).sampled(speed, Sample { now, dp, dm }),
    {
        let at_idle = match detect_speed(dp, dm) {
            Some(sensed) => sensed == speed,
            None => false,
        };
        if !at_idle {
            self.idle_since = now;
        } else if elapsed(self.idle_since, now) >= BUS_IDLE_US {
            return true;
        }
        elapsed(self.start, now) >= BUS_IDLE_TIMEOUT_US
    }
}

/// The wait after a sequence of samples.
pub open spec fn settle_after(start: u32, speed: Speed, samples: Seq<Sample>) -> Settle
    decreases samples.len(),
{
    if samples.len() == 0 {
        Settle::begun(start)
    } else {
        settle_after(start, speed, samples.drop_last()).sampled(speed, samples.last())
    }
}

/// Whether the line was idle in every sample from index `from` on.
pub open spec fn idle_from(speed: Speed, samples: Seq<Sample>, from: int) -> bool {
    forall|i: int| from <= i < samples.len() ==> idle(speed, #[trigger] samples[i])
}

/// The reading that idle time from sample `from` on is counted from: that of the sample
/// before, or the start of the wait.
pub open spec fn counted_from(start: u32, samples: Seq<Sample>, from: int) -> u32 {
    if from == 0 {
        start
    } else {
        samples[from - 1].now
    }
}

/// The samples seen since `idle_since` all show an idle line.
proof fn lemma_idle_since(start: u32, speed: Speed, samples: Seq<Sample>)
    ensures
        settle_after(start, speed, samples).start == start,
        exists|from: int|
            0 <= from <= samples.len() && #[trigger] idle_from(speed, samples, from)
                && settle_after(start, speed, samples).idle_since == counted_from(
                start,
                samples,
                from,
            ),
    decreases samples.len(),
{
    if samples.len() == 0 {
        assert(idle_from(speed, samples, 0));
    } else {
        let before = samples.drop_last();
        lemma_idle_since(start, speed, before);
        if idle(speed, samples.last()) {
            let from = choose|from: int|
                0 <= from <= before.len() && #[trigger] idle_from(speed, before, from)
                    && settle_after(start, speed, before).idle_since == counted_from(
                    start,
                    before,
                    from,
                );
            assert forall|i: int| from <= i < samples.len() implies idle(
                speed,
                #[trigger] samples[i],
            ) by {
                if i < before.len() {
                    assert(before[i] == samples[i]);
                }
            }
            assert(idle_from(speed, samples, from));
        } else {
            assert(idle_from(speed, samples, samples.len() as int));
        }
    }
}

/// When the wait ends, either every sample over at least the last [`BUS_IDLE_US`] showed
/// an idle line, or the wait has lasted for [`BUS_IDLE_TIMEOUT_US`].
pub proof fn law_settled(start: u32, speed: Speed, samples: Seq<Sample>)
    requires
        samples.len() > 0,
        settle_after(start, speed, samples.drop_last()).ends(speed, samples.last()),
    ensures
        elapsed_spec(start, samples.last().now) >= 100 || exists|from: int|
            0 <= from < samples.len() && #[trigger] idle_from(speed, samples, from)
                && elapsed_spec(counted_from(start, samples, from), samples.last().now) >= 2,
{
    let before = samples.drop_last();
    lemma_idle_since(start, speed, before);
    if elapsed_spec(start, samples.last().now) < 100 {
        let from = choose|from: int|
            0 <= from <= before.len() && #[trigger] idle_from(speed, before, from) && settle_after(
                start,
                speed,
                before,
            ).idle_since == counted_from(start, before, from);
        assert forall|i: int| from <= i < samples.len() implies idle(speed, #[trigger] samples[i]) by {
            if i < before.len() {
                assert(before[i] == samples[i]);
            }
        }
        assert(idle_from(speed, samples, from));
    }
}

/// The wait is bounded: a sample taken [`BUS_IDLE_TIMEOUT_US`] after its start ends it,
/// whatever the line does.
pub proof fn law_settling_is_bounded(start: u32, speed: Speed, samples: Seq<Sample>)
    requires
        samples.len() > 0,
        elapsed_spec(start, samples.last().now) >= BUS_IDLE_TIMEOUT_US,
    ensures
        settle_after(start, speed, samples.drop_last()).ends(speed, samples.last()),
{
    lemma_idle_since(start, speed, samples.drop_last());
}

} // verus!
