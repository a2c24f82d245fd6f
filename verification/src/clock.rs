//! Deadlines on the executor's clock, in ticks.

use vstd::prelude::*;

verus! {

/// `Duration::from_millis` of `embassy-time`, as a tick count. At the 1 MHz tick of the
/// RP time driver a millisecond is 1000 ticks. The multiplication overflows, and panics
/// in a debug build, beyond `u64::MAX / 1000` milliseconds.
#[verifier::external_body]
fn ticks_of_millis(millis: u64) -> (ticks: u64)
    requires
        millis * 1000 <= u64::MAX,
    ensures
        ticks == millis * 1000,
{
    embassy_time::Duration::from_millis(millis).as_ticks()
}

/// `Instant + Duration` of `embassy-time`, on tick counts. The operator panics when the
/// sum does not fit.
#[verifier::external_body]
fn instant_add(now: u64, ticks: u64) -> (at: u64)
    requires
        now + ticks <= u64::MAX,
    ensures
        at == now + ticks,
{
    (embassy_time::Instant::from_ticks(now) + embassy_time::Duration::from_ticks(ticks)).as_ticks()
}

/// Whether a deadline `millis` after `now` can be represented.
pub open spec fn deadline_fits(now: u64, millis: u64) -> bool {
    now + millis * 1000 <= u64::MAX
}

/// The instant `millis` milliseconds after `now`.
pub fn deadline(now: u64, millis: u64) -> (at: u64)
    requires
        deadline_fits(now, millis),
    ensures
        at == now + millis * 1000,
{
    instant_add(now, ticks_of_millis(millis))
}

} // verus!
