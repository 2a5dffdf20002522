use vstd::prelude::*;

verus! {

/// Relies on `time::OffsetDateTime::now_utc` and the difference from the Unix
/// epoch: the current wall-clock time in whole milliseconds. Nothing is
/// promised of the value, which changes from call to call.
#[verifier::external_body]
pub fn get() -> (r: u64) {
    (::time::OffsetDateTime::now_utc() - ::time::OffsetDateTime::UNIX_EPOCH).whole_milliseconds()
        as u64
}

/// True when `start + interval` has been passed strictly by `now`.
pub open spec fn interval_passed(start: u64, interval: u64, now: u64) -> bool {
    start + interval < now
}

/// Periodic check against a given instant: when `*time + interval_in_ms` lies
/// strictly before `now`, the reference point advances by one interval and the
/// result is true; otherwise nothing changes.
pub fn has_elapsed_at(time: &mut u64, interval_in_ms: u64, now: u64) -> (r: bool)
    ensures
        r == interval_passed(*old(time), interval_in_ms, now),
        r ==> *final(time) == *old(time) + interval_in_ms,
        !r ==> *final(time) == *old(time),
{
    if interval_in_ms <= now && *time < now - interval_in_ms {
        *time = *time + interval_in_ms;
        true
    } else {
        false
    }
}

/// Periodic check against the clock: see `has_elapsed_at`.
pub fn has_elapsed(time: &mut u64, interval_in_ms: u64) -> (r: bool)
    ensures
        r ==> *final(time) == *old(time) + interval_in_ms,
        !r ==> *final(time) == *old(time),
{
    let compare_time = get();
    has_elapsed_at(time, interval_in_ms, compare_time)
}

/// Milliseconds from `start` to `now`; a clock that went backwards counts as
/// no time at all.
pub open spec fn elapsed(start: u64, now: u64) -> u64 {
    if now >= start { (now - start) as u64 } else { 0 }
}

/// Time since the reference point at a given instant; the reference point
/// moves to `now`.
pub fn since_at(time: &mut u64, now: u64) -> (r: u64)
    ensures
        r == elapsed(*old(time), now),
        *final(time) == now,
{
    let diff = if now >= *time { now - *time } else { 0 };
    *time = now;
    diff
}

/// Time since the reference point by the clock; the reference point moves to
/// the instant that was read.
pub fn since(time: &mut u64) -> (r: u64)
    ensures
        r == elapsed(*old(time), *final(time)),
{
    let time_now = get();
    since_at(time, time_now)
}

} // verus!
