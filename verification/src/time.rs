//! Durations and the wall clock.

use std::time::{Duration, SystemTime, UNIX_EPOCH};

use vstd::prelude::*;

verus! {

/// The duration that `Duration::new` makes of seconds and of nanoseconds below a second.
pub uninterp spec fn duration_of(secs: u64, nanos: u32) -> Duration;

/// The duration of a whole number of seconds.
pub open spec fn secs_duration(secs: u64) -> Duration {
    duration_of(secs, 0)
}

/// Whether `secs` is the number of whole seconds in a duration.
pub open spec fn whole_secs(d: Duration, secs: u64) -> bool {
    exists|nanos: u32| nanos < 1_000_000_000 && d == #[trigger] duration_of(secs, nanos)
}

/// `Duration::new`, for nanoseconds that do not carry over into the seconds: its
/// result is a function of its arguments alone.
pub assume_specification[ Duration::new ](secs: u64, nanos: u32) -> (d: Duration)
    requires
        nanos < 1_000_000_000,
    ensures
        d == duration_of(secs, nanos),
;

/// `Duration::from_secs`: the duration of so many seconds and no nanoseconds.
pub assume_specification[ Duration::from_secs ](secs: u64) -> (d: Duration)
    ensures
        d == duration_of(secs, 0),
;

/// `Duration::is_zero`: true of the one duration that spans no time, and of no other.
pub assume_specification[ Duration::is_zero ](d: &Duration) -> (r: bool)
    ensures
        r == (*d == duration_of(0, 0)),
;

/// `Duration::as_secs`: the number of whole seconds in any duration, without the
/// fraction of a second; there is no other such number.
pub assume_specification[ Duration::as_secs ](d: &Duration) -> (r: u64)
    ensures
        whole_secs(*d, r),
        forall|secs: u64| #[trigger] whole_secs(*d, secs) ==> r == secs,
;

#[verifier::external_type_specification]
#[verifier::external_body]
pub struct ExSystemTime(SystemTime);

/// `SystemTime::now`: nothing is promised of a clock reading.
pub assume_specification[ SystemTime::now ]() -> SystemTime;

/// `SystemTime::duration_since` the Unix epoch: the time that has passed, or `None`
/// for a moment before the epoch. How much that is rests on the clock.
#[verifier::external_body]
fn since_epoch(t: SystemTime) -> Option<Duration> {
    t.duration_since(UNIX_EPOCH).ok()
}

/// What a clock reading counts as in whole seconds: a clock before the epoch reads zero.
pub fn unix_secs(reading: Option<Duration>) -> (now: u64)
    ensures
        match reading {
            Some(d) => whole_secs(d, now) && forall|secs: u64|
                #[trigger] whole_secs(d, secs) ==> now == secs,
            None => now == 0,
        },
{
    match reading {
        Some(d) => d.as_secs(),
        None => 0,
    }
}

/// Whether `now` is what some reading of the clock counts as in whole seconds.
pub closed spec fn is_reading(now: u64) -> bool {
    exists|t: SystemTime, reading: Option<Duration>|
        call_ensures(SystemTime::now, (), t) && #[trigger] call_ensures(
            since_epoch,
            (t,),
            reading,
        ) && (match reading {
            Some(d) => whole_secs(d, now),
            None => now == 0,
        })
}

/// A reading of `clock`, which is known to be one of its results.
fn read_clock<F: Fn() -> SystemTime>(clock: F) -> (t: SystemTime)
    requires
        call_requires(clock, ()),
    ensures
        call_ensures(clock, (), t),
{
    clock()
}

/// How long before `t` the epoch was, as `since` tells.
fn measure<F: Fn(SystemTime) -> Option<Duration>>(since: F, t: SystemTime) -> (reading: Option<
    Duration,
>)
    requires
        call_requires(since, (t,)),
    ensures
        call_ensures(since, (t,), reading),
{
    since(t)
}

/// The current Unix time in seconds, as the clock reads.
pub fn now_unix() -> (now: u64)
    ensures
        is_reading(now),
{
    let t = read_clock(SystemTime::now);
    let reading = measure(since_epoch, t);
    let now: u64 = unix_secs(reading);
    assert(call_ensures(SystemTime::now, (), t) && call_ensures(since_epoch, (t,), reading));
    now
}

/// The current time is what the clock said and nothing else: it was read, its distance
/// from the epoch was taken, and the seconds of that are the result.
proof fn law_now_is_what_the_clock_said(now: u64)
    requires
        call_ensures(now_unix, (), now),
    ensures
        exists|t: SystemTime, reading: Option<Duration>|
            call_ensures(SystemTime::now, (), t) && #[trigger] call_ensures(
                since_epoch,
                (t,),
                reading,
            ) && forall|secs: u64| #[trigger] call_ensures(unix_secs, (reading,), secs) ==> secs
                == now,
{
    let (t, reading) = choose|t: SystemTime, reading: Option<Duration>|
        call_ensures(SystemTime::now, (), t) && #[trigger] call_ensures(
            since_epoch,
            (t,),
            reading,
        ) && (match reading {
            Some(d) => whole_secs(d, now),
            None => now == 0,
        });
    assert(forall|secs: u64| #[trigger] call_ensures(unix_secs, (reading,), secs) ==> secs == now);
}

} // verus!
