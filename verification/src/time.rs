//! The parts of `std::time` that the library uses, and what is known of them.
//!
//! A duration is understood through its length in whole nanoseconds,
//! [`duration_nanos`]. Which readings the two clocks give is left unconstrained.
use std::time::Duration;
use std::time::Instant;
use std::time::SystemTime;
use std::time::SystemTimeError;
use vstd::prelude::*;

verus! {

/// `std::time::Instant`: a reading of the monotonic clock.
#[verifier::external_type_specification]
#[verifier::external_body]
pub struct ExInstant(Instant);

/// `std::time::SystemTime`: a reading of the wall clock.
#[verifier::external_type_specification]
#[verifier::external_body]
pub struct ExSystemTime(SystemTime);

/// `std::time::SystemTimeError`: the wall clock reads earlier than the epoch.
#[verifier::external_type_specification]
#[verifier::external_body]
pub struct ExSystemTimeError(SystemTimeError);

/// The length of a duration in nanoseconds, as `Duration::as_nanos` gives it.
pub uninterp spec fn duration_nanos(d: Duration) -> nat;

/// Nanoseconds in one second.
pub open spec fn nanos_per_sec() -> nat {
    1_000_000_000
}

/// The length of `Duration::MAX` in nanoseconds: `u64::MAX` whole seconds and
/// the largest fraction of a further one.
pub open spec fn max_duration_nanos() -> nat {
    (u64::MAX * 1_000_000_000 + 999_999_999) as nat
}

/// `Duration::as_nanos`: the whole length in nanoseconds, which never exceeds
/// that of the longest duration.
pub assume_specification[ Duration::as_nanos ](d: &Duration) -> (r: u128)
    ensures
        r == duration_nanos(*d),
        r <= max_duration_nanos(),
;

/// `Duration::subsec_nanos`: the part of the length below one second.
pub assume_specification[ Duration::subsec_nanos ](d: &Duration) -> (r: u32)
    ensures
        r == duration_nanos(*d) % nanos_per_sec(),
;

/// `Duration::is_zero`: whether no time is spanned.
pub assume_specification[ Duration::is_zero ](d: &Duration) -> (r: bool)
    ensures
        r == (duration_nanos(*d) == 0),
;

/// `Duration::from_nanos`: a duration of that many nanoseconds.
pub assume_specification[ Duration::from_nanos ](nanos: u64) -> (r: Duration)
    ensures
        duration_nanos(r) == nanos,
;

/// `Duration::from_secs`: a duration of that many seconds.
pub assume_specification[ Duration::from_secs ](secs: u64) -> (r: Duration)
    ensures
        duration_nanos(r) == secs * nanos_per_sec(),
;

/// `Duration::checked_add`: the sum, or `None` where it is longer than the
/// longest duration.
pub assume_specification[ Duration::checked_add ](d: Duration, rhs: Duration) -> (r: Option<Duration>)
    ensures
        match r {
            Some(sum) => duration_nanos(sum) == duration_nanos(d) + duration_nanos(rhs),
            None => duration_nanos(d) + duration_nanos(rhs) > max_duration_nanos(),
        },
;

/// `Duration::checked_mul`: the product, or `None` where it is longer than the
/// longest duration.
pub assume_specification[ Duration::checked_mul ](d: Duration, rhs: u32) -> (r: Option<Duration>)
    ensures
        match r {
            Some(product) => duration_nanos(product) == duration_nanos(d) * rhs,
            None => duration_nanos(d) * rhs > max_duration_nanos(),
        },
;

/// `Instant::now`: some reading of the monotonic clock; nothing is claimed of it.
pub assume_specification[ Instant::now ]() -> (r: Instant)
;

/// The time from one reading of the monotonic clock to another in nanoseconds, as
/// `Instant::duration_since` gives it.
pub uninterp spec fn nanos_between(from: Instant, to: Instant) -> nat;

/// `Instant::elapsed`: the time from that reading to the current one. Which one
/// that is, is not claimed.
pub assume_specification[ Instant::elapsed ](since: &Instant) -> (r: Duration)
    ensures
        exists|now: Instant| duration_nanos(r) == #[trigger] nanos_between(*since, now),
;

/// `SystemTime::now`: some reading of the wall clock; nothing is claimed of it.
pub assume_specification[ SystemTime::now ]() -> (r: SystemTime)
;

/// The time from the epoch to a reading of the wall clock in nanoseconds, as
/// `SystemTime::duration_since` gives it; `None` for an earlier reading.
pub uninterp spec fn nanos_since_epoch(t: SystemTime) -> Option<nat>;

/// `SystemTime::duration_since` the epoch: the time from the epoch to `t`, or an
/// error where `t` is the earlier.
#[verifier::external_body]
fn since_epoch(t: SystemTime) -> (r: Result<Duration, SystemTimeError>)
    ensures
        match r {
            Ok(d) => nanos_since_epoch(t) == Some(duration_nanos(d)),
            Err(_) => nanos_since_epoch(t) is None,
        },
{
    t.duration_since(SystemTime::UNIX_EPOCH)
}

/// The fraction of a second that a reading of the wall clock shows, in
/// nanoseconds; zero for a reading earlier than the epoch.
pub open spec fn subsec_shown(t: SystemTime) -> nat {
    match nanos_since_epoch(t) {
        Some(nanos) => nanos % nanos_per_sec(),
        None => 0,
    }
}

/// The fraction of a second that a given reading of the wall clock shows.
pub fn subsec_at(t: SystemTime) -> (r: u32)
    ensures
        r == subsec_shown(t),
        r < nanos_per_sec(),
        nanos_since_epoch(t) matches Some(nanos) ==> r == nanos % 1_000_000_000,
        nanos_since_epoch(t) is None ==> r == 0,
{
    match since_epoch(t) {
        Ok(d) => d.subsec_nanos(),
        Err(_) => 0,
    }
}

/// The fraction of the current second that the wall clock shows, in
/// nanoseconds; zero while the clock reads earlier than the epoch.
pub fn wall_clock_subsec() -> (r: u32)
    ensures
        exists|t: SystemTime| r == #[trigger] subsec_shown(t),
        r < nanos_per_sec(),
{
    subsec_at(SystemTime::now())
}

/// What a reading of the wall clock shows of its second makes up, with whole
/// seconds, the time since the epoch; before the epoch it shows none.
pub proof fn law_subsec_completes_whole_seconds(t: SystemTime)
    ensures
        subsec_shown(t) < 1_000_000_000,
        nanos_since_epoch(t) matches Some(nanos) ==> nanos == (nanos / 1_000_000_000)
            * 1_000_000_000 + subsec_shown(t),
        nanos_since_epoch(t) is None ==> subsec_shown(t) == 0,
{
}

} // verus!
