//! Adaptive poll-interval control: the next interval from the previous one
//! and an optional rate-limit hint of the provider.
//!
//! Durations and timestamps are whole milliseconds; timestamps count from the
//! Unix epoch.

use vstd::prelude::*;

verus! {

/// Milliseconds in one second: the shortest window a hint is spread over.
pub const MILLIS_PER_SECOND: u64 = 1000;

/// The longest interval there is. It stands for an unbounded spacing.
pub const LONGEST_INTERVAL: u64 = 0xffff_ffff_ffff_ffff;

/// What a provider says about its request quota: how many requests remain,
/// and when the quota is reset.
#[derive(Clone, Copy, Debug, PartialEq, Eq, Structural)]
pub struct RateLimitHint {
    pub remaining: u64,
    pub reset_at: u64,
}

impl RateLimitHint {
    /// A hint needs both values: where the provider sent only one of them
    /// there is no hint.
    pub fn from_parts(remaining: Option<u64>, reset_at: Option<u64>) -> (hint: Option<RateLimitHint>)
        ensures
            hint == match (remaining, reset_at) {
                (Some(r), Some(t)) => Some(RateLimitHint { remaining: r, reset_at: t }),
                _ => None,
            },
    {
        match (remaining, reset_at) {
            (Some(r), Some(t)) => Some(RateLimitHint { remaining: r, reset_at: t }),
            _ => None,
        }
    }
}

/// The time left until the quota is reset, at least one second.
pub open spec fn window_of(reset_at: int, now: int) -> int {
    if reset_at - now > MILLIS_PER_SECOND as int {
        reset_at - now
    } else {
        MILLIS_PER_SECOND as int
    }
}

/// The spacing that spreads the remaining requests evenly over the window,
/// in whole milliseconds. With no request remaining the spacing is unbounded.
pub open spec fn candidate_of(hint: RateLimitHint, now: int) -> int {
    if hint.remaining == 0 {
        LONGEST_INTERVAL as int
    } else {
        window_of(hint.reset_at as int, now) / (hint.remaining as int)
    }
}

/// The next poll interval: the current one where there is no hint, else the
/// candidate spacing, but never less than `floor`.
pub open spec fn next_interval_of(
    current: u64,
    hint: Option<RateLimitHint>,
    now: u64,
    floor: u64,
) -> int {
    match hint {
        None => current as int,
        Some(h) => {
            let candidate = candidate_of(h, now as int);
            if candidate > floor {
                candidate
            } else {
                floor as int
            }
        },
    }
}

/// Computes the next poll interval from the current one, the provider's hint
/// if it sent one, the current time and the minimum spacing.
pub fn next_interval(
    current: u64,
    hint: Option<RateLimitHint>,
    now: u64,
    floor: u64,
) -> (next: u64)
    ensures
        next == next_interval_of(current, hint, now, floor),
        hint is None ==> next == current,
        hint is Some ==> next >= floor,
{
    match hint {
        None => current,
        Some(h) => {
            if h.remaining == 0 {
                LONGEST_INTERVAL
            } else {
                let window: u64 = if h.reset_at > now && h.reset_at - now > MILLIS_PER_SECOND {
                    h.reset_at - now
                } else {
                    MILLIS_PER_SECOND
                };
                let candidate: u64 = window / h.remaining;
                if candidate > floor {
                    candidate
                } else {
                    floor
                }
            }
        },
    }
}

/// Whole seconds since the Unix epoch as milliseconds: zero for a time before
/// the epoch, and the largest timestamp for one too far off to hold.
pub open spec fn millis_of_seconds(seconds: i64) -> int {
    if seconds <= 0 {
        0
    } else if seconds * MILLIS_PER_SECOND > LONGEST_INTERVAL {
        LONGEST_INTERVAL as int
    } else {
        seconds * MILLIS_PER_SECOND
    }
}

/// Converts whole seconds since the Unix epoch to a timestamp.
pub fn seconds_to_millis(seconds: i64) -> (millis: u64)
    ensures
        millis == millis_of_seconds(seconds),
{
    if seconds <= 0 {
        0
    } else {
        let whole: u64 = seconds as u64;
        match whole.checked_mul(MILLIS_PER_SECOND) {
            Some(millis) => millis,
            None => LONGEST_INTERVAL,
        }
    }
}

/// Reads the system clock with `std::time::SystemTime::now`, and has chrono
/// count the whole seconds since the Unix epoch: the conversion of a system
/// time to `chrono::DateTime<Utc>`, then `timestamp`. chrono gives a negative
/// count for a clock that stands before the epoch. Nothing is claimed of the
/// value, which differs from call to call.
#[verifier::external_body]
fn utc_now_seconds() -> (seconds: i64) {
    chrono::DateTime::<chrono::Utc>::from(std::time::SystemTime::now()).timestamp()
}

/// The current time as a timestamp, to the second.
pub fn now_millis() -> (now: u64)
    ensures
        exists|seconds: i64| now == #[trigger] millis_of_seconds(seconds),
{
    let seconds = utc_now_seconds();
    seconds_to_millis(seconds)
}

/// The next poll interval as of now: [`next_interval`] at the time that the
/// system clock shows.
pub fn next_interval_now(current: u64, hint: Option<RateLimitHint>, floor: u64) -> (next: u64)
    ensures
        exists|now: u64| next == #[trigger] next_interval_of(current, hint, now, floor),
        hint is None ==> next == current,
        hint is Some ==> next >= floor,
{
    let now = now_millis();
    next_interval(current, hint, now, floor)
}

/// Without a hint the interval stays as it is, whatever the time and the
/// floor are: polling on is idempotent.
pub proof fn unchanged_without_hint(current: u64, now: u64, floor: u64)
    ensures
        next_interval_of(current, None, now, floor) == current,
        next_interval_of(next_interval_of(current, None, now, floor) as u64, None, now, floor)
            == current,
{
}

/// With a hint the next interval is never below the floor, however many
/// requests the provider still allows and however far off the reset is.
/// Without one it is not below the floor if the current interval is not.
pub proof fn never_below_floor(current: u64, hint: Option<RateLimitHint>, now: u64, floor: u64)
    requires
        hint is Some || current >= floor,
    ensures
        next_interval_of(current, hint, now, floor) >= floor,
{
}

/// The next interval always fits the interval type.
pub proof fn next_interval_in_range(
    current: u64,
    hint: Option<RateLimitHint>,
    now: u64,
    floor: u64,
)
    ensures
        0 <= next_interval_of(current, hint, now, floor) <= LONGEST_INTERVAL,
{
    if let Some(h) = hint {
        if h.remaining != 0 {
            let w = window_of(h.reset_at as int, now as int);
            let r = h.remaining as int;
            assert(0 <= w / r <= w) by (nonlinear_arith)
                requires
                    w >= 0,
                    r >= 1,
            ;
        }
    }
}

/// A quota that is reset later, or of which less remains, never shortens the
/// interval.
pub proof fn scarcer_quota_never_shortens(
    current: u64,
    a: RateLimitHint,
    b: RateLimitHint,
    now: u64,
    floor: u64,
)
    requires
        a.remaining >= b.remaining,
        a.reset_at <= b.reset_at,
    ensures
        next_interval_of(current, Some(a), now, floor) <= next_interval_of(
            current,
            Some(b),
            now,
            floor,
        ),
{
    next_interval_in_range(current, Some(a), now, floor);
    if b.remaining != 0 {
        let wa = window_of(a.reset_at as int, now as int);
        let wb = window_of(b.reset_at as int, now as int);
        let ra = a.remaining as int;
        let rb = b.remaining as int;
        vstd::arithmetic::div_mod::lemma_div_is_ordered(wa, wb, ra);
        vstd::arithmetic::div_mod::lemma_div_is_ordered_by_denominator(wb, rb, ra);
    }
}

} // verus!
