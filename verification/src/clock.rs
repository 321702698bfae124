//! Reading the clocks. Nothing is promised of the values read: every
//! function that uses them is verified for every value they could take.
use vstd::prelude::*;
use std::time::Instant;

verus! {

/// The monotonic clock's instant type of std, carried opaquely.
#[verifier::external_type_specification]
#[verifier::external_body]
pub struct ExInstant(std::time::Instant);

/// `Instant::now`: the current instant of the monotonic clock.
#[verifier::external_body]
pub(crate) fn instant_now() -> Instant {
    Instant::now()
}

/// `Instant::elapsed`, in nanoseconds: the time since `origin` on the
/// monotonic clock.
#[verifier::external_body]
pub(crate) fn nanos_since(origin: &Instant) -> u128 {
    origin.elapsed().as_nanos()
}

/// `SystemTime::now` measured from the Unix epoch: `Ok` with the nanoseconds
/// since the epoch, or `Err` with the nanoseconds before it when the wall
/// clock is set earlier. Either is a `Duration`'s `as_nanos`, and a
/// `Duration` holds its whole seconds in a `u64`.
#[verifier::external_body]
pub(crate) fn wall_clock_since_epoch() -> (r: Result<u128, u128>)
    ensures
        match r {
            Ok(n) => n < (u64::MAX as int + 1) * 1_000_000_000,
            Err(n) => n < (u64::MAX as int + 1) * 1_000_000_000,
        },
{
    match std::time::SystemTime::now().duration_since(std::time::UNIX_EPOCH) {
        Ok(d) => Ok(d.as_nanos()),
        Err(e) => Err(e.duration().as_nanos()),
    }
}

/// Signed nanoseconds since the Unix epoch of a wall-clock reading.
pub open spec fn signed_nanos(r: Result<u128, u128>) -> int {
    match r {
        Ok(n) => n as int,
        Err(n) => 0 - n,
    }
}

/// The wall clock in signed nanoseconds since the Unix epoch.
pub fn unix_now_nanos() -> (r: i128)
    ensures
        exists|w: Result<u128, u128>| r as int == clamp_i128(signed_nanos(w)),
{
    let w = wall_clock_since_epoch();
    let r = match w {
        Ok(n) => if n > i128::MAX as u128 { i128::MAX } else { n as i128 },
        Err(n) => if n > i128::MAX as u128 { i128::MIN + 1 } else { 0 - (n as i128) },
    };
    assert(r as int == clamp_i128(signed_nanos(w)));
    r
}

/// A signed nanosecond count limited to the range of `i128` (that range
/// spans far more than the age of the universe).
pub open spec fn clamp_i128(n: int) -> int {
    if n > i128::MAX {
        i128::MAX as int
    } else if n < i128::MIN + 1 {
        i128::MIN + 1
    } else {
        n
    }
}

/// Whole seconds since the Unix epoch, 0 when the wall clock is set before
/// it (`duration_since(UNIX_EPOCH).map(as_secs).unwrap_or(0)`).
pub open spec fn unix_secs_of(r: Result<u128, u128>) -> int {
    match r {
        Ok(n) => if n / 1_000_000_000 > i64::MAX { 0 } else { (n / 1_000_000_000) as int },
        Err(_) => 0,
    }
}

/// The wall clock in whole seconds since the Unix epoch.
pub fn unix_now_secs() -> (r: i64)
    ensures
        exists|w: Result<u128, u128>| r as int == unix_secs_of(w),
{
    let w = wall_clock_since_epoch();
    let r: i64 = match w {
        Ok(n) => {
            let s = n / 1_000_000_000;
            if s > i64::MAX as u128 { 0 } else { s as i64 }
        },
        Err(_) => 0,
    };
    assert(r as int == unix_secs_of(w));
    r
}

} // verus!
