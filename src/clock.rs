//! The system clock, read without panicking: a clock set before the Unix
//! epoch yields no reading.
use vstd::prelude::*;

verus! {

/// Relies on std::time::SystemTime::now and SystemTime::duration_since:
/// the whole seconds and the nanoseconds (below one second) elapsed since
/// the Unix epoch, none when the clock reads earlier than the epoch.
#[verifier::external_body]
fn since_unix_epoch() -> (r: Option<(u64, u32)>)
    ensures
        r matches Some((_, nanos)) ==> nanos < 1_000_000_000,
{
    std::time::SystemTime::now().duration_since(std::time::UNIX_EPOCH).ok().map(
        |d| (d.as_secs(), d.subsec_nanos()),
    )
}

/// Largest count of seconds whose milliseconds fit in an `i64`.
pub const MAX_SECS_FOR_MILLIS: u64 = 9_223_372_036_854_774;

/// Largest count of seconds whose microseconds fit in an `i64`.
pub const MAX_SECS_FOR_MICROS: u64 = 9_223_372_036_853;

/// A clock reading (seconds and nanoseconds since the Unix epoch) in
/// milliseconds, if it fits.
pub open spec fn spec_millis_of(reading: Option<(u64, u32)>) -> Option<i64> {
    match reading {
        Some((s, n)) => if s <= MAX_SECS_FOR_MILLIS {
            Some((s * 1000 + n / 1_000_000) as i64)
        } else {
            None
        },
        None => None,
    }
}

/// A clock reading in microseconds, if it fits.
pub open spec fn spec_micros_of(reading: Option<(u64, u32)>) -> Option<i64> {
    match reading {
        Some((s, n)) => if s <= MAX_SECS_FOR_MICROS {
            Some((s * 1_000_000 + n / 1000) as i64)
        } else {
            None
        },
        None => None,
    }
}

/// Milliseconds of a clock reading whose nanoseconds are below a second.
pub fn millis_of(reading: Option<(u64, u32)>) -> (r: Option<i64>)
    requires
        reading matches Some((_, n)) ==> n < 1_000_000_000,
    ensures
        r == spec_millis_of(reading),
        r matches Some(t) ==> t >= 0,
{
    match reading {
        None => None,
        Some((secs, nanos)) => {
            if secs > MAX_SECS_FOR_MILLIS {
                None
            } else {
                assert(secs * 1000 <= MAX_SECS_FOR_MILLIS * 1000) by (nonlinear_arith)
                    requires
                        secs <= MAX_SECS_FOR_MILLIS,
                ;
                let ms = secs * 1000 + (nanos / 1_000_000) as u64;
                Some(ms as i64)
            }
        },
    }
}

/// Microseconds of a clock reading whose nanoseconds are below a second.
pub fn micros_of(reading: Option<(u64, u32)>) -> (r: Option<i64>)
    requires
        reading matches Some((_, n)) ==> n < 1_000_000_000,
    ensures
        r == spec_micros_of(reading),
        r matches Some(t) ==> t >= 0,
{
    match reading {
        None => None,
        Some((secs, nanos)) => {
            if secs > MAX_SECS_FOR_MICROS {
                None
            } else {
                assert(secs * 1_000_000 <= MAX_SECS_FOR_MICROS * 1_000_000) by (nonlinear_arith)
                    requires
                        secs <= MAX_SECS_FOR_MICROS,
                ;
                let us = secs * 1_000_000 + (nanos / 1000) as u64;
                Some(us as i64)
            }
        },
    }
}

/// Milliseconds since the Unix epoch by the system clock: the conversion of
/// some reading.
pub(crate) fn now_millis() -> (r: Option<i64>)
    ensures
        r matches Some(t) ==> t >= 0 && exists|s: u64, n: u32|
            n < 1_000_000_000 && spec_millis_of(Some((s, n))) == Some(t),
{
    let reading = since_unix_epoch();
    millis_of(reading)
}

/// Microseconds since the Unix epoch by the system clock: the conversion of
/// some reading.
pub(crate) fn now_micros() -> (r: Option<i64>)
    ensures
        r matches Some(t) ==> t >= 0 && exists|s: u64, n: u32|
            n < 1_000_000_000 && spec_micros_of(Some((s, n))) == Some(t),
{
    let reading = since_unix_epoch();
    micros_of(reading)
}

} // verus!
