//! Instants, as nanoseconds since the Unix epoch, and the clock.
use vstd::prelude::*;

verus! {

/// The earliest instant a timestamp can hold (the start of year -9999, UTC).
pub const EARLIEST_INSTANT: i128 = -377_705_116_800_000_000_000;

/// The latest instant a timestamp can hold (the last nanosecond of year 9999, UTC).
pub const LATEST_INSTANT: i128 = 253_402_300_799_999_999_999;

/// Nanoseconds in one second.
pub const NANOS_PER_SEC: i128 = 1_000_000_000;

/// The earliest instant a timestamp can hold, in whole seconds.
pub const EARLIEST_SECS: i64 = -377_705_116_800;

/// The latest second a timestamp can hold.
pub const LATEST_SECS: i64 = 253_402_300_799;

/// The whole second (rounded down) of an instant given in nanoseconds.
pub open spec fn unix_secs(instant: int) -> int {
    instant / (NANOS_PER_SEC as int)
}

/// Whether an instant can be held by a timestamp.
pub open spec fn representable(instant: int) -> bool {
    EARLIEST_INSTANT <= instant <= LATEST_INSTANT
}

/// The whole second (rounded down) of a representable instant.
pub fn secs_of(instant: i128) -> (r: i64)
    requires
        representable(instant as int),
    ensures
        r == unix_secs(instant as int),
        EARLIEST_SECS <= r <= LATEST_SECS,
{
    let shifted: u128 = (instant - EARLIEST_INSTANT) as u128;
    let whole: u128 = shifted / 1_000_000_000u128;
    assert(whole <= 631_107_417_599u128) by (nonlinear_arith)
        requires
            shifted <= 631_107_417_599_999_999_999u128,
            whole == shifted / 1_000_000_000u128,
    ;
    let r: i64 = (whole as i64) + EARLIEST_SECS;
    assert(r == unix_secs(instant as int)) by (nonlinear_arith)
        requires
            shifted == instant - EARLIEST_INSTANT,
            shifted >= 0,
            whole == shifted / 1_000_000_000,
            r == whole + EARLIEST_SECS,
            EARLIEST_INSTANT == EARLIEST_SECS * 1_000_000_000,
            NANOS_PER_SEC == 1_000_000_000,
    ;
    r
}

/// The current time (`time::OffsetDateTime::now_utc`), in nanoseconds since
/// the Unix epoch. Claimed: the instant is one a timestamp can hold, which is
/// true of every `OffsetDateTime`. Which instant comes back is not stated.
#[verifier::external_body]
pub fn now_unix_nanos() -> (r: i128)
    ensures
        representable(r as int),
{
    time::OffsetDateTime::now_utc().unix_timestamp_nanos()
}

} // verus!
