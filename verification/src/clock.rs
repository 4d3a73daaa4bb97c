//! Calendar arithmetic on Unix timestamps, done by the `chrono` crate.

use vstd::prelude::*;

verus! {

/// Seconds in a day; the calendar used here knows no leap seconds.
pub const SECONDS_PER_DAY: i64 = 86_400;

/// The last second the calendar can name: the end of the year 262142.
pub const MAX_TIMESTAMP: i64 = 8_210_266_876_799;

/// The Unix time `days` days after the Unix time `seconds`, as `chrono`
/// reckons it: `DateTime::from_timestamp` makes the instant,
/// `TimeDelta::try_days` the span, `DateTime::checked_add_signed` adds them
/// and `DateTime::timestamp` reads the sum. Each step gives up outside the
/// calendar's range; from the epoch up to [`MAX_TIMESTAMP`] none does.
#[verifier::external_body]
pub(crate) fn timestamp_after_days(seconds: i64, days: i64) -> (later: Option<i64>)
    ensures
        later matches Some(t) ==> t == seconds + days * SECONDS_PER_DAY,
        0 <= seconds && 0 <= days && seconds + days * SECONDS_PER_DAY <= MAX_TIMESTAMP
            ==> later is Some,
{
    let start = chrono::DateTime::from_timestamp(seconds, 0)?;
    let span = chrono::TimeDelta::try_days(days)?;
    Some(start.checked_add_signed(span)?.timestamp())
}

/// Whether a moment `days` days after `now` can be named: `now` is not
/// before the epoch and the later moment not after [`MAX_TIMESTAMP`].
pub open spec fn can_add_days(now: int, days: int) -> bool {
    0 <= now && 0 <= days && now + days * SECONDS_PER_DAY <= MAX_TIMESTAMP
}

/// The Unix time `days` days after `now`.
pub fn add_days(now: i64, days: i64) -> (later: i64)
    requires
        can_add_days(now as int, days as int),
    ensures
        later == now + days * SECONDS_PER_DAY,
{
    timestamp_after_days(now, days).unwrap()
}

/// Tests [`can_add_days`].
pub fn days_can_be_added(now: i64, days: i64) -> (ok: bool)
    ensures
        ok == can_add_days(now as int, days as int),
{
    if now < 0 || days < 0 {
        return false;
    }
    if days > MAX_TIMESTAMP / SECONDS_PER_DAY {
        assert(days * SECONDS_PER_DAY > MAX_TIMESTAMP) by (nonlinear_arith)
            requires
                days > MAX_TIMESTAMP / SECONDS_PER_DAY,
                SECONDS_PER_DAY == 86_400,
                MAX_TIMESTAMP == 8_210_266_876_799,
        ;
        return false;
    }
    assert(days * SECONDS_PER_DAY <= 8_210_266_876_799) by (nonlinear_arith)
        requires
            0 <= days <= MAX_TIMESTAMP / SECONDS_PER_DAY,
            SECONDS_PER_DAY == 86_400,
            MAX_TIMESTAMP == 8_210_266_876_799,
    ;
    now <= MAX_TIMESTAMP - days * SECONDS_PER_DAY
}

} // verus!
