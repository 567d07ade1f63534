//! The validity window of the local certificate authority.
use vstd::prelude::*;

verus! {

/// Seconds in a day.
pub const DAY_SECONDS: i64 = 86400;

/// Relies on `time::OffsetDateTime::now_utc` and `unix_timestamp`: the
/// current time in seconds since the Unix epoch. Nothing is known of it.
#[verifier::external_body]
fn now_unix_timestamp() -> (r: i64) {
    time::OffsetDateTime::now_utc().unix_timestamp()
}

/// The window from one day before `now` to one day after it, in seconds
/// since the Unix epoch, or `None` where either end does not fit an `i64`.
pub fn validity_period_at(now: i64) -> (r: Option<(i64, i64)>)
    ensures
        r is Some <==> (i64::MIN <= now - DAY_SECONDS && now + DAY_SECONDS <= i64::MAX),
        r is Some ==> r->Some_0.0 == now - DAY_SECONDS && r->Some_0.1 == now + DAY_SECONDS,
{
    let yesterday = now.checked_sub(DAY_SECONDS);
    let tomorrow = now.checked_add(DAY_SECONDS);
    match (yesterday, tomorrow) {
        (Some(y), Some(t)) => Some((y, t)),
        _ => None,
    }
}

/// The window from one day before now to one day after it. Whatever the
/// clock says, the window is two days long and its ends are a day from the
/// same instant.
pub fn validity_period() -> (r: Option<(i64, i64)>)
    ensures
        r is Some ==> r->Some_0.1 - r->Some_0.0 == 2 * DAY_SECONDS,
{
    let now = now_unix_timestamp();
    validity_period_at(now)
}

} // verus!
