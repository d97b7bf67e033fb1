//! The wall clock.
use vstd::prelude::*;

verus! {

/// Reads `std::time::SystemTime::now()` and its `duration_since(UNIX_EPOCH)`
/// in whole seconds; `None` when the clock is set before the epoch. Not
/// stated: the value, which is the time.
#[verifier::external_body]
fn seconds_since_epoch() -> (r: Option<u64>) {
    std::time::SystemTime::now().duration_since(std::time::UNIX_EPOCH).ok().map(|d| d.as_secs())
}

/// A clock reading as a Unix timestamp: the seconds converted with `as i64`,
/// 0 when the clock is before the epoch.
pub fn timestamp_from(secs: Option<u64>) -> (t: i64)
    ensures
        t == (match secs {
            Some(s) => s as i64,
            None => 0,
        }),
{
    match secs {
        Some(s) => s as i64,
        None => 0,
    }
}

/// The current Unix time in seconds (see `timestamp_from`).
pub fn chrono_now() -> (t: i64) {
    timestamp_from(seconds_since_epoch())
}

} // verus!
