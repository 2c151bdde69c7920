//! Time as nanoseconds of a monotonic clock.

use vstd::prelude::*;

verus! {

/// One second.
pub const NANOS_PER_SECOND: u64 = 1_000_000_000;

/// The nanoseconds from `since` to `now`; none where `since` is not in the
/// past.
pub open spec fn age(since: u64, now: u64) -> u64 {
    if since <= now {
        (now - since) as u64
    } else {
        0
    }
}

/// The nanoseconds from `since` to `now`.
pub fn elapsed(since: u64, now: u64) -> (r: u64)
    ensures
        r == age(since, now),
{
    if since <= now {
        now - since
    } else {
        0
    }
}

/// Time goes by from one moment to a later one, and not backwards.
pub proof fn law_calls_measure_time(since: u64, now: u64, r: u64)
    ensures
        call_ensures(elapsed, (since, now), r) ==> r == (if now >= since {
            now - since
        } else {
            0
        }),
{
}

} // verus!
