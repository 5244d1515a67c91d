//! Points in time as nanoseconds since the program started.

use vstd::prelude::*;

verus! {

/// Nanoseconds of one second.
pub const SECOND: u64 = 1_000_000_000;

/// Nanoseconds of one millisecond.
pub const MILLISECOND: u64 = 1_000_000;

/// The nanoseconds from `since` to `now`; none where `since` is later.
pub open spec fn elapsed(now: u64, since: u64) -> nat {
    if now >= since {
        (now - since) as nat
    } else {
        0
    }
}

/// The nanoseconds from `since` to `now`.
pub fn nanos_since(now: u64, since: u64) -> (r: u64)
    ensures
        r == elapsed(now, since),
{
    now.saturating_sub(since)
}

/// Whether more than `secs` seconds have passed since `since`.
pub fn longer_than(now: u64, since: u64, secs: u64) -> (r: bool)
    ensures
        r == (elapsed(now, since) > secs * SECOND),
{
    assert(secs * SECOND <= u128::MAX) by (nonlinear_arith)
        requires
            secs <= u64::MAX,
            SECOND == 1_000_000_000,
    ;
    nanos_since(now, since) as u128 > secs as u128 * SECOND as u128
}

/// The time that has passed and the time at which it began make up the present; none
/// has passed since a time that is still to come.
pub proof fn law_time_passed_makes_up_the_present(now: u64, since: u64)
    ensures
        now >= since ==> since + elapsed(now, since) == now,
        now < since ==> elapsed(now, since) == 0,
{
}

} // verus!
