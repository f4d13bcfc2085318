//! Throughput derived from two readings of a cumulative byte counter.
//!
//! Time is counted in nanoseconds; numeric rates are whole bytes per second,
//! rounded down. A reading that lies below its predecessor is taken as a
//! counter that restarted from zero, and an interval that is not positive is
//! replaced by one second.

use vstd::prelude::*;

verus! {

/// Nanoseconds in one second, the nominal sampling interval.
pub const NANOS_PER_SECOND: u128 = 1_000_000_000;

/// The largest rate two 64-bit counter readings can give: the full counter
/// range within a single nanosecond.
pub const RATE_LIMIT: u128 = 18_446_744_073_709_551_615_000_000_000;

/// The time between two updates, in nanoseconds. When the clock did not
/// advance, one second is taken instead.
pub open spec fn elapsed_nanos(last_update: nat, now: nat) -> nat {
    if now > last_update {
        (now - last_update) as nat
    } else {
        NANOS_PER_SECOND as nat
    }
}

/// The bytes counted between two readings of a cumulative counter. A counter
/// that went down has restarted, so the new reading is the whole increase.
pub open spec fn counter_delta(last: nat, current: nat) -> nat {
    if current >= last {
        (current - last) as nat
    } else {
        current
    }
}

/// `delta` bytes over `elapsed` nanoseconds, in whole bytes per second
/// (meaningful for `elapsed > 0`).
pub open spec fn bytes_per_second(delta: nat, elapsed: nat) -> nat {
    (delta * NANOS_PER_SECOND as nat) / elapsed
}

/// The rate between two counter readings taken at two instants.
pub open spec fn rate_between(last: nat, current: nat, last_update: nat, now: nat) -> nat {
    bytes_per_second(counter_delta(last, current), elapsed_nanos(last_update, now))
}

/// Computes [`elapsed_nanos`].
pub fn elapsed_since(last_update: u128, now: u128) -> (elapsed: u128)
    ensures
        elapsed == elapsed_nanos(last_update as nat, now as nat),
        elapsed > 0,
{
    if now > last_update {
        now - last_update
    } else {
        NANOS_PER_SECOND
    }
}

/// Computes [`counter_delta`].
pub fn delta_since(last: u64, current: u64) -> (delta: u64)
    ensures
        delta == counter_delta(last as nat, current as nat),
{
    if current >= last {
        current - last
    } else {
        current
    }
}

/// Computes [`bytes_per_second`].
pub fn rate_over(delta: u64, elapsed: u128) -> (rate: u128)
    requires
        elapsed > 0,
    ensures
        rate == bytes_per_second(delta as nat, elapsed as nat),
        rate <= RATE_LIMIT,
{
    let scaled: u128 = delta as u128 * NANOS_PER_SECOND;
    let rate = scaled / elapsed;
    proof {
        lemma_quotient_at_most_dividend(scaled as int, elapsed as int);
    }
    rate
}

/// Dividing a natural number by a positive one does not make it larger.
pub proof fn lemma_quotient_at_most_dividend(a: int, b: int)
    requires
        0 <= a,
        0 < b,
    ensures
        0 <= a / b <= a,
{
    assert(0 <= a / b <= a) by (nonlinear_arith)
        requires
            0 <= a,
            0 < b,
    ;
}

/// Every rate between two 64-bit readings stays within [`RATE_LIMIT`].
pub proof fn lemma_rate_within_limit(last: nat, current: nat, last_update: nat, now: nat)
    requires
        current <= u64::MAX,
    ensures
        rate_between(last, current, last_update, now) <= RATE_LIMIT,
{
    let delta = counter_delta(last, current);
    let elapsed = elapsed_nanos(last_update, now);
    lemma_quotient_at_most_dividend((delta * NANOS_PER_SECOND as nat) as int, elapsed as int);
}

} // verus!
