//! Exponential backoff policy for failed connection attempts.
//!
//! Consecutive failed connect attempts wait 500ms, 1s, 2s, 4s, then 5s
//! forever; a successful connection resets the sequence.

use vstd::prelude::*;

use crate::{INITIAL_RECONNECT_DELAY_MS, MAX_RECONNECT_DELAY_MS};

verus! {

/// The reconnect delay, in milliseconds, before the attempt that follows
/// `attempts` consecutive failures: the initial delay doubled per failure
/// and capped at the maximum.
pub open spec fn backoff_spec(attempts: u32) -> u64 {
    if attempts >= 4 {
        MAX_RECONNECT_DELAY_MS
    } else {
        (INITIAL_RECONNECT_DELAY_MS * pow2_spec(attempts as nat)) as u64
    }
}

/// 2 to the power `n`.
pub open spec fn pow2_spec(n: nat) -> nat
    decreases n,
{
    if n == 0 {
        1
    } else {
        2 * pow2_spec((n - 1) as nat)
    }
}

/// Computes the reconnect delay after `attempts` consecutive failures.
pub fn backoff_delay_ms(attempts: u32) -> (delay: u64)
    ensures
        delay == backoff_spec(attempts),
{
    proof {
        assert(pow2_spec(0) == 1);
        assert(pow2_spec(1) == 2);
        assert(pow2_spec(2) == 4);
        assert(pow2_spec(3) == 8);
    }
    if attempts >= 4 {
        MAX_RECONNECT_DELAY_MS
    } else if attempts == 3 {
        4000
    } else if attempts == 2 {
        2000
    } else if attempts == 1 {
        1000
    } else {
        INITIAL_RECONNECT_DELAY_MS
    }
}

/// Backoff delays never decrease from one failure to the next and never
/// exceed the cap; the very first delay is the initial delay.
pub proof fn lemma_backoff_monotone_capped(attempts: u32)
    ensures
        attempts < u32::MAX ==> backoff_spec(attempts) <= backoff_spec((attempts + 1) as u32),
        backoff_spec(attempts) <= MAX_RECONNECT_DELAY_MS,
        backoff_spec(0) == INITIAL_RECONNECT_DELAY_MS,
{
    assert(pow2_spec(0) == 1);
    assert(pow2_spec(1) == 2);
    assert(pow2_spec(2) == 4);
    assert(pow2_spec(3) == 8);
}

} // verus!
