//! The retry budget and the delay between attempts.

use vstd::arithmetic::power::{lemma_pow0, lemma_pow_increases, pow};
use vstd::arithmetic::power2::{lemma2_to64, lemma_pow2};
use vstd::prelude::*;

verus! {

/// Base of the exponential backoff, in seconds.
pub const BACKOFF_BASE: u64 = 2;

/// Number of failed attempts one fetch cycle tolerates. One more is fatal.
pub const MAX_RPC_FAILURES: u32 = 20;

/// Seconds to wait after the `failures`-th consecutive failed attempt:
/// `BACKOFF_BASE ^ failures` while the retry budget lasts, nothing once it
/// is exceeded.
pub open spec fn backoff_delay_spec(failures: nat) -> Option<nat> {
    if failures <= MAX_RPC_FAILURES {
        Some(pow(BACKOFF_BASE as int, failures) as nat)
    } else {
        None
    }
}

/// Seconds slept in total by a cycle that has backed off after each of its
/// first `failures` failed attempts.
pub open spec fn total_backoff(failures: nat) -> nat
    decreases failures,
{
    if failures == 0 {
        0
    } else {
        total_backoff((failures - 1) as nat) + pow(BACKOFF_BASE as int, failures) as nat
    }
}

/// Within the retry budget a delay is at least one second and at most
/// `2^20`, so it fits any integer type of 32 bits or more.
pub proof fn lemma_backoff_bounded(failures: nat)
    requires
        failures <= MAX_RPC_FAILURES,
    ensures
        1 <= pow(BACKOFF_BASE as int, failures) <= 1_048_576,
{
    lemma_pow0(2);
    lemma_pow_increases(2, 0, failures);
    lemma_pow_increases(2, failures, 20);
    lemma_pow2(20);
    lemma2_to64();
}

/// One more failure doubles the delay.
pub proof fn lemma_backoff_doubles(failures: nat)
    ensures
        pow(BACKOFF_BASE as int, failures + 1) == 2 * pow(BACKOFF_BASE as int, failures),
{
    reveal(pow);
}

/// Closed form of the cumulative sleep: `2^1 + ... + 2^n == 2^(n+1) - 2`.
pub proof fn lemma_total_backoff_closed_form(failures: nat)
    ensures
        total_backoff(failures) == pow(BACKOFF_BASE as int, failures + 1) - 2,
    decreases failures,
{
    if failures == 0 {
        lemma_backoff_doubles(0);
        lemma_pow0(2);
    } else {
        lemma_total_backoff_closed_form((failures - 1) as nat);
        lemma_backoff_doubles(failures);
        lemma_pow0(2);
        lemma_pow_increases(2, 0, failures);
    }
}

/// The delay before the next attempt after `failures` consecutive failed
/// ones, or `None` when the retry budget is exhausted.
pub fn backoff_delay(failures: u32) -> (delay: Option<u64>)
    ensures
        match delay {
            Some(secs) => backoff_delay_spec(failures as nat) == Some(secs as nat),
            None => backoff_delay_spec(failures as nat).is_none(),
        },
{
    if failures > MAX_RPC_FAILURES {
        return None;
    }
    let mut secs: u64 = 1;
    let mut done: u32 = 0;
    proof {
        lemma_pow0(2);
    }
    while done < failures
        invariant
            done <= failures <= MAX_RPC_FAILURES,
            secs == pow(BACKOFF_BASE as int, done as nat),
        decreases failures - done,
    {
        proof {
            lemma_backoff_bounded(done as nat);
            lemma_backoff_doubles(done as nat);
        }
        secs = secs * BACKOFF_BASE;
        done = done + 1;
    }
    Some(secs)
}

} // verus!
