//! Exponential backoff after failed fetches.

use vstd::arithmetic::power2::{
    lemma2_to64, lemma_pow2_pos, lemma_pow2_strictly_increases, lemma_pow2_unfold, pow2,
};
use crate::fetch::{FetchOutcome, OutcomeModel};
use vstd::prelude::*;

verus! {

/// Longest pause, in seconds, that a worker takes between two attempts.
pub const MAX_BACKOFF_SECONDS: u64 = 60;

/// The pause after the `failures`-th failure in a row: two to that power, held
/// down to `cap`.
pub open spec fn backoff_seconds(failures: nat, cap: nat) -> nat {
    if pow2(failures) <= cap {
        pow2(failures)
    } else {
        cap
    }
}

/// Seconds to wait after `failures` consecutive failed fetches, never more
/// than `cap`.
pub fn backoff_delay(failures: u32, cap: u64) -> (delay: u64)
    ensures
        delay == backoff_seconds(failures as nat, cap as nat),
        delay <= cap,
{
    let mut delay: u64 = 1;
    let mut doubled: u32 = 0;
    proof {
        lemma2_to64();
    }
    if cap == 0 {
        proof {
            lemma_pow2_pos(failures as nat);
        }
        return 0;
    }
    while doubled < failures
        invariant
            doubled <= failures,
            delay == pow2(doubled as nat),
            delay <= cap,
        decreases failures - doubled,
    {
        proof {
            lemma_pow2_unfold((doubled + 1) as nat);
        }
        if delay > cap - delay {
            proof {
                if doubled + 1 < failures {
                    lemma_pow2_strictly_increases((doubled + 1) as nat, failures as nat);
                }
            }
            return cap;
        }
        delay = delay + delay;
        doubled = doubled + 1;
    }
    delay
}

/// The failures at the end of a history of outcomes: those since the last
/// success, or all of them where nothing succeeded yet.
pub open spec fn failures_since_success(history: Seq<OutcomeModel>) -> nat
    decreases history.len(),
{
    if history.len() == 0 {
        0
    } else if history.last() is Success {
        0
    } else {
        1 + failures_since_success(history.drop_last())
    }
}

/// The count that a worker holds after one more outcome: back to zero on a
/// success, one more on a failure, as far as the counter reaches.
pub open spec fn count_after(count: u32, outcome: OutcomeModel) -> u32 {
    if outcome is Success {
        0
    } else if count < u32::MAX {
        (count + 1) as u32
    } else {
        u32::MAX
    }
}

/// The count that a worker holds after a whole history, from `count` on.
pub open spec fn count_after_all(count: u32, history: Seq<OutcomeModel>) -> u32
    decreases history.len(),
{
    if history.len() == 0 {
        count
    } else {
        count_after(count_after_all(count, history.drop_last()), history.last())
    }
}

/// A worker's own record of how its last fetches went.
#[derive(Clone, Copy, Debug, PartialEq, Eq)]
pub struct BackoffState {
    pub consecutive_failures: u32,
}

impl BackoffState {
    /// The record of a worker that has not fetched yet.
    pub fn new() -> (state: Self)
        ensures
            state.consecutive_failures == 0,
    {
        BackoffState { consecutive_failures: 0 }
    }

    /// Takes note of one outcome.
    pub fn record(&mut self, outcome: &FetchOutcome)
        ensures
            final(self).consecutive_failures == count_after(
                old(self).consecutive_failures,
                outcome@,
            ),
    {
        if outcome.succeeded() {
            self.consecutive_failures = 0;
        } else if self.consecutive_failures < u32::MAX {
            self.consecutive_failures = self.consecutive_failures + 1;
        }
    }

    /// Seconds to wait before the next attempt, never more than `cap`.
    pub fn delay(&self, cap: u64) -> (seconds: u64)
        ensures
            seconds == backoff_seconds(self.consecutive_failures as nat, cap as nat),
            seconds <= cap,
    {
        backoff_delay(self.consecutive_failures, cap)
    }
}

/// Whatever the outcomes were, a worker that started at zero holds exactly the
/// number of failures since its last success, or since its start where it had
/// none; a counter that is full stays full.
pub proof fn lemma_count_is_failures_since_success(history: Seq<OutcomeModel>)
    ensures
        count_after_all(0, history) == if failures_since_success(history) <= u32::MAX {
            failures_since_success(history)
        } else {
            u32::MAX as nat
        },
    decreases history.len(),
{
    if history.len() > 0 {
        lemma_count_is_failures_since_success(history.drop_last());
    }
}

/// The pause is the smaller of the cap and two to the number of failures: it
/// never exceeds the cap, and it never shrinks as failures add up.
pub proof fn lemma_backoff_bounded_and_monotonic(fewer: nat, more: nat, cap: nat)
    requires
        fewer <= more,
    ensures
        backoff_seconds(more, cap) <= cap,
        backoff_seconds(fewer, cap) <= backoff_seconds(more, cap),
        backoff_seconds(more, cap) == vstd::math::min(cap as int, pow2(more) as int),
{
    if fewer < more {
        lemma_pow2_strictly_increases(fewer, more);
    }
}

} // verus!
