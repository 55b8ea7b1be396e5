//! One worker's turn: what follows from the outcome of a fetch.

use crate::alert::AlertKind;
use crate::backoff::{backoff_seconds, count_after, BackoffState};
use crate::clock::{reading, Elapsed, HealthClock};
use crate::fetch::{FetchOutcome, OutcomeModel};
use vstd::prelude::*;

verus! {

/// What a worker has to do after one fetch, before the next.
#[derive(Clone, Copy, Debug, PartialEq, Eq, Structural)]
pub struct WorkerAction {
    /// Whether the shared clock is to be set to now.
    pub mark_success: bool,
    /// The alert to raise, if any. Failing to raise it stops nothing.
    pub announce: Option<AlertKind>,
    /// Seconds to pause before the next attempt; zero after a success.
    pub pause_seconds: u64,
}

/// The action that an outcome calls for. `failures` is the worker's count with
/// this outcome included, `elapsed` the clock's reading before the outcome
/// touched it. A success that ends an outage is announced; a failure is
/// followed by a pause that doubles with every failure in a row, up to `cap`.
pub open spec fn action_for(
    failures: u32,
    outcome: OutcomeModel,
    elapsed: Elapsed,
    max_success_timeout: u64,
    cap: u64,
) -> WorkerAction {
    if outcome is Success {
        WorkerAction {
            mark_success: true,
            announce: if elapsed.exceeds(max_success_timeout) {
                Some(AlertKind::Recovered)
            } else {
                None
            },
            pause_seconds: 0,
        }
    } else {
        WorkerAction {
            mark_success: false,
            announce: None,
            pause_seconds: backoff_seconds(failures as nat, cap as nat) as u64,
        }
    }
}

/// The worker of one proxy account.
#[derive(Clone, Copy, Debug, PartialEq, Eq)]
pub struct ProxyWorker {
    pub backoff: BackoffState,
}

impl ProxyWorker {
    /// A worker that has not fetched yet.
    pub fn new() -> (worker: Self)
        ensures
            worker.backoff.consecutive_failures == 0,
    {
        ProxyWorker { backoff: BackoffState::new() }
    }

    /// Takes in the outcome of one fetch, given the clock's reading from before
    /// it, and says what to do next.
    pub fn step(
        &mut self,
        outcome: &FetchOutcome,
        elapsed: Elapsed,
        max_success_timeout: u64,
        cap: u64,
    ) -> (action: WorkerAction)
        ensures
            final(self).backoff.consecutive_failures == count_after(
                old(self).backoff.consecutive_failures,
                outcome@,
            ),
            action == action_for(
                final(self).backoff.consecutive_failures,
                outcome@,
                elapsed,
                max_success_timeout,
                cap,
            ),
            action.pause_seconds <= cap,
    {
        self.backoff.record(outcome);
        if outcome.succeeded() {
            let announce = if elapsed.is_longer_than(max_success_timeout) {
                Some(AlertKind::Recovered)
            } else {
                None
            };
            WorkerAction { mark_success: true, announce, pause_seconds: 0 }
        } else {
            WorkerAction {
                mark_success: false,
                announce: None,
                pause_seconds: self.backoff.delay(cap),
            }
        }
    }

    /// Takes in the outcome of one fetch against the shared clock: reads the
    /// clock, sets it to now if the fetch succeeded, and says what else to do.
    /// The reading is whatever the clock gave, so the action is the one that
    /// `step` gives for the span between some two readings of the clock.
    pub fn observe(
        &mut self,
        outcome: &FetchOutcome,
        clock: &HealthClock,
        max_success_timeout: u64,
        cap: u64,
    ) -> (action: WorkerAction)
        ensures
            final(self).backoff.consecutive_failures == count_after(
                old(self).backoff.consecutive_failures,
                outcome@,
            ),
            exists|stored: u64, now: u64|
                action == action_for(
                    final(self).backoff.consecutive_failures,
                    outcome@,
                    #[trigger] reading(stored, now),
                    max_success_timeout,
                    cap,
                ),
            action.pause_seconds <= cap,
    {
        let elapsed = clock.elapsed_since_success();
        let action = self.step(outcome, elapsed, max_success_timeout, cap);
        if action.mark_success {
            clock.now_success();
        }
        action
    }
}

/// Whether a success that reaches the clock at `now`, when the clock was last
/// set at `stored`, ends an outage and is announced. Both are readings of the
/// clock in milliseconds.
pub open spec fn ends_outage(stored: u64, now: u64, max_success_timeout: u64) -> bool {
    reading(stored, now).exceeds(max_success_timeout)
}

/// One worker's turn at the shared clock after a success: the reading that
/// it found the present at, and the reading that it then set the clock to.
pub struct Turn {
    pub read_at: u64,
    pub set_to: u64,
}

/// How many recoveries are announced, by all workers together, over a run of
/// successes. The workers take their turns at the clock one after another, in
/// the order of `turns`. `stored` is where the clock stood before the first of
/// them.
pub open spec fn recoveries(stored: u64, turns: Seq<Turn>, max_success_timeout: u64) -> nat
    decreases turns.len(),
{
    if turns.len() == 0 {
        0
    } else {
        let here: nat = if ends_outage(stored, turns[0].read_at, max_success_timeout) {
            1
        } else {
            0
        };
        here + recoveries(turns[0].set_to, turns.drop_first(), max_success_timeout)
    }
}

/// Whether every turn but the first finds the clock where the turn before it
/// left it, or close enough: no further back than the timeout allows.
pub open spec fn follow_in_time(turns: Seq<Turn>, max_success_timeout: u64) -> bool {
    forall|i: int|
        0 < i < turns.len() ==> !ends_outage(
            turns[i - 1].set_to,
            (#[trigger] turns[i]).read_at,
            max_success_timeout,
        )
}

/// A success is announced by `step` exactly if it ends an outage, whichever
/// worker it comes from and whatever that worker went through before.
pub proof fn lemma_recovery_announced_iff_outage_ends(
    failures: u32,
    bytes: usize,
    stored: u64,
    now: u64,
    max_success_timeout: u64,
    cap: u64,
)
    ensures
        action_for(
            failures,
            OutcomeModel::Success { bytes },
            reading(stored, now),
            max_success_timeout,
            cap,
        ).announce == if ends_outage(stored, now, max_success_timeout) {
            Some(AlertKind::Recovered)
        } else {
            None
        },
{
}

/// While the first turn finds the clock in time and every later one follows
/// in time, no recovery is announced.
pub proof fn lemma_no_recovery_without_outage(
    stored: u64,
    turns: Seq<Turn>,
    max_success_timeout: u64,
)
    requires
        turns.len() > 0 ==> !ends_outage(stored, turns[0].read_at, max_success_timeout),
        follow_in_time(turns, max_success_timeout),
    ensures
        recoveries(stored, turns, max_success_timeout) == 0,
    decreases turns.len(),
{
    if turns.len() > 0 {
        lemma_rest_follows_in_time(turns, max_success_timeout);
        lemma_no_recovery_without_outage(
            turns[0].set_to,
            turns.drop_first(),
            max_success_timeout,
        );
    }
}

/// One outage, one announcement: where the first success after an outage finds
/// the clock further back than the timeout allows, and every later success
/// follows in time, exactly one recovery is announced over all workers, by the
/// worker whose success came first.
pub proof fn lemma_one_recovery_per_outage(
    stored: u64,
    turns: Seq<Turn>,
    max_success_timeout: u64,
)
    requires
        turns.len() > 0,
        ends_outage(stored, turns[0].read_at, max_success_timeout),
        follow_in_time(turns, max_success_timeout),
    ensures
        recoveries(stored, turns, max_success_timeout) == 1,
        recoveries(turns[0].set_to, turns.drop_first(), max_success_timeout) == 0,
{
    lemma_rest_follows_in_time(turns, max_success_timeout);
    lemma_no_recovery_without_outage(turns[0].set_to, turns.drop_first(), max_success_timeout);
}

/// Turns that follow in time still do so without the first of them, and the
/// second finds the clock in time after the first.
proof fn lemma_rest_follows_in_time(turns: Seq<Turn>, max_success_timeout: u64)
    requires
        turns.len() > 0,
        follow_in_time(turns, max_success_timeout),
    ensures
        follow_in_time(turns.drop_first(), max_success_timeout),
        turns.len() > 1 ==> !ends_outage(
            turns[0].set_to,
            turns.drop_first()[0].read_at,
            max_success_timeout,
        ),
{
    let rest = turns.drop_first();
    assert forall|i: int| 0 < i < rest.len() implies !ends_outage(
        rest[i - 1].set_to,
        (#[trigger] rest[i]).read_at,
        max_success_timeout,
    ) by {
        assert(rest[i] == turns[i + 1]);
        assert(rest[i - 1] == turns[i]);
    }
    if rest.len() > 0 {
        assert(rest[0] == turns[1]);
    }
}

} // verus!
