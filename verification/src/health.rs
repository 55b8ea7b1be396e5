//! The periodic check of the fleet's health.

use crate::alert::AlertKind;
use crate::clock::{reading, Elapsed, HealthClock};
use vstd::prelude::*;

verus! {

/// Seconds between two checks.
pub const HEALTH_CHECK_INTERVAL_SECONDS: u64 = 60;

/// What one check has to announce: that the fleet seems down, exactly where the
/// last success lies further back than the timeout allows.
pub open spec fn down_alert(elapsed: Elapsed, max_success_timeout: u64) -> Option<AlertKind> {
    if elapsed.exceeds(max_success_timeout) {
        Some(AlertKind::Down)
    } else {
        None
    }
}

/// How many alerts a series of checks raises, one reading of the clock each.
pub open spec fn alerts_raised(readings: Seq<Elapsed>, max_success_timeout: u64) -> nat
    decreases readings.len(),
{
    if readings.len() == 0 {
        0
    } else {
        let here: nat = if down_alert(readings.last(), max_success_timeout) is Some {
            1
        } else {
            0
        };
        alerts_raised(readings.drop_last(), max_success_timeout) + here
    }
}

/// Judges one reading of the clock. The clock itself is only looked at.
pub fn check_health(elapsed: Elapsed, max_success_timeout: u64) -> (alert: Option<AlertKind>)
    ensures
        alert == down_alert(elapsed, max_success_timeout),
{
    if elapsed.is_longer_than(max_success_timeout) {
        Some(AlertKind::Down)
    } else {
        None
    }
}

/// Reads the clock and judges the reading. What the clock says is open, so the
/// result is the judgement of the span between some two readings of it:
/// silence, or the alert that the fleet seems down. The clock is only looked
/// at.
pub fn check_clock(clock: &HealthClock, max_success_timeout: u64) -> (alert: Option<AlertKind>)
    ensures
        exists|stored: u64, now: u64|
            alert == down_alert(#[trigger] reading(stored, now), max_success_timeout),
        alert is None || alert == Some(AlertKind::Down),
{
    let elapsed = clock.elapsed_since_success();
    check_health(elapsed, max_success_timeout)
}

/// While every reading stays within the timeout, no check raises an alert.
pub proof fn lemma_silent_while_healthy(readings: Seq<Elapsed>, max_success_timeout: u64)
    requires
        forall|i: int|
            0 <= i < readings.len() ==> !(#[trigger] readings[i]).exceeds(max_success_timeout),
    ensures
        alerts_raised(readings, max_success_timeout) == 0,
    decreases readings.len(),
{
    if readings.len() > 0 {
        lemma_silent_while_healthy(readings.drop_last(), max_success_timeout);
    }
}

/// Every check whose reading exceeds the timeout raises the alert once, and no
/// other check raises any: the alerts are as many as those readings.
pub proof fn lemma_one_alert_per_late_reading(readings: Seq<Elapsed>, max_success_timeout: u64)
    ensures
        alerts_raised(readings, max_success_timeout) == readings.filter(
            |elapsed: Elapsed| elapsed.exceeds(max_success_timeout),
        ).len(),
        forall|i: int|
            0 <= i < readings.len() ==> (#[trigger] readings[i]).exceeds(max_success_timeout)
                == (down_alert(readings[i], max_success_timeout) == Some(AlertKind::Down)),
    decreases readings.len(),
{
    reveal(Seq::filter);
    if readings.len() > 0 {
        lemma_one_alert_per_late_reading(readings.drop_last(), max_success_timeout);
    }
}

} // verus!
