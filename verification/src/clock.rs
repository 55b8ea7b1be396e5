//! The fleet's shared clock: when a fetch last succeeded.

use atomic_instant::AtomicInstant;
use vstd::prelude::*;

verus! {

/// Nanoseconds in one second.
pub const NANOS_PER_SECOND: u32 = 1_000_000_000;

/// A span of time as whole seconds and the nanoseconds beyond them.
#[derive(Clone, Copy, Debug, PartialEq, Eq)]
pub struct Elapsed {
    pub seconds: u64,
    pub subsec_nanos: u32,
}

impl Elapsed {
    /// The span in nanoseconds.
    pub open spec fn nanos(self) -> int {
        self.seconds * NANOS_PER_SECOND + self.subsec_nanos
    }

    /// Whether the span is strictly longer than `limit_seconds` seconds.
    pub open spec fn exceeds(self, limit_seconds: u64) -> bool {
        self.nanos() > limit_seconds * NANOS_PER_SECOND
    }

    /// A span of whole seconds.
    pub fn from_seconds(seconds: u64) -> (span: Self)
        ensures
            span.seconds == seconds,
            span.subsec_nanos == 0,
            span.nanos() == seconds * NANOS_PER_SECOND,
    {
        Elapsed { seconds, subsec_nanos: 0 }
    }

    /// Whether the span is strictly longer than `limit_seconds` seconds.
    pub fn is_longer_than(&self, limit_seconds: u64) -> (longer: bool)
        ensures
            longer == self.exceeds(limit_seconds),
    {
        let span: u128 = self.seconds as u128 * 1_000_000_000u128 + self.subsec_nanos as u128;
        let limit: u128 = limit_seconds as u128 * 1_000_000_000u128;
        span > limit
    }
}

/// The milliseconds from one reading of the clock to a later one. A reading
/// that lies before the one it is measured from counts as no time at all.
pub open spec fn millis_between(earlier: u64, later: u64) -> int {
    if later >= earlier {
        later - earlier
    } else {
        0
    }
}

/// The span from one reading of the clock to a later one, both in
/// milliseconds.
pub open spec fn reading(earlier: u64, later: u64) -> Elapsed {
    Elapsed {
        seconds: (millis_between(earlier, later) / 1000) as u64,
        subsec_nanos: ((millis_between(earlier, later) % 1000) * 1_000_000) as u32,
    }
}

/// Measures the span from one reading of the clock to a later one.
pub fn span_between(earlier: u64, later: u64) -> (span: Elapsed)
    ensures
        span == reading(earlier, later),
        span.subsec_nanos < NANOS_PER_SECOND,
        span.nanos() == millis_between(earlier, later) * 1_000_000,
{
    let millis: u64 = if later >= earlier {
        later - earlier
    } else {
        0
    };
    let beyond: u32 = (millis % 1000) as u32;
    Elapsed { seconds: millis / 1000, subsec_nanos: beyond * 1_000_000 }
}

#[verifier::external_type_specification]
#[verifier::external_body]
pub struct ExAtomicInstant(AtomicInstant);

/// `AtomicInstant::now`: a fresh instant that holds the current reading of the
/// clock. Nothing is claimed of the reading.
#[verifier::external_body]
fn instant_now() -> AtomicInstant {
    AtomicInstant::now()
}

/// `AtomicInstant::set_now`: stores the current reading of the clock through a
/// shared reference. Nothing is claimed of the reading.
#[verifier::external_body]
fn instant_set_now(instant: &AtomicInstant) {
    instant.set_now()
}

/// `AtomicInstant::as_millis`: one load of the stored reading, in
/// milliseconds. Nothing is claimed of the reading.
#[verifier::external_body]
fn instant_millis(instant: &AtomicInstant) -> u64 {
    instant.as_millis()
}

/// The moment of the last successful fetch over all accounts. Any worker may
/// move it forward through a shared reference; it can only be set to the
/// present, never rewound.
pub struct HealthClock {
    last_success: AtomicInstant,
}

impl HealthClock {
    /// A clock that starts now, as if a fetch had just succeeded.
    pub fn new() -> (clock: Self) {
        HealthClock { last_success: instant_now() }
    }

    /// Notes that a fetch succeeded just now. The last writer wins.
    pub fn now_success(&self) {
        instant_set_now(&self.last_success)
    }

    /// The time since the last noted success: the span from the stored
    /// reading to a reading taken now, in whole milliseconds. The stored one is
    /// loaded first, so that a success noted meanwhile cannot lie after the
    /// reading it is measured against.
    pub fn elapsed_since_success(&self) -> (span: Elapsed)
        ensures
            exists|stored: u64, now: u64| span == #[trigger] reading(stored, now),
            span.subsec_nanos < NANOS_PER_SECOND,
    {
        let stored: u64 = instant_millis(&self.last_success);
        let present = instant_now();
        let now: u64 = instant_millis(&present);
        span_between(stored, now)
    }
}

} // verus!
