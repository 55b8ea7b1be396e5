//! The end of a run: why it ends and what is said on the way out.

use crate::alert::AlertKind;
use vstd::prelude::*;

verus! {

/// What ended the run.
#[derive(Clone, Copy, Debug, PartialEq, Eq, Structural)]
pub enum ShutdownCause {
    /// The process was asked to stop by an interrupt or terminate signal.
    Signal,
    /// The task that supervises the workers ended by itself.
    MonitorExited,
    /// The health checker ended by itself.
    CheckerExited,
}

/// What the coordinator does once a cause is known.
#[derive(Clone, Copy, Debug, PartialEq, Eq, Structural)]
pub struct ShutdownPlan {
    /// Whether the end is to be reported as an error rather than a clean stop.
    pub abnormal: bool,
    /// The alert to raise before the process exits.
    pub announce: AlertKind,
}

/// The plan for each cause: a signal is a clean stop, a task that ended by
/// itself is an error, and either way the shutdown is announced.
pub open spec fn plan_for(cause: ShutdownCause) -> ShutdownPlan {
    ShutdownPlan { abnormal: !(cause is Signal), announce: AlertKind::Shutdown }
}

/// Decides what to do about the first cause that was seen.
pub fn plan_shutdown(cause: ShutdownCause) -> (plan: ShutdownPlan)
    ensures
        plan == plan_for(cause),
{
    let abnormal = match cause {
        ShutdownCause::Signal => false,
        ShutdownCause::MonitorExited => true,
        ShutdownCause::CheckerExited => true,
    };
    ShutdownPlan { abnormal, announce: AlertKind::Shutdown }
}

} // verus!
