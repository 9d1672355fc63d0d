//! Duty outcomes, completion policies, and the joint-wait combination rule.

use vstd::prelude::*;

verus! {

/// Why a duty, or the whole process, failed.
#[derive(Clone, Copy, Debug, PartialEq, Eq, Structural)]
pub enum FailureKind {
    /// The persistent store could not be connected or migrated (fatal-startup).
    StoreUnavailable,
    /// The streaming client could not be built from the live store (fatal-startup).
    ClientRejected,
    /// The responder could not bind its listener (fatal-bind, that duty only).
    ListenerBindRefused,
    /// The primary duty's long-running operation ended with an error.
    PrimaryAborted,
    /// The responder duty ended with an error after it had bound.
    ResponderAborted,
}

/// The tagged result of a duty's (or the process's) completion.
#[derive(Clone, Copy, Debug, PartialEq, Eq, Structural)]
pub enum RunOutcome {
    Success,
    Failure(FailureKind),
}

/// The completion policy: how the process's overall outcome depends on the
/// outcomes of the primary duty and the responder.
#[derive(Clone, Copy, Debug, PartialEq, Eq, Structural)]
pub enum Policy {
    /// The responder outlives the primary duty's outcome; after the primary
    /// duty ends, the shutdown signal is fired and the responder drains.
    Detached,
    /// Both duties are awaited together; either failure is a process failure.
    Joint,
    /// The responder is fire-and-forget; the primary duty alone governs exit.
    Isolated,
}

/// What a joint wait over both duties reports: success exactly when both
/// duties succeeded; otherwise the primary duty's failure takes precedence,
/// else the responder's failure is reported.
pub open spec fn spec_joint_outcome(primary: RunOutcome, responder: RunOutcome) -> RunOutcome {
    if primary is Failure {
        primary
    } else if responder is Failure {
        responder
    } else {
        RunOutcome::Success
    }
}

/// Combine the two duties' outcomes as the joint wait reports them.
pub fn joint_outcome(primary: RunOutcome, responder: RunOutcome) -> (r: RunOutcome)
    ensures
        r == spec_joint_outcome(primary, responder),
        r is Success <==> (primary is Success && responder is Success),
{
    match primary {
        RunOutcome::Failure(_) => primary,
        RunOutcome::Success => responder,
    }
}

/// Law: under the joint policy, a responder that failed to bind its listener
/// makes the overall run outcome a failure, even when the primary duty
/// succeeded.
pub proof fn lemma_joint_bind_failure_is_fatal(primary: RunOutcome)
    ensures
        spec_joint_outcome(primary, RunOutcome::Failure(FailureKind::ListenerBindRefused))
            is Failure,
{
}

} // verus!
