//! The service orchestrator: sequences startup, schedules the two duties, and
//! settles the process outcome under the chosen completion policy.
//!
//! The orchestrator is a state machine over phases and events. The host binary
//! runs the loop: it performs each returned action (connect the store, build
//! the streaming client, launch the responder, run the primary duty, fire the
//! shutdown signal) and hands the resulting event back to `step`. Every
//! decision — what runs next, what aborts startup, what the process reports —
//! is made here and nowhere in the host.

use crate::outcome::{FailureKind, Policy, RunOutcome};
use crate::outcome::spec_joint_outcome;
use vstd::prelude::*;

verus! {

/// Where the orchestrator stands in the startup / run / wind-down sequence.
#[derive(Clone, Copy, Debug, PartialEq, Eq, Structural)]
pub enum Phase {
    /// Nothing has begun.
    Idle,
    /// The store connect-and-migrate call is in flight.
    AcquiringStore,
    /// The streaming client is being built from the live store.
    BuildingClient,
    /// The responder duty is being launched. Launching is a spawn only: there
    /// is no readiness handshake, and the primary duty is run right after.
    LaunchingResponder,
    /// The primary duty is running; under the joint policy both duties are
    /// awaited together.
    Running,
    /// Detached policy only: the shutdown signal has been fired and the
    /// responder is draining; the primary duty's outcome is carried along.
    Draining(RunOutcome),
    /// The process's outcome is settled; every further event is ignored.
    Finished(RunOutcome),
}

/// What the host must do next after a step.
#[derive(Clone, Copy, Debug, PartialEq, Eq, Structural)]
pub enum Action {
    /// Connect the persistent store and run its migrations.
    AcquireStore,
    /// Build the streaming client from the live store.
    BuildClient,
    /// Launch the responder duty; the launch must not block what follows.
    LaunchResponder,
    /// Run the primary duty to completion.
    RunPrimary,
    /// Joint policy: await the primary duty and the responder together.
    AwaitBoth,
    /// Detached policy: fire the shutdown signal, then await the responder.
    FireShutdown,
    /// Exit the process with the settled outcome.
    Conclude(RunOutcome),
    /// Do nothing: the event does not belong to the current phase.
    Hold,
}

/// What the host observed while performing the previous action.
#[derive(Clone, Copy, Debug, PartialEq, Eq, Structural)]
pub enum Event {
    /// Begin the startup sequence.
    Kickoff,
    /// The store is connected and migrated.
    StoreReady,
    /// The store could not be connected or migrated.
    StoreUnavailable,
    /// The streaming client was built.
    ClientReady,
    /// The streaming client could not be built.
    ClientRejected,
    /// The responder duty was launched (spawned, not necessarily ready).
    ResponderLaunched,
    /// The primary duty ended with the given outcome (detached / isolated).
    PrimaryEnded(RunOutcome),
    /// Joint policy: both duties ended, primary's outcome first.
    BothEnded(RunOutcome, RunOutcome),
    /// Detached policy: the responder drained after the shutdown signal.
    ResponderDrained,
}

/// The transition relation: from a policy, a phase and an event to the next
/// phase and the action the host must perform.
pub open spec fn spec_step(policy: Policy, phase: Phase, event: Event) -> (Phase, Action) {
    match (phase, event) {
        (Phase::Idle, Event::Kickoff) => (Phase::AcquiringStore, Action::AcquireStore),
        (Phase::AcquiringStore, Event::StoreReady) => (
            Phase::BuildingClient,
            Action::BuildClient,
        ),
        (Phase::AcquiringStore, Event::StoreUnavailable) => (
            Phase::Finished(RunOutcome::Failure(FailureKind::StoreUnavailable)),
            Action::Conclude(RunOutcome::Failure(FailureKind::StoreUnavailable)),
        ),
        (Phase::BuildingClient, Event::ClientReady) => (
            Phase::LaunchingResponder,
            Action::LaunchResponder,
        ),
        (Phase::BuildingClient, Event::ClientRejected) => (
            Phase::Finished(RunOutcome::Failure(FailureKind::ClientRejected)),
            Action::Conclude(RunOutcome::Failure(FailureKind::ClientRejected)),
        ),
        (Phase::LaunchingResponder, Event::ResponderLaunched) => (
            Phase::Running,
            if policy is Joint {
                Action::AwaitBoth
            } else {
                Action::RunPrimary
            },
        ),
        (Phase::Running, Event::PrimaryEnded(primary)) => match policy {
            Policy::Isolated => (Phase::Finished(primary), Action::Conclude(primary)),
            Policy::Detached => (Phase::Draining(primary), Action::FireShutdown),
            Policy::Joint => (phase, Action::Hold),
        },
        (Phase::Running, Event::BothEnded(primary, responder)) => if policy is Joint {
            (
                Phase::Finished(spec_joint_outcome(primary, responder)),
                Action::Conclude(spec_joint_outcome(primary, responder)),
            )
        } else {
            (phase, Action::Hold)
        },
        (Phase::Draining(primary), Event::ResponderDrained) => (
            Phase::Finished(primary),
            Action::Conclude(primary),
        ),
        _ => (phase, Action::Hold),
    }
}

/// The orchestration core: the chosen completion policy and the phase the
/// sequence has reached. Any pair of values is a meaningful state, so both
/// fields are public and the host may inspect them freely.
#[derive(Clone, Copy, Debug, PartialEq, Eq, Structural)]
pub struct Orchestrator {
    /// The completion policy, chosen once at construction.
    pub policy: Policy,
    /// Where the startup / run / wind-down sequence stands.
    pub phase: Phase,
}

impl Orchestrator {
    /// A fresh orchestrator under the given completion policy.
    pub fn new(policy: Policy) -> (s: Self)
        ensures
            s.policy == policy,
            s.phase == Phase::Idle,
    {
        Orchestrator { policy, phase: Phase::Idle }
    }

    /// Advance by one event and say what the host must do next. The policy
    /// never changes; the new phase and the action are exactly those of the
    /// transition relation `spec_step`.
    pub fn step(&mut self, event: Event) -> (action: Action)
        ensures
            final(self).policy == old(self).policy,
            final(self).phase == spec_step(old(self).policy, old(self).phase, event).0,
            action == spec_step(old(self).policy, old(self).phase, event).1,
    {
        let (phase, action) = match (self.phase, event) {
            (Phase::Idle, Event::Kickoff) => (Phase::AcquiringStore, Action::AcquireStore),
            (Phase::AcquiringStore, Event::StoreReady) => (
                Phase::BuildingClient,
                Action::BuildClient,
            ),
            (Phase::AcquiringStore, Event::StoreUnavailable) => (
                Phase::Finished(RunOutcome::Failure(FailureKind::StoreUnavailable)),
                Action::Conclude(RunOutcome::Failure(FailureKind::StoreUnavailable)),
            ),
            (Phase::BuildingClient, Event::ClientReady) => (
                Phase::LaunchingResponder,
                Action::LaunchResponder,
            ),
            (Phase::BuildingClient, Event::ClientRejected) => (
                Phase::Finished(RunOutcome::Failure(FailureKind::ClientRejected)),
                Action::Conclude(RunOutcome::Failure(FailureKind::ClientRejected)),
            ),
            (Phase::LaunchingResponder, Event::ResponderLaunched) => (
                Phase::Running,
                if matches!(self.policy, Policy::Joint) {
                    Action::AwaitBoth
                } else {
                    Action::RunPrimary
                },
            ),
            (Phase::Running, Event::PrimaryEnded(primary)) => match self.policy {
                Policy::Isolated => (Phase::Finished(primary), Action::Conclude(primary)),
                Policy::Detached => (Phase::Draining(primary), Action::FireShutdown),
                Policy::Joint => (self.phase, Action::Hold),
            },
            (Phase::Running, Event::BothEnded(primary, responder)) => {
                if matches!(self.policy, Policy::Joint) {
                    let joint = crate::outcome::joint_outcome(primary, responder);
                    (Phase::Finished(joint), Action::Conclude(joint))
                } else {
                    (self.phase, Action::Hold)
                }
            },
            (Phase::Draining(primary), Event::ResponderDrained) => (
                Phase::Finished(primary),
                Action::Conclude(primary),
            ),
            _ => (self.phase, Action::Hold),
        };
        self.phase = phase;
        action
    }
}

/// Law: a store failure short-circuits startup. The orchestrator concludes at
/// once with the store failure; it asks for no client build and no responder
/// launch then, and `lemma_no_duty_after_store_failure` extends this to every
/// later event.
pub proof fn lemma_store_failure_short_circuits(policy: Policy)
    ensures
        spec_step(policy, Phase::AcquiringStore, Event::StoreUnavailable).0 == Phase::Finished(
            RunOutcome::Failure(FailureKind::StoreUnavailable),
        ),
        spec_step(policy, Phase::AcquiringStore, Event::StoreUnavailable).1 == Action::Conclude(
            RunOutcome::Failure(FailureKind::StoreUnavailable),
        ),
{
}

/// Whether some step along `events`, starting from `phase`, ever asks the
/// host to build the client, launch the responder, or run either duty.
pub open spec fn starts_work(policy: Policy, phase: Phase, events: Seq<Event>) -> bool
    decreases events.len(),
{
    if events.len() == 0 {
        false
    } else {
        let next = spec_step(policy, phase, events[0]);
        ||| next.1 is BuildClient
        ||| next.1 is LaunchResponder
        ||| next.1 is RunPrimary
        ||| next.1 is AwaitBoth
        ||| starts_work(policy, next.0, events.drop_first())
    }
}

/// Law: once the outcome is settled, the orchestrator is inert — no sequence
/// of further events makes it start any duty or change phase.
pub proof fn lemma_finished_is_inert(policy: Policy, outcome: RunOutcome, events: Seq<Event>)
    ensures
        !starts_work(policy, Phase::Finished(outcome), events),
    decreases events.len(),
{
    if events.len() > 0 {
        assert(spec_step(policy, Phase::Finished(outcome), events[0]).0 == Phase::Finished(
            outcome,
        ));
        lemma_finished_is_inert(policy, outcome, events.drop_first());
    }
}

/// Law: if the store cannot be acquired, no responder is started and no
/// streaming-client construction is attempted — neither on that step nor on
/// any sequence of later events.
pub proof fn lemma_no_duty_after_store_failure(policy: Policy, events: Seq<Event>)
    ensures
        !starts_work(
            policy,
            spec_step(policy, Phase::AcquiringStore, Event::StoreUnavailable).0,
            events,
        ),
{
    lemma_finished_is_inert(policy, RunOutcome::Failure(FailureKind::StoreUnavailable), events);
}

/// Law: under the detached policy, the end of the primary duty makes the host
/// fire the shutdown signal before anything else. A fired signal admits no
/// new connection (`crate::shutdown::lemma_fired_denies_admission`), while a
/// connection already accepted is still answered: its handling takes no
/// signal at all.
pub proof fn lemma_detached_primary_end_fires_shutdown(outcome: RunOutcome)
    ensures
        spec_step(Policy::Detached, Phase::Running, Event::PrimaryEnded(outcome)).1
            == Action::FireShutdown,
        spec_step(Policy::Detached, Phase::Running, Event::PrimaryEnded(outcome)).0
            == Phase::Draining(outcome),
{
}

/// Law: under the detached policy the process exits, once the responder has
/// drained, with the primary duty's own outcome.
pub proof fn lemma_detached_exit_carries_primary_outcome(outcome: RunOutcome)
    ensures
        spec_step(Policy::Detached, Phase::Draining(outcome), Event::ResponderDrained)
            == (Phase::Finished(outcome), Action::Conclude(outcome)),
{
}

/// Law: under the isolated policy the process exit is governed solely by the
/// primary duty's outcome; the responder's fate is not consulted.
pub proof fn lemma_isolated_exit_governed_by_primary(outcome: RunOutcome)
    ensures
        spec_step(Policy::Isolated, Phase::Running, Event::PrimaryEnded(outcome))
            == (Phase::Finished(outcome), Action::Conclude(outcome)),
{
}

} // verus!
