use spoticord::orchestrator::{Action, Event, Orchestrator, Phase};
use spoticord::outcome::{joint_outcome, FailureKind, Policy, RunOutcome};
use spoticord::responder::{response_for, ReadEvent};
use spoticord::shutdown::ShutdownSignal;

const FULL_RESPONSE: &str =
    "HTTP/1.1 200 OK\r\nContent-Type: text/html; charset=UTF-8\r\n\r\n<html><body>Hello world</body></html>\r\n";

/// Drive a fresh orchestrator through the successful startup prefix, up to
/// the point where both duties are running.
fn started(policy: Policy) -> Orchestrator {
    let mut orch = Orchestrator::new(policy);
    assert_eq!(orch.step(Event::Kickoff), Action::AcquireStore);
    assert_eq!(orch.step(Event::StoreReady), Action::BuildClient);
    assert_eq!(orch.step(Event::ClientReady), Action::LaunchResponder);
    let run = orch.step(Event::ResponderLaunched);
    if policy == Policy::Joint {
        assert_eq!(run, Action::AwaitBoth);
    } else {
        assert_eq!(run, Action::RunPrimary);
    }
    assert_eq!(orch.phase, Phase::Running);
    orch
}

#[test]
fn store_failure_short_circuits_startup() {
    let mut orch = Orchestrator::new(Policy::Isolated);
    assert_eq!(orch.step(Event::Kickoff), Action::AcquireStore);
    let action = orch.step(Event::StoreUnavailable);
    assert_eq!(
        action,
        Action::Conclude(RunOutcome::Failure(FailureKind::StoreUnavailable))
    );
    assert_eq!(
        orch.phase,
        Phase::Finished(RunOutcome::Failure(FailureKind::StoreUnavailable))
    );
    // No later event revives the sequence: no build, no launch, no run.
    assert_eq!(orch.step(Event::StoreReady), Action::Hold);
    assert_eq!(orch.step(Event::ClientReady), Action::Hold);
    assert_eq!(orch.step(Event::ResponderLaunched), Action::Hold);
    assert_eq!(
        orch.phase,
        Phase::Finished(RunOutcome::Failure(FailureKind::StoreUnavailable))
    );
}

#[test]
fn client_rejection_aborts_before_any_duty() {
    let mut orch = Orchestrator::new(Policy::Detached);
    assert_eq!(orch.step(Event::Kickoff), Action::AcquireStore);
    assert_eq!(orch.step(Event::StoreReady), Action::BuildClient);
    let action = orch.step(Event::ClientRejected);
    assert_eq!(
        action,
        Action::Conclude(RunOutcome::Failure(FailureKind::ClientRejected))
    );
    assert_eq!(orch.step(Event::ResponderLaunched), Action::Hold);
}

#[test]
fn joint_mode_reports_bind_failure_despite_primary_success() {
    let mut orch = started(Policy::Joint);
    let action = orch.step(Event::BothEnded(
        RunOutcome::Success,
        RunOutcome::Failure(FailureKind::ListenerBindRefused),
    ));
    assert_eq!(
        action,
        Action::Conclude(RunOutcome::Failure(FailureKind::ListenerBindRefused))
    );
    assert_eq!(
        orch.phase,
        Phase::Finished(RunOutcome::Failure(FailureKind::ListenerBindRefused))
    );
}

#[test]
fn joint_mode_succeeds_only_when_both_succeed() {
    let mut orch = started(Policy::Joint);
    let action = orch.step(Event::BothEnded(RunOutcome::Success, RunOutcome::Success));
    assert_eq!(action, Action::Conclude(RunOutcome::Success));
    assert_eq!(orch.phase, Phase::Finished(RunOutcome::Success));
}

#[test]
fn joint_outcome_combination_table() {
    let ok = RunOutcome::Success;
    let primary_err = RunOutcome::Failure(FailureKind::PrimaryAborted);
    let responder_err = RunOutcome::Failure(FailureKind::ResponderAborted);
    assert_eq!(joint_outcome(ok, ok), ok);
    assert_eq!(joint_outcome(primary_err, ok), primary_err);
    assert_eq!(joint_outcome(ok, responder_err), responder_err);
    assert_eq!(joint_outcome(primary_err, responder_err), primary_err);
}

#[test]
fn detached_mode_fires_shutdown_then_drains() {
    let mut orch = started(Policy::Detached);
    let action = orch.step(Event::PrimaryEnded(RunOutcome::Success));
    assert_eq!(action, Action::FireShutdown);
    assert_eq!(orch.phase, Phase::Draining(RunOutcome::Success));

    // The host performs the action: fires the signal. New connections are
    // refused from then on; an already-accepted one is still answered.
    let mut signal = ShutdownSignal::new();
    assert!(signal.admits_new_work());
    signal.fire();
    assert!(!signal.admits_new_work());
    let in_flight = response_for(&ReadEvent::Data(b"GET / HTTP/1.1\r\n\r\n".to_vec()));
    assert_eq!(in_flight, FULL_RESPONSE);

    let action = orch.step(Event::ResponderDrained);
    assert_eq!(action, Action::Conclude(RunOutcome::Success));
    assert_eq!(orch.phase, Phase::Finished(RunOutcome::Success));
}

#[test]
fn isolated_mode_exit_follows_primary_alone() {
    let mut orch = started(Policy::Isolated);
    let action = orch.step(Event::PrimaryEnded(RunOutcome::Success));
    assert_eq!(action, Action::Conclude(RunOutcome::Success));
    assert_eq!(orch.phase, Phase::Finished(RunOutcome::Success));
}

#[test]
fn primary_failure_after_successful_setup() {
    // The primary duty fails right after store and client setup succeeded.
    // Joint mode reports the failure as the process outcome ...
    let mut joint = started(Policy::Joint);
    let action = joint.step(Event::BothEnded(
        RunOutcome::Failure(FailureKind::PrimaryAborted),
        RunOutcome::Success,
    ));
    assert_eq!(
        action,
        Action::Conclude(RunOutcome::Failure(FailureKind::PrimaryAborted))
    );

    // ... while under the isolated and detached policies the responder keeps
    // answering with the fixed 200 response.
    let mut isolated = started(Policy::Isolated);
    let action = isolated.step(Event::PrimaryEnded(RunOutcome::Failure(
        FailureKind::PrimaryAborted,
    )));
    assert_eq!(
        action,
        Action::Conclude(RunOutcome::Failure(FailureKind::PrimaryAborted))
    );
    let still_served = response_for(&ReadEvent::Data(b"GET / HTTP/1.1\r\n\r\n".to_vec()));
    assert!(still_served.starts_with("HTTP/1.1 200 OK\r\n"));
    assert_eq!(still_served, FULL_RESPONSE);
}

#[test]
fn mismatched_events_are_held() {
    // Events that do not belong to the current phase change nothing.
    let mut orch = Orchestrator::new(Policy::Joint);
    assert_eq!(orch.step(Event::StoreReady), Action::Hold);
    assert_eq!(orch.phase, Phase::Idle);
    let mut orch = started(Policy::Joint);
    // Under the joint policy only the joint completion ends the run phase.
    assert_eq!(orch.step(Event::PrimaryEnded(RunOutcome::Success)), Action::Hold);
    assert_eq!(orch.phase, Phase::Running);
}
