use signalr_communication::dropped::{DropHandling, DroppedOutcome, DroppedPhase};
use signalr_communication::reconnect::{ReconnectOutcome, ReconnectPhase, RetryPhase};
use signalr_communication::state::{ConnectionState, DisconnectionReason};
use std::time::Duration;

type State = ConnectionState<&'static str>;
type Attempt = ReconnectPhase<&'static str>;
type Drop = DroppedPhase<&'static str>;

fn closed(reason: DisconnectionReason) -> State {
    State::NotConnected(reason)
}

fn outcome(phase: Attempt) -> Result<(), String> {
    match phase {
        ReconnectPhase::Done(outcome) => outcome.result(),
        _ => panic!("not done"),
    }
}

fn attempt(state: &mut State, dialed: Result<&'static str, String>) -> Result<(), String> {
    let phase = Attempt::FindClient.client_found(true).locked(state);
    let phase = phase.locked(state);
    outcome(phase.dialed(dialed).locked(state))
}

fn second() -> Duration {
    Duration::from_secs(1)
}

fn refused() -> Result<&'static str, String> {
    Err("refused".to_string())
}

#[test]
fn attempt_opens_a_connection() {
    let mut state = closed(DisconnectionReason::RemoteClosed);
    assert_eq!(attempt(&mut state, Ok("new")), Ok(()));
    assert_eq!(state.connection(), Ok(&"new"));
}

#[test]
fn attempt_reports_a_failed_dial() {
    let mut state = closed(DisconnectionReason::Reconnecting);
    assert_eq!(attempt(&mut state, refused()), Err("refused".to_string()));
    assert!(matches!(state, State::NotConnected(DisconnectionReason::RemoteClosed)));
}

#[test]
fn attempt_leaves_a_connection_alone() {
    let mut state = State::Connected("old");
    assert_eq!(attempt(&mut state, Ok("new")), Ok(()));
    assert_eq!(state.connection(), Ok(&"old"));
}

#[test]
fn attempt_is_refused_after_a_local_close() {
    let mut state = closed(DisconnectionReason::LocalClosed);
    assert_eq!(
        attempt(&mut state, Ok("new")),
        Err("Client was locally disconnected".to_string())
    );
    assert!(state.is_locally_closed());
}

#[test]
fn attempt_needs_the_client() {
    let phase = Attempt::FindClient.client_found(false);
    assert_eq!(outcome(phase), Err("Client has been dropped".to_string()));
}

#[test]
fn attempt_announces_itself() {
    let mut state = closed(DisconnectionReason::RemoteClosed);
    let phase = Attempt::MarkReconnecting.locked(&mut state);
    assert!(matches!(phase, ReconnectPhase::Dial));
    assert!(matches!(state, State::NotConnected(DisconnectionReason::Reconnecting)));
}

#[test]
fn local_close_during_a_dial_refuses_the_connection() {
    let mut state = closed(DisconnectionReason::LocalClosed);
    let phase = Attempt::Install("new").locked(&mut state);
    assert_eq!(outcome(phase), Err("Client was locally disconnected".to_string()));
    assert!(state.is_locally_closed());
}

#[test]
fn failed_dial_overwrites_a_local_close() {
    let mut state = closed(DisconnectionReason::LocalClosed);
    let phase = Attempt::RecordFailure("refused".to_string()).locked(&mut state);
    assert_eq!(outcome(phase), Err("refused".to_string()));
    assert!(matches!(state, State::NotConnected(DisconnectionReason::RemoteClosed)));
}

#[test]
fn finished_attempts_take_in_nothing() {
    let mut state = closed(DisconnectionReason::RemoteClosed);
    let phase = Attempt::Done(ReconnectOutcome::ClientDropped).client_found(true);
    let phase = phase.dialed(Ok("new")).locked(&mut state);
    assert_eq!(outcome(phase), Err("Client has been dropped".to_string()));
    assert!(matches!(state, State::NotConnected(DisconnectionReason::RemoteClosed)));
}

#[test]
fn first_attempt_is_immediate() {
    let phase = RetryPhase::start().policy_answered(Some(second()));
    assert!(matches!(phase, RetryPhase::Attempt { retries: 0 }));
}

#[test]
fn later_attempts_wait() {
    let phase = RetryPhase::Attempt { retries: 0 }.attempted(Err("refused".to_string()));
    assert!(matches!(phase, RetryPhase::AskPolicy { retries: 1 }));
    let phase = phase.policy_answered(Some(second()));
    assert!(matches!(phase, RetryPhase::Sleep { retries: 1, delay } if delay == second()));
    assert!(matches!(phase.slept(), RetryPhase::Attempt { retries: 1 }));
}

#[test]
fn run_ends_with_success() {
    let phase = RetryPhase::Attempt { retries: 3 }.attempted(Ok(()));
    assert_eq!(phase.result(), Some(Ok(())));
}

#[test]
fn run_ends_with_a_local_disconnection() {
    let message = "Client was locally disconnected".to_string();
    let phase = RetryPhase::Attempt { retries: 3 }.attempted(Err(message.clone()));
    assert_eq!(phase.result(), Some(Err(message)));
    let message = "peer: locally disconnected!".to_string();
    let phase = RetryPhase::Attempt { retries: 0 }.attempted(Err(message.clone()));
    assert_eq!(phase.result(), Some(Err(message)));
}

#[test]
fn run_goes_on_when_the_client_is_gone() {
    let message = "Client has been dropped".to_string();
    let phase = RetryPhase::Attempt { retries: 0 }.attempted(Err(message));
    assert!(matches!(phase, RetryPhase::AskPolicy { retries: 1 }));
    assert_eq!(phase.result(), None);
}

#[test]
fn run_is_exhausted_by_the_policy() {
    let mut phase = RetryPhase::start();
    for expected in 1..4u32 {
        phase = phase.policy_answered(Some(second())).slept();
        phase = phase.attempted(Err("refused".to_string()));
        assert!(matches!(phase, RetryPhase::AskPolicy { retries } if retries == expected));
    }
    assert_eq!(
        phase.policy_answered(None).result(),
        Some(Err("Reconnection attempts exhausted".to_string()))
    );
}

/// A run whose policy grants an attempt for each dial and then no more.
fn run(state: &mut State, dials: Vec<Result<&'static str, String>>) -> Result<(), String> {
    let mut phase = RetryPhase::start();
    for dialed in dials {
        phase = phase.policy_answered(Some(second())).slept();
        if matches!(phase, RetryPhase::Attempt { .. }) {
            phase = phase.attempted(attempt(state, dialed));
        }
    }
    phase.policy_answered(None).result().unwrap()
}

#[test]
fn successful_runs_leave_a_connection() {
    let mut state = closed(DisconnectionReason::RemoteClosed);
    assert_eq!(run(&mut state, vec![refused(), refused(), Ok("new"), Ok("later")]), Ok(()));
    assert_eq!(state.connection(), Ok(&"new"));
    let mut state = State::Connected("old");
    assert_eq!(run(&mut state, vec![Ok("new")]), Ok(()));
    assert_eq!(state.connection(), Ok(&"old"));
}

#[test]
fn exhausted_runs_leave_a_closed_client() {
    let exhausted = Err("Reconnection attempts exhausted".to_string());
    let mut state = closed(DisconnectionReason::NeverOpened);
    assert_eq!(run(&mut state, vec![]), exhausted);
    assert!(matches!(state, State::NotConnected(DisconnectionReason::NeverOpened)));
    assert_eq!(run(&mut state, vec![refused(), refused()]), exhausted);
    assert!(matches!(state, State::NotConnected(DisconnectionReason::RemoteClosed)));
}

#[test]
fn runs_on_a_locally_closed_client_leave_it() {
    let mut state = closed(DisconnectionReason::LocalClosed);
    assert_eq!(
        run(&mut state, vec![Ok("new")]),
        Err("Client was locally disconnected".to_string())
    );
    assert!(state.is_locally_closed());
}

#[test]
fn counts_end_at_their_limit() {
    let failed: Result<(), String> = Err("refused".to_string());
    let local: Result<(), String> = Err("locally disconnected".to_string());
    let full = RetryPhase::Attempt { retries: u32::MAX };
    assert!(!full.can_take_in(&failed));
    assert!(full.can_take_in(&local));
    assert!(full.can_take_in(&Ok(())));
    assert!(RetryPhase::Attempt { retries: u32::MAX - 1 }.can_take_in(&failed));
    assert!(RetryPhase::AskPolicy { retries: u32::MAX }.can_take_in(&failed));
    assert!(!Drop::Dial { retries: u32::MAX }.can_take_in(&refused()));
    assert!(Drop::Dial { retries: u32::MAX }.can_take_in(&Ok("new")));
    assert!(Drop::Dial { retries: u32::MAX - 1 }.can_take_in(&refused()));
    assert!(Drop::AskPolicy { retries: u32::MAX }.can_take_in(&refused()));
}

#[test]
fn connections_that_move_in() {
    let remote = closed(DisconnectionReason::RemoteClosed);
    let local = closed(DisconnectionReason::LocalClosed);
    let open = State::Connected("old");
    assert_eq!(Attempt::Install("new").moving_in(&remote), Some(&"new"));
    assert_eq!(Attempt::Install("new").moving_in(&open), Some(&"new"));
    assert_eq!(Attempt::Install("new").moving_in(&local), None);
    assert_eq!(Attempt::CheckConnected.moving_in(&open), None);
    assert_eq!(Drop::Install("new").moving_in(&remote), Some(&"new"));
    assert_eq!(Drop::Install("new").moving_in(&local), None);
    assert_eq!(Drop::GiveUp.moving_in(&open), None);
}

#[test]
fn drop_after_a_local_close_is_left_alone() {
    for handling in [DropHandling::User, DropHandling::Automatic, DropHandling::LeftToUser] {
        let mut state = closed(DisconnectionReason::LocalClosed);
        let phase = Drop::start(handling).locked(&mut state);
        assert!(matches!(phase, DroppedPhase::Finished(DroppedOutcome::LocallyClosed)));
        assert!(state.is_locally_closed());
    }
}

#[test]
fn drop_of_a_vanished_client_is_left_alone() {
    let phase = Drop::start(DropHandling::User).client_gone();
    assert!(matches!(phase, DroppedPhase::Finished(DroppedOutcome::ClientGone)));
    let phase = Drop::Install("new").client_gone();
    assert!(matches!(phase, DroppedPhase::Finished(DroppedOutcome::ClientGone)));
}

#[test]
fn drop_is_handed_to_the_user() {
    let mut state = State::Connected("old");
    let phase = Drop::start(DropHandling::User).locked(&mut state);
    assert!(matches!(phase, DroppedPhase::HandOver));
    assert!(state.is_connected());
    let phase = phase.locked(&mut state);
    assert!(matches!(phase, DroppedPhase::CallHandler));
    assert!(matches!(state, State::NotConnected(DisconnectionReason::RemoteClosed)));
    let phase = phase.handler_called();
    assert!(matches!(phase, DroppedPhase::Finished(DroppedOutcome::HandedOver)));
}

#[test]
fn drop_is_left_to_the_user() {
    for mut state in [State::Connected("old"), closed(DisconnectionReason::Reconnecting)] {
        let phase = Drop::start(DropHandling::LeftToUser).locked(&mut state);
        assert!(matches!(phase, DroppedPhase::Finished(DroppedOutcome::LeftToUser)));
        assert!(matches!(state, State::NotConnected(DisconnectionReason::RemoteClosed)));
        let phase = phase.policy_answered(Some(second())).slept().dialed(Ok("new"));
        assert!(matches!(phase, DroppedPhase::Finished(DroppedOutcome::LeftToUser)));
        assert_eq!(attempt(&mut state, Ok("new")), Ok(()));
        assert_eq!(state.connection(), Ok(&"new"));
    }
    let phase = Drop::start(DropHandling::LeftToUser).client_gone();
    assert!(matches!(phase, DroppedPhase::Finished(DroppedOutcome::ClientGone)));
}

#[test]
fn drop_goes_on_without_the_client_where_it_can() {
    assert!(matches!(Drop::HandOver.client_gone(), DroppedPhase::CallHandler));
    let phase = Drop::MarkReconnecting.client_gone();
    assert!(matches!(phase, DroppedPhase::AskPolicy { retries: 0 }));
    let phase = Drop::GiveUp.client_gone();
    assert!(matches!(phase, DroppedPhase::Finished(DroppedOutcome::Exhausted)));
}

#[test]
fn automatic_reconnection() {
    let mut state = State::Connected("old");
    let phase = Drop::start(DropHandling::Automatic).locked(&mut state);
    assert!(matches!(phase, DroppedPhase::MarkReconnecting));
    let phase = phase.locked(&mut state);
    assert!(matches!(state, State::NotConnected(DisconnectionReason::Reconnecting)));
    let phase = phase.policy_answered(Some(second()));
    assert!(matches!(phase, DroppedPhase::Sleep { retries: 0, delay } if delay == second()));
    let phase = phase.slept().dialed(refused());
    assert!(matches!(phase, DroppedPhase::AskPolicy { retries: 1 }));
    let phase = phase.policy_answered(Some(second())).slept().dialed(Ok("new"));
    assert!(matches!(phase, DroppedPhase::Install("new")));
    let phase = phase.locked(&mut state);
    assert!(matches!(phase, DroppedPhase::Finished(DroppedOutcome::Reconnected)));
    assert_eq!(state.connection(), Ok(&"new"));
}

#[test]
fn automatic_reconnection_gives_up() {
    let mut state = closed(DisconnectionReason::Reconnecting);
    let phase = Drop::AskPolicy { retries: 5 }.policy_answered(None).locked(&mut state);
    assert!(matches!(phase, DroppedPhase::Finished(DroppedOutcome::Exhausted)));
    assert!(matches!(state, State::NotConnected(DisconnectionReason::RemoteClosed)));
}

#[test]
fn automatic_reconnection_heeds_a_local_close() {
    let mut state = closed(DisconnectionReason::LocalClosed);
    let phase = Drop::Install("new").locked(&mut state);
    assert!(matches!(phase, DroppedPhase::Finished(DroppedOutcome::LocallyClosed)));
    assert!(state.is_locally_closed());
}

#[test]
fn disconnecting_is_final() {
    let mut state = State::Connected("old");
    assert!(state.disconnect(0));
    assert!(attempt(&mut state, Ok("new")).is_err());
    let phase = Drop::start(DropHandling::Automatic).locked(&mut state);
    assert!(matches!(phase, DroppedPhase::Finished(DroppedOutcome::LocallyClosed)));
    assert!(state.is_locally_closed());
}
