use interval_task::error::RunnerError;
use interval_task::handler::{RunnerHandler, RunnerState, START_SIGNAL, STOP_SIGNAL};

fn handler_with_worker_acks(acks: usize) -> (
    RunnerHandler,
    async_channel::Receiver<u8>,
    async_channel::Sender<u8>,
) {
    let (req_s, req_r) = async_channel::bounded::<u8>(2);
    let (ack_s, ack_r) = async_channel::bounded::<u8>(2);
    for _ in 0..acks {
        ack_s.send_blocking(0).unwrap();
    }
    (RunnerHandler::new(req_s, ack_r), req_r, ack_s)
}

#[test]
fn start_blocking_sends_start_and_becomes_active() {
    let (mut h, req, _ack) = handler_with_worker_acks(1);
    assert_eq!(h.state(), RunnerState::Inactive);
    assert_eq!(h.start_blocking(), Ok(()));
    assert_eq!(h.state(), RunnerState::Active);
    assert_eq!(req.try_recv(), Ok(START_SIGNAL));
}

#[test]
fn start_while_active_is_refused() {
    let (mut h, req, _ack) = handler_with_worker_acks(1);
    h.start_blocking().unwrap();
    assert_eq!(h.start_blocking(), Err(RunnerError::AlreadyRunning));
    assert_eq!(h.state(), RunnerState::Active);
    assert_eq!(req.len(), 1);
}

#[test]
fn start_while_operating_is_refused() {
    let (mut h, _req, _ack) = handler_with_worker_acks(0);
    assert_eq!(h.begin_start(), Ok(()));
    assert_eq!(h.state(), RunnerState::Operating);
    assert_eq!(h.begin_start(), Err(RunnerError::TransitionInProgress));
    assert_eq!(h.begin_close(), Err(RunnerError::TransitionInProgress));
}

#[test]
fn close_blocking_after_start_is_terminal() {
    let (mut h, req, _ack) = handler_with_worker_acks(2);
    h.start_blocking().unwrap();
    assert_eq!(h.close_blocking(), Ok(()));
    assert_eq!(h.state(), RunnerState::Closed);
    assert_eq!(req.try_recv(), Ok(START_SIGNAL));
    assert_eq!(req.try_recv(), Ok(STOP_SIGNAL));
    assert_eq!(h.start_blocking(), Err(RunnerError::Terminal));
    assert_eq!(h.close_blocking(), Err(RunnerError::Terminal));
    assert!(req.is_empty());
}

#[test]
fn second_close_does_not_send() {
    let (mut h, req, _ack) = handler_with_worker_acks(1);
    h.start_blocking().unwrap();
    assert_eq!(req.try_recv(), Ok(START_SIGNAL));
    assert_eq!(h.begin_close(), Ok(()));
    assert_eq!(h.begin_close(), Err(RunnerError::Terminal));
    assert_eq!(req.try_recv(), Ok(STOP_SIGNAL));
    assert!(req.is_empty());
}

#[test]
fn start_send_failure_rolls_back() {
    let (mut h, req, _ack) = handler_with_worker_acks(1);
    drop(req);
    assert_eq!(h.start_blocking(), Err(RunnerError::SignalFailure));
    assert_eq!(h.state(), RunnerState::Inactive);
}

#[test]
fn missing_start_ack_rolls_back() {
    let (mut h, _req, ack) = handler_with_worker_acks(0);
    drop(ack);
    assert_eq!(h.start_blocking(), Err(RunnerError::SignalFailure));
    assert_eq!(h.state(), RunnerState::Inactive);
}

#[test]
fn close_send_failure_keeps_state() {
    let (mut h, req, _ack) = handler_with_worker_acks(1);
    h.start_blocking().unwrap();
    drop(req);
    assert_eq!(h.close_blocking(), Err(RunnerError::SignalFailure));
    assert_eq!(h.state(), RunnerState::Active);
}

#[test]
fn missing_stop_ack_stays_closed() {
    let (mut h, _req, ack) = handler_with_worker_acks(1);
    h.start_blocking().unwrap();
    drop(ack);
    assert_eq!(h.close_blocking(), Err(RunnerError::SignalFailure));
    assert_eq!(h.state(), RunnerState::Closed);
}

#[test]
fn close_before_start_is_terminal_too() {
    let (mut h, req, _ack) = handler_with_worker_acks(1);
    assert_eq!(h.close_blocking(), Ok(()));
    assert_eq!(req.try_recv(), Ok(STOP_SIGNAL));
    assert_eq!(h.start_blocking(), Err(RunnerError::Terminal));
}

#[test]
fn error_messages() {
    assert_eq!(RunnerError::AlreadyRunning.message(), "runner already running");
    assert_eq!(RunnerError::NoTaskRunning.message(), "no task running");
    assert_eq!(RunnerError::Terminal.message(), "runner is closed, drop it and create another one");
}

#[test]
fn two_phase_close_commits_then_takes_ack() {
    let (mut h, req, _ack) = handler_with_worker_acks(2);
    h.start_blocking().unwrap();
    assert_eq!(h.begin_close(), Ok(()));
    assert_eq!(h.state(), RunnerState::Closed);
    assert_eq!(h.finish_close(), Ok(()));
    assert_eq!(h.state(), RunnerState::Closed);
    assert_eq!(req.try_recv(), Ok(START_SIGNAL));
    assert_eq!(req.try_recv(), Ok(STOP_SIGNAL));
}
