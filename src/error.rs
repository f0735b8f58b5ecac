use vstd::prelude::*;

verus! {

/// Why a lifecycle operation or a construction was refused.
#[derive(PartialEq, Eq, Structural, Clone, Copy, Debug)]
pub enum RunnerError {
    /// Start was asked of a runner that is already running.
    AlreadyRunning,
    /// Another start or close is in flight.
    TransitionInProgress,
    /// The runner is closed and must be dropped.
    Terminal,
    /// Close or join was asked before any start.
    NoTaskRunning,
    /// A handshake signal could not be sent or received: the peer is gone.
    SignalFailure,
    /// The interval is zero.
    ZeroInterval,
}

impl RunnerError {
    pub fn message(&self) -> (r: &'static str)
        ensures
            r == match self {
                RunnerError::AlreadyRunning => "runner already running",
                RunnerError::TransitionInProgress => "runner is starting or closing, wait for it to finish",
                RunnerError::Terminal => "runner is closed, drop it and create another one",
                RunnerError::NoTaskRunning => "no task running",
                RunnerError::SignalFailure => "error sending or receiving a lifecycle signal",
                RunnerError::ZeroInterval => "interval must be longer than zero",
            },
    {
        match self {
            RunnerError::AlreadyRunning => "runner already running",
            RunnerError::TransitionInProgress => "runner is starting or closing, wait for it to finish",
            RunnerError::Terminal => "runner is closed, drop it and create another one",
            RunnerError::NoTaskRunning => "no task running",
            RunnerError::SignalFailure => "error sending or receiving a lifecycle signal",
            RunnerError::ZeroInterval => "interval must be longer than zero",
        }
    }
}

} // verus!
