use vstd::prelude::*;
use crate::error::RunnerError;
use crate::signal::{recv_signal, send_signal};
use crate::state_manager::{SetAfter, SetFirst, StateChangeHandler, StateManager};

verus! {

/// The message that asks the worker to start.
pub const START_SIGNAL: u8 = 0;

/// The message that asks the worker to stop.
pub const STOP_SIGNAL: u8 = 1;

/// Where a handled runner stands in its lifecycle.
#[derive(PartialEq, Eq, Structural, Clone, Copy, Debug)]
pub enum RunnerState {
    /// Running, and accepting a close.
    Active,
    /// Never started, or a start was rolled back.
    Inactive,
    /// A start is in flight.
    Operating,
    /// Closed for good: the handler must be dropped.
    Closed,
}

/// Why a start is refused in state `s`, if it is.
pub open spec fn start_refusal(s: RunnerState) -> Option<RunnerError> {
    match s {
        RunnerState::Active => Some(RunnerError::AlreadyRunning),
        RunnerState::Operating => Some(RunnerError::TransitionInProgress),
        RunnerState::Closed => Some(RunnerError::Terminal),
        RunnerState::Inactive => None,
    }
}

/// Why a close is refused in state `s`, if it is.
pub open spec fn close_refusal(s: RunnerState) -> Option<RunnerError> {
    match s {
        RunnerState::Operating => Some(RunnerError::TransitionInProgress),
        RunnerState::Closed => Some(RunnerError::Terminal),
        _ => None,
    }
}

/// A closed handler is terminal: every further start and close is refused as
/// such, and nothing restarts it.
pub proof fn closed_is_terminal()
    ensures
        start_refusal(RunnerState::Closed) == Some(RunnerError::Terminal),
        close_refusal(RunnerState::Closed) == Some(RunnerError::Terminal),
{
}

/// `after` is `before` having sent one stop request and committed `Closed`,
/// as a close that succeeds leaves it.
pub open spec fn close_committed(before: RunnerHandler, after: RunnerHandler) -> bool {
    &&& close_refusal(before.spec_state()) is None
    &&& after.spec_state() == RunnerState::Closed
    &&& after.spec_sent() == before.spec_sent().push(STOP_SIGNAL)
}

/// Of two closes, one at most sends the stop request: after a close has
/// committed, the next is refused as terminal, and no close commits from there.
pub proof fn close_is_exclusive(h0: RunnerHandler, h1: RunnerHandler, h2: RunnerHandler)
    requires
        close_committed(h0, h1),
    ensures
        close_refusal(h1.spec_state()) == Some(RunnerError::Terminal),
        !close_committed(h1, h2),
{
}

/// Guarded start and close of a worker, with a round-trip acknowledgement
/// over two single-slot channels: one carries requests to the worker, the
/// other its acknowledgements. Each public operation takes its transition
/// ticket and resolves it before returning, as its `wf` postcondition states,
/// so no transition is ever left in flight between calls.
pub struct RunnerHandler {
    s: async_channel::Sender<u8>,
    r: async_channel::Receiver<u8>,
    state: StateManager<RunnerState>,
    /// The requests sent to the worker, in order.
    sent: Ghost<Seq<u8>>,
    /// How many acknowledgements were received.
    acks: Ghost<nat>,
}

impl RunnerHandler {
    pub closed spec fn spec_state(&self) -> RunnerState {
        self.state.current()
    }

    pub closed spec fn spec_sent(&self) -> Seq<u8> {
        self.sent@
    }

    pub closed spec fn spec_acks(&self) -> nat {
        self.acks@
    }

    /// No transition is left in flight between operations.
    pub open spec fn wf(&self) -> bool {
        !self.in_transition()
    }

    pub closed spec fn in_transition(&self) -> bool {
        self.state.busy()
    }

    /// Whether `t` is the ticket of this handler's transition in flight.
    pub closed spec fn holds_ticket(&self, t: StateChangeHandler<RunnerState>) -> bool {
        t.resolves(self.state)
    }

    pub fn new(s: async_channel::Sender<u8>, r: async_channel::Receiver<u8>) -> (h: Self)
        ensures
            h.wf(),
            h.spec_state() == RunnerState::Inactive,
            h.spec_sent() == Seq::<u8>::empty(),
            h.spec_acks() == 0,
    {
        RunnerHandler {
            s,
            r,
            state: StateManager::new(RunnerState::Inactive),
            sent: Ghost(Seq::empty()),
            acks: Ghost(0),
        }
    }

    pub fn state(&self) -> (r: RunnerState)
        ensures
            r == self.spec_state(),
    {
        *self.state.get()
    }

    /// Checks that a start may begin and marks it in flight: the state becomes
    /// `Operating`, and the ticket keeps `Inactive` to roll back to.
    pub(crate) fn propose_start(&mut self) -> (r: Result<StateChangeHandler<RunnerState>, RunnerError>)
        requires
            old(self).wf(),
        ensures
            start_refusal(old(self).spec_state()) matches Some(e) ==> r == Err::<StateChangeHandler<RunnerState>, _>(e)
                && *final(self) == *old(self),
            start_refusal(old(self).spec_state()) is None ==> r is Ok && final(self).in_transition()
                && final(self).holds_ticket(r->Ok_0)
                && final(self).spec_state() == RunnerState::Operating
                && r->Ok_0.pending() == Some(RunnerState::Inactive),
            final(self).spec_sent() == old(self).spec_sent(),
            final(self).spec_acks() == old(self).spec_acks(),
    {
        match self.state() {
            RunnerState::Active => Err(RunnerError::AlreadyRunning),
            RunnerState::Operating => Err(RunnerError::TransitionInProgress),
            RunnerState::Closed => Err(RunnerError::Terminal),
            RunnerState::Inactive => match self.state.set_first(RunnerState::Operating) {
                Ok(ticket) => Ok(ticket),
                Err(_) => Err(RunnerError::TransitionInProgress),
            },
        }
    }

    /// Resolves a proposed start once the start request was sent (`sent`) or
    /// could not be: kept as `Operating`, or rolled back to `Inactive`.
    pub(crate) fn settle_start_request(&mut self, ticket: StateChangeHandler<RunnerState>, sent: bool) -> (r: Result<(), RunnerError>)
        requires
            old(self).holds_ticket(ticket),
            old(self).spec_state() == RunnerState::Operating,
            ticket.pending() == Some(RunnerState::Inactive),
        ensures
            final(self).wf(),
            sent ==> r is Ok && final(self).spec_state() == RunnerState::Operating,
            !sent ==> r == Err::<(), _>(RunnerError::SignalFailure) && final(self).spec_state() == RunnerState::Inactive,
            final(self).spec_sent() == old(self).spec_sent(),
            final(self).spec_acks() == old(self).spec_acks(),
    {
        if !sent {
            SetFirst::restore(ticket, &mut self.state);
            return Err(RunnerError::SignalFailure);
        }
        SetFirst::apply(ticket, &mut self.state);
        Ok(())
    }

    /// Resolves the wait for the worker's start acknowledgement: `Active` when
    /// it came (`received`), back to `Inactive` when the channel closed.
    pub(crate) fn settle_started(&mut self, ticket: StateChangeHandler<RunnerState>, received: bool) -> (r: Result<(), RunnerError>)
        requires
            old(self).holds_ticket(ticket),
            ticket.pending() == Some(RunnerState::Active),
        ensures
            final(self).wf(),
            received ==> r is Ok && final(self).spec_state() == RunnerState::Active,
            !received ==> r == Err::<(), _>(RunnerError::SignalFailure) && final(self).spec_state() == RunnerState::Inactive,
            final(self).spec_sent() == old(self).spec_sent(),
            final(self).spec_acks() == old(self).spec_acks(),
    {
        if !received {
            SetAfter::changed_to(ticket, &mut self.state, RunnerState::Inactive);
            return Err(RunnerError::SignalFailure);
        }
        SetAfter::apply(ticket, &mut self.state);
        Ok(())
    }

    /// The first half of a start: refuses it where the state forbids it,
    /// otherwise sends the start request. On success the state is `Operating`
    /// until [`RunnerHandler::finish_start`] runs.
    pub fn begin_start(&mut self) -> (r: Result<(), RunnerError>)
        requires
            old(self).wf(),
        ensures
            final(self).wf(),
            final(self).spec_acks() == old(self).spec_acks(),
            start_refusal(old(self).spec_state()) matches Some(e) ==> r == Err::<(), _>(e)
                && *final(self) == *old(self),
            start_refusal(old(self).spec_state()) is None ==> (r is Ok && final(self).spec_state() == RunnerState::Operating
                && final(self).spec_sent() == old(self).spec_sent().push(START_SIGNAL))
                || (r == Err::<(), _>(RunnerError::SignalFailure) && final(self).spec_state() == RunnerState::Inactive
                && final(self).spec_sent() == old(self).spec_sent()),
    {
        let ticket = match self.propose_start() {
            Ok(t) => t,
            Err(e) => return Err(e),
        };
        let sent = send_signal(&self.s, START_SIGNAL);
        if sent {
            self.sent = Ghost(self.sent@.push(START_SIGNAL));
        }
        self.settle_start_request(ticket, sent)
    }

    /// The second half of a start: waits for the worker's acknowledgement.
    pub fn finish_start(&mut self) -> (r: Result<(), RunnerError>)
        requires
            old(self).wf(),
            old(self).spec_state() == RunnerState::Operating,
        ensures
            final(self).wf(),
            final(self).spec_sent() == old(self).spec_sent(),
            (r is Ok && final(self).spec_state() == RunnerState::Active && final(self).spec_acks() == old(self).spec_acks() + 1)
                || (r == Err::<(), _>(RunnerError::SignalFailure) && final(self).spec_state() == RunnerState::Inactive
                && final(self).spec_acks() == old(self).spec_acks()),
    {
        let ticket = match self.state.set(RunnerState::Active) {
            Ok(t) => t,
            Err(_) => return Err(RunnerError::TransitionInProgress),
        };
        let received = recv_signal(&self.r);
        if received {
            self.acks = Ghost(self.acks@ + 1);
        }
        self.settle_started(ticket, received)
    }

    /// Starts the worker and waits for its acknowledgement.
    pub fn start_blocking(&mut self) -> (r: Result<(), RunnerError>)
        requires
            old(self).wf(),
        ensures
            final(self).wf(),
            start_refusal(old(self).spec_state()) matches Some(e) ==> r == Err::<(), _>(e)
                && *final(self) == *old(self),
            r is Ok ==> final(self).spec_state() == RunnerState::Active
                && final(self).spec_sent() == old(self).spec_sent().push(START_SIGNAL)
                && final(self).spec_acks() == old(self).spec_acks() + 1,
            start_refusal(old(self).spec_state()) is None && r is Err ==> r == Err::<(), _>(RunnerError::SignalFailure)
                && final(self).spec_state() == RunnerState::Inactive
                && final(self).spec_acks() == old(self).spec_acks()
                && (final(self).spec_sent() == old(self).spec_sent()
                    || final(self).spec_sent() == old(self).spec_sent().push(START_SIGNAL)),
    {
        match self.begin_start() {
            Ok(()) => self.finish_start(),
            Err(e) => Err(e),
        }
    }

    /// Checks that a close may begin and proposes `Closed`; the state itself
    /// is left as it is until the ticket is resolved.
    pub(crate) fn propose_close(&mut self) -> (r: Result<StateChangeHandler<RunnerState>, RunnerError>)
        requires
            old(self).wf(),
        ensures
            close_refusal(old(self).spec_state()) matches Some(e) ==> r == Err::<StateChangeHandler<RunnerState>, _>(e)
                && *final(self) == *old(self),
            close_refusal(old(self).spec_state()) is None ==> r is Ok && final(self).in_transition()
                && final(self).holds_ticket(r->Ok_0)
                && final(self).spec_state() == old(self).spec_state()
                && r->Ok_0.pending() == Some(RunnerState::Closed),
            final(self).spec_sent() == old(self).spec_sent(),
            final(self).spec_acks() == old(self).spec_acks(),
    {
        match self.state() {
            RunnerState::Operating => Err(RunnerError::TransitionInProgress),
            RunnerState::Closed => Err(RunnerError::Terminal),
            _ => match self.state.set(RunnerState::Closed) {
                Ok(ticket) => Ok(ticket),
                Err(_) => Err(RunnerError::TransitionInProgress),
            },
        }
    }

    /// Resolves a proposed close once a message was sent or received (`done`)
    /// or the channel was found closed: `Closed` is committed on success, and
    /// on failure the state stays what it was before the proposal.
    pub(crate) fn settle_close(&mut self, ticket: StateChangeHandler<RunnerState>, done: bool) -> (r: Result<(), RunnerError>)
        requires
            old(self).holds_ticket(ticket),
            ticket.pending() == Some(RunnerState::Closed),
        ensures
            final(self).wf(),
            done ==> r is Ok && final(self).spec_state() == RunnerState::Closed,
            !done ==> r == Err::<(), _>(RunnerError::SignalFailure) && final(self).spec_state() == old(self).spec_state(),
            final(self).spec_sent() == old(self).spec_sent(),
            final(self).spec_acks() == old(self).spec_acks(),
    {
        if !done {
            SetAfter::ignore(ticket, &mut self.state);
            return Err(RunnerError::SignalFailure);
        }
        SetAfter::apply(ticket, &mut self.state);
        Ok(())
    }

    /// The first half of a close: refuses it where the state forbids it,
    /// otherwise sends the stop request and commits `Closed`.
    pub fn begin_close(&mut self) -> (r: Result<(), RunnerError>)
        requires
            old(self).wf(),
        ensures
            final(self).wf(),
            final(self).spec_acks() == old(self).spec_acks(),
            close_refusal(old(self).spec_state()) matches Some(e) ==> r == Err::<(), _>(e)
                && *final(self) == *old(self),
            r is Ok ==> close_committed(*old(self), *final(self)),
            close_refusal(old(self).spec_state()) is None && r is Err ==> r == Err::<(), _>(RunnerError::SignalFailure)
                && final(self).spec_state() == old(self).spec_state()
                && final(self).spec_sent() == old(self).spec_sent(),
    {
        let ticket = match self.propose_close() {
            Ok(t) => t,
            Err(e) => return Err(e),
        };
        let sent = send_signal(&self.s, STOP_SIGNAL);
        if sent {
            self.sent = Ghost(self.sent@.push(STOP_SIGNAL));
        }
        self.settle_close(ticket, sent)
    }

    /// The second half of a close: waits for the worker's stop
    /// acknowledgement. The state stays `Closed` either way.
    pub fn finish_close(&mut self) -> (r: Result<(), RunnerError>)
        requires
            old(self).wf(),
            old(self).spec_state() == RunnerState::Closed,
        ensures
            final(self).wf(),
            final(self).spec_state() == RunnerState::Closed,
            final(self).spec_sent() == old(self).spec_sent(),
            r is Ok ==> final(self).spec_acks() == old(self).spec_acks() + 1,
            r is Err ==> r == Err::<(), _>(RunnerError::SignalFailure) && final(self).spec_acks() == old(self).spec_acks(),
    {
        let ticket = match self.state.set(RunnerState::Closed) {
            Ok(t) => t,
            Err(_) => return Err(RunnerError::TransitionInProgress),
        };
        let received = recv_signal(&self.r);
        if received {
            self.acks = Ghost(self.acks@ + 1);
        }
        self.settle_close(ticket, received)
    }

    /// Stops the worker and waits for its acknowledgement.
    pub fn close_blocking(&mut self) -> (r: Result<(), RunnerError>)
        requires
            old(self).wf(),
        ensures
            final(self).wf(),
            close_refusal(old(self).spec_state()) matches Some(e) ==> r == Err::<(), _>(e)
                && *final(self) == *old(self),
            r is Ok ==> close_committed(*old(self), *final(self))
                && final(self).spec_acks() == old(self).spec_acks() + 1,
            close_refusal(old(self).spec_state()) is None && r is Err ==> r == Err::<(), _>(RunnerError::SignalFailure)
                && final(self).spec_acks() == old(self).spec_acks()
                && ((final(self).spec_state() == old(self).spec_state() && final(self).spec_sent() == old(self).spec_sent())
                    || close_committed(*old(self), *final(self))),
    {
        match self.begin_close() {
            Ok(()) => self.finish_close(),
            Err(e) => Err(e),
        }
    }
}

} // verus!
