use vstd::prelude::*;

verus! {

/// The message of a refused proposal.
pub const UNDER_CHANGE: &'static str = "state is under change";

/// A state container whose transitions go through a ticket: a transition is
/// first proposed, which locks the container against any other proposal, and is
/// then resolved by exactly one of the ticket's operations, which consume it.
/// Tickets are issued only inside this crate, and every public operation that
/// takes one resolves it before it returns, so no caller can drop one
/// unresolved and leave the container locked.
pub struct StateManager<F> {
    state: F,
    in_change: bool,
    /// How many proposals were accepted: the ticket of the latest one carries
    /// this number, and only that ticket resolves the manager.
    epoch: Ghost<nat>,
}

/// The ticket of one proposed transition. It holds the state that resolving it
/// may write: the proposed state for [`StateManager::set`], the state before the
/// proposal for [`StateManager::set_first`]. Until it is resolved the manager
/// refuses every other proposal, so it is never dropped unresolved: only this
/// crate obtains tickets, and each of its operations resolves the ticket it
/// takes.
#[must_use]
pub struct StateChangeHandler<F> {
    replace_state: Option<F>,
    epoch: Ghost<nat>,
}

impl<F> StateManager<F> {
    /// The state held now.
    pub closed spec fn current(&self) -> F {
        self.state
    }

    /// Whether a transition is in flight.
    pub closed spec fn busy(&self) -> bool {
        self.in_change
    }

    /// How many proposals this manager has accepted.
    pub closed spec fn spec_epoch(&self) -> nat {
        self.epoch@
    }

    /// Whether a proposal would be accepted now.
    pub open spec fn accepts_proposal(&self) -> bool {
        !self.busy()
    }

    pub fn new(initial_state: F) -> (r: Self)
        ensures
            r.current() == initial_state,
            !r.busy(),
            r.spec_epoch() == 0,
    {
        StateManager { state: initial_state, in_change: false, epoch: Ghost(0) }
    }

    fn _set(&mut self, replace_state: F) -> (r: StateChangeHandler<F>)
        requires
            old(self).accepts_proposal(),
        ensures
            final(self).current() == old(self).current(),
            accepted_proposal(*old(self), *final(self)),
            r.replace_state == Some(replace_state),
            r.resolves(*final(self)),
    {
        self.in_change = true;
        self.epoch = Ghost(self.epoch@ + 1);
        StateChangeHandler { replace_state: Some(replace_state), epoch: Ghost(self.epoch@) }
    }

    /// Proposes `new_state`, which is written only when the ticket is applied.
    pub(crate) fn set(&mut self, new_state: F) -> (r: Result<StateChangeHandler<F>, &'static str>)
        ensures
            r is Ok <==> old(self).accepts_proposal(),
            r is Err ==> r == Err::<StateChangeHandler<F>, &'static str>(UNDER_CHANGE) && *final(self) == *old(self),
            r is Ok ==> final(self).current() == old(self).current()
                && accepted_proposal(*old(self), *final(self))
                && r->Ok_0.resolves(*final(self))
                && r->Ok_0.pending() == Some(new_state),
    {
        if self.is_in_change() {
            return Err(UNDER_CHANGE);
        }
        Ok(self._set(new_state))
    }

    pub fn is_in_change(&self) -> (r: bool)
        ensures
            r == self.busy(),
    {
        self.in_change
    }

    /// Writes `new_state` at once; the ticket keeps the state before, which
    /// restoring the ticket writes back.
    pub(crate) fn set_first(&mut self, new_state: F) -> (r: Result<StateChangeHandler<F>, &'static str>)
        ensures
            r is Ok <==> old(self).accepts_proposal(),
            r is Err ==> r == Err::<StateChangeHandler<F>, &'static str>(UNDER_CHANGE) && *final(self) == *old(self),
            r is Ok ==> final(self).current() == new_state
                && accepted_proposal(*old(self), *final(self))
                && r->Ok_0.resolves(*final(self))
                && r->Ok_0.pending() == Some(old(self).current()),
    {
        if self.is_in_change() {
            return Err(UNDER_CHANGE);
        }
        let mut old_state = new_state;
        std::mem::swap(&mut self.state, &mut old_state);
        Ok(self._set(old_state))
    }

    pub fn get(&self) -> (r: &F)
        ensures
            *r == self.current(),
    {
        &self.state
    }
}

/// `after` is `before` having accepted one proposal: it was free, and is now
/// locked under the next epoch.
pub open spec fn accepted_proposal<F>(before: StateManager<F>, after: StateManager<F>) -> bool {
    &&& before.accepts_proposal()
    &&& after.busy()
    &&& after.spec_epoch() == before.spec_epoch() + 1
}

/// `after` is `before` with its proposal resolved: free again, same epoch.
pub open spec fn resolved<F>(before: StateManager<F>, after: StateManager<F>) -> bool {
    &&& !after.busy()
    &&& after.spec_epoch() == before.spec_epoch()
}

/// At most one transition at a time: of two proposals with no resolution
/// between them, the second is refused.
pub proof fn one_transition_at_a_time<F>(m0: StateManager<F>, m1: StateManager<F>, m2: StateManager<F>)
    requires
        accepted_proposal(m0, m1),
    ensures
        !accepted_proposal(m1, m2),
{
}

/// A ticket resolves only the proposal that issued it: once its manager has
/// been resolved, or has accepted a later proposal, the ticket resolves nothing.
pub proof fn stale_ticket_resolves_nothing<F>(
    m0: StateManager<F>,
    m1: StateManager<F>,
    m2: StateManager<F>,
    t: StateChangeHandler<F>,
)
    requires
        t.resolves(m0),
        resolved(m0, m1),
        m2.spec_epoch() >= m1.spec_epoch(),
        m2.spec_epoch() > m1.spec_epoch() || !m2.busy(),
    ensures
        !t.resolves(m1),
        !t.resolves(m2),
{
}

impl<F> StateChangeHandler<F> {
    /// The state that this ticket holds.
    pub closed spec fn pending(&self) -> Option<F> {
        self.replace_state
    }

    /// Whether this ticket is the one that `m`'s transition in flight issued.
    pub closed spec fn resolves(&self, m: StateManager<F>) -> bool {
        m.in_change && self.epoch@ == m.epoch@
    }

    fn dispose(self, m: &mut StateManager<F>)
        ensures
            final(m).current() == old(m).current(),
            resolved(*old(m), *final(m)),
    {
        m.in_change = false;
    }

    fn write_pending(self, m: &mut StateManager<F>)
        ensures
            final(m).current() == match self.pending() {
                Some(f) => f,
                None => old(m).current(),
            },
            resolved(*old(m), *final(m)),
    {
        let StateChangeHandler { replace_state, epoch: _ } = self;
        if let Some(f) = replace_state {
            m.state = f;
        }
        m.in_change = false;
    }

    fn write_other(self, m: &mut StateManager<F>, new_state: F)
        ensures
            final(m).current() == new_state,
            resolved(*old(m), *final(m)),
    {
        m.state = new_state;
        self.dispose(m);
    }
}

/// Resolutions of a ticket from [`StateManager::set`]: the proposed state is
/// written only by `apply`. Each consumes the ticket.
pub trait SetAfter<F>: Sized {
    /// The state that the ticket would write.
    spec fn proposed(&self) -> Option<F>;

    /// Whether the ticket is the one that `m`'s transition in flight issued.
    spec fn issued_by(&self, m: StateManager<F>) -> bool;

    /// Drops the proposal: the state stays as it was.
    fn ignore(self, m: &mut StateManager<F>)
        requires
            self.issued_by(*old(m)),
        ensures
            final(m).current() == old(m).current(),
            resolved(*old(m), *final(m)),
    ;

    /// Commits the proposed state.
    fn apply(self, m: &mut StateManager<F>)
        requires
            self.issued_by(*old(m)),
        ensures
            final(m).current() == match self.proposed() {
                Some(f) => f,
                None => old(m).current(),
            },
            resolved(*old(m), *final(m)),
    ;

    /// Commits `new_state` in place of the proposed one.
    fn changed_to(self, m: &mut StateManager<F>, new_state: F)
        requires
            self.issued_by(*old(m)),
        ensures
            final(m).current() == new_state,
            resolved(*old(m), *final(m)),
    ;
}

/// Resolutions of a ticket from [`StateManager::set_first`]: the new state is
/// already written, and `restore` writes back the state before it. Each
/// consumes the ticket.
pub trait SetFirst<F>: Sized {
    /// The state that was current before the proposal.
    spec fn previous(&self) -> Option<F>;

    /// Whether the ticket is the one that `m`'s transition in flight issued.
    spec fn issued_by(&self, m: StateManager<F>) -> bool;

    /// Writes back the state before the proposal.
    fn restore(self, m: &mut StateManager<F>)
        requires
            self.issued_by(*old(m)),
        ensures
            final(m).current() == match self.previous() {
                Some(f) => f,
                None => old(m).current(),
            },
            resolved(*old(m), *final(m)),
    ;

    /// Keeps the state written by the proposal.
    fn apply(self, m: &mut StateManager<F>)
        requires
            self.issued_by(*old(m)),
        ensures
            final(m).current() == old(m).current(),
            resolved(*old(m), *final(m)),
    ;

    /// Commits `new_state` in place of the proposed one.
    fn changed_to(self, m: &mut StateManager<F>, new_state: F)
        requires
            self.issued_by(*old(m)),
        ensures
            final(m).current() == new_state,
            resolved(*old(m), *final(m)),
    ;
}

impl<F> SetAfter<F> for StateChangeHandler<F> {
    open spec fn proposed(&self) -> Option<F> {
        self.pending()
    }

    open spec fn issued_by(&self, m: StateManager<F>) -> bool {
        self.resolves(m)
    }

    fn ignore(self, m: &mut StateManager<F>) {
        self.dispose(m)
    }

    fn apply(self, m: &mut StateManager<F>) {
        self.write_pending(m)
    }

    fn changed_to(self, m: &mut StateManager<F>, new_state: F) {
        self.write_other(m, new_state)
    }
}

impl<F> SetFirst<F> for StateChangeHandler<F> {
    open spec fn previous(&self) -> Option<F> {
        self.pending()
    }

    open spec fn issued_by(&self, m: StateManager<F>) -> bool {
        self.resolves(m)
    }

    fn restore(self, m: &mut StateManager<F>) {
        self.write_pending(m)
    }

    fn apply(self, m: &mut StateManager<F>) {
        self.dispose(m)
    }

    fn changed_to(self, m: &mut StateManager<F>, new_state: F) {
        self.write_other(m, new_state)
    }
}

} // verus!
