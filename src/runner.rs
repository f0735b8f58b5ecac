use vstd::prelude::*;
use crate::clock::{DriftClock, Worker};
use crate::error::RunnerError;
use crate::signal::{close_stop, send_signal, stop_channel};

verus! {

/// A runner's decisions: it holds its task until the first start hands it,
/// with the pace and the stop channel's receiving end, to a worker; it can be
/// started once. The thread that runs the worker belongs to the caller.
pub struct Runner<K> {
    t: Option<K>,
    clock: DriftClock,
    stop_signal_sender: Option<async_channel::Sender<()>>,
    /// How many stop requests were handed to the stop channel.
    stop_requests: Ghost<nat>,
    /// Whether the stop channel was closed.
    released: Ghost<bool>,
}

/// `after` is `before` after a start that handed out a worker (`yielded`) or
/// not: a start hands one out exactly when the runner was never started, and
/// otherwise changes nothing.
pub open spec fn start_step<K>(before: Runner<K>, after: Runner<K>, yielded: bool) -> bool {
    &&& after.spec_started()
    &&& yielded == !before.spec_started()
    &&& !yielded ==> after == before
}

/// A runner is started at most once: of two starts, the second hands out no
/// worker and changes nothing.
pub proof fn start_at_most_once<K>(r0: Runner<K>, r1: Runner<K>, r2: Runner<K>, y1: bool, y2: bool)
    requires
        start_step(r0, r1, y1),
        start_step(r1, r2, y2),
    ensures
        !y2,
        r2 == r1,
{
}

impl<K> Runner<K> {
    pub closed spec fn spec_started(&self) -> bool {
        self.stop_signal_sender is Some
    }

    pub closed spec fn spec_clock(&self) -> DriftClock {
        self.clock
    }

    /// The task, until a start hands it to the worker.
    pub closed spec fn spec_task(&self) -> Option<K> {
        self.t
    }

    pub closed spec fn spec_stop_requests(&self) -> nat {
        self.stop_requests@
    }

    pub closed spec fn spec_released(&self) -> bool {
        self.released@
    }

    pub closed spec fn wf(&self) -> bool {
        &&& self.clock.wf()
        &&& self.clock.spec_overrun() == 0
        &&& self.t is Some <==> !self.spec_started()
    }

    /// A runner of `task` every `interval_nanos` nanoseconds; a zero interval
    /// is refused.
    pub fn new(interval_nanos: u64, task: K) -> (r: Result<Runner<K>, RunnerError>)
        ensures
            r is Ok <==> interval_nanos != 0,
            interval_nanos == 0 ==> r == Err::<Runner<K>, _>(RunnerError::ZeroInterval),
            r is Ok ==> r->Ok_0.wf() && !r->Ok_0.spec_started()
                && r->Ok_0.spec_task() == Some(task)
                && r->Ok_0.spec_clock().spec_interval() == interval_nanos
                && r->Ok_0.spec_clock().spec_overrun() == 0
                && r->Ok_0.spec_stop_requests() == 0
                && !r->Ok_0.spec_released(),
    {
        match DriftClock::new(interval_nanos) {
            Ok(clock) => Ok(Runner {
                t: Some(task),
                clock,
                stop_signal_sender: None,
                stop_requests: Ghost(0),
                released: Ghost(false),
            }),
            Err(e) => Err(e),
        }
    }

    pub fn is_started(&self) -> (r: bool)
        ensures
            r == self.spec_started(),
    {
        self.stop_signal_sender.is_some()
    }

    /// Starts the runner: on the first call, the worker to run on a thread of
    /// its own, holding the task; on any later call, nothing, and the runner is
    /// left as it was.
    pub fn start(&mut self) -> (r: Option<Worker<K>>)
        requires
            old(self).wf(),
        ensures
            final(self).wf(),
            start_step(*old(self), *final(self), r is Some),
            final(self).spec_stop_requests() == old(self).spec_stop_requests(),
            final(self).spec_released() == old(self).spec_released(),
            r matches Some(w) ==> w.spec_clock() == old(self).spec_clock()
                && old(self).spec_task() == Some(w.spec_task())
                && final(self).spec_task() is None
                && w.spec_calls().len() == 0
                && w.spec_readings().len() == 0
                && w.paced()
                && w.spec_start_overrun() == 0
                && w.spec_polls().len() == 0,
    {
        if self.stop_signal_sender.is_some() {
            return None;
        }
        let (sender, receiver) = stop_channel();
        match self.t.take() {
            Some(task) => {
                self.stop_signal_sender = Some(sender);
                Some(Worker::new(self.clock, task, receiver))
            },
            None => None,
        }
    }

    /// Asks the worker to stop; refused before any start.
    pub fn request_stop(&mut self) -> (r: Result<(), RunnerError>)
        ensures
            r is Ok <==> old(self).spec_started(),
            r is Err ==> r == Err::<(), _>(RunnerError::NoTaskRunning) && *final(self) == *old(self),
            r is Ok ==> final(self).spec_stop_requests() == old(self).spec_stop_requests() + 1,
            final(self).spec_started() == old(self).spec_started(),
            final(self).spec_task() == old(self).spec_task(),
            final(self).spec_clock() == old(self).spec_clock(),
            final(self).spec_released() == old(self).spec_released(),
            old(self).wf() ==> final(self).wf(),
    {
        match &self.stop_signal_sender {
            Some(s) => {
                send_signal(s, ());
                self.stop_requests = Ghost(self.stop_requests@ + 1);
                Ok(())
            },
            None => Err(RunnerError::NoTaskRunning),
        }
    }

    /// Closes the stop channel once the worker has ended by itself; refused
    /// before any start.
    pub fn release(&mut self) -> (r: Result<(), RunnerError>)
        ensures
            r is Ok <==> old(self).spec_started(),
            r is Err ==> r == Err::<(), _>(RunnerError::NoTaskRunning) && *final(self) == *old(self),
            r is Ok ==> final(self).spec_released(),
            final(self).spec_started() == old(self).spec_started(),
            final(self).spec_task() == old(self).spec_task(),
            final(self).spec_clock() == old(self).spec_clock(),
            final(self).spec_stop_requests() == old(self).spec_stop_requests(),
            old(self).wf() ==> final(self).wf(),
    {
        match &self.stop_signal_sender {
            Some(s) => {
                close_stop(s);
                self.released = Ghost(true);
                Ok(())
            },
            None => Err(RunnerError::NoTaskRunning),
        }
    }
}

} // verus!
