use vstd::prelude::*;
use crate::signal::{poll_stop, StopPoll};
use crate::task::{StopSignal, TaskExt};

verus! {

/// std's monotonic `Instant`, carried opaque: frames are marked with it.
#[verifier::external_type_specification]
#[verifier::external_body]
pub struct ExInstant(std::time::Instant);

/// Relies on Instant::now to mark the start of a frame; nothing is promised of
/// the value.
pub assume_specification[ std::time::Instant::now ]() -> std::time::Instant;

/// Relies on Instant::elapsed, read in whole nanoseconds: the time since `mark`.
#[verifier::external_body]
fn nanos_since(mark: &std::time::Instant) -> (r: u128) {
    mark.elapsed().as_nanos()
}

/// Relies on spin_sleep::sleep: blocks the thread for at least `nanos`
/// nanoseconds, and returns; the deadline it computes, now plus at most
/// `u64::MAX` nanoseconds, does not overflow an `Instant`.
#[verifier::external_body]
fn sleep_nanos(nanos: u64) {
    spin_sleep::sleep(std::time::Duration::from_nanos(nanos))
}

/// The time that a frame has taken: what was measured since the frame began,
/// plus the error carried from the frame before, capped at the largest `u128`.
pub open spec fn frame_elapsed(measured: int, carried: int) -> int {
    if measured + carried > u128::MAX {
        u128::MAX as int
    } else {
        measured + carried
    }
}

/// How long to sleep once a frame has taken `elapsed` of an `interval`: the
/// rest of the interval, or nothing when the frame overran it.
pub open spec fn gap_of(interval: int, elapsed: int) -> Option<int> {
    if elapsed < interval {
        Some(interval - elapsed)
    } else {
        None
    }
}

/// The oversleep of a sleep asked for `gap` that took `slept`.
pub open spec fn overrun_after_sleep(slept: int, gap: int) -> int {
    if slept >= gap {
        slept - gap
    } else {
        0
    }
}

/// The drift-compensating pace of a loop: its interval, and the timing error
/// carried into the next frame. Times are in nanoseconds.
#[derive(Clone, Copy, Debug)]
pub struct DriftClock {
    interval: u64,
    last_overrun: u128,
}

impl DriftClock {
    pub closed spec fn spec_interval(&self) -> int {
        self.interval as int
    }

    pub closed spec fn spec_overrun(&self) -> int {
        self.last_overrun as int
    }

    pub closed spec fn wf(&self) -> bool {
        self.interval > 0
    }

    /// A clock for `interval_nanos`, with no error carried yet; a zero interval
    /// is refused.
    pub fn new(interval_nanos: u64) -> (r: Result<DriftClock, crate::error::RunnerError>)
        ensures
            r is Ok <==> interval_nanos != 0,
            interval_nanos == 0 ==> r == Err::<DriftClock, _>(crate::error::RunnerError::ZeroInterval),
            r.is_ok() ==> r->Ok_0.wf() && r->Ok_0.spec_interval() == interval_nanos
                && r->Ok_0.spec_overrun() == 0,
    {
        if interval_nanos == 0 {
            return Err(crate::error::RunnerError::ZeroInterval);
        }
        Ok(DriftClock { interval: interval_nanos, last_overrun: 0 })
    }

    pub fn interval(&self) -> (r: u64)
        ensures
            r == self.spec_interval(),
    {
        self.interval
    }

    pub fn last_overrun(&self) -> (r: u128)
        ensures
            r == self.spec_overrun(),
    {
        self.last_overrun
    }

    /// The sleep owed after a frame of which `measured` nanoseconds were
    /// measured, with the carried error folded in; `None` when the frame
    /// overran its interval.
    pub fn gap(&self, measured: u128) -> (r: Option<u64>)
        ensures
            r matches Some(g) ==> gap_of(self.spec_interval(), frame_elapsed(measured as int, self.spec_overrun())) == Some(g as int),
            r is None ==> gap_of(self.spec_interval(), frame_elapsed(measured as int, self.spec_overrun())) is None,
    {
        let elapsed: u128 = if measured > u128::MAX - self.last_overrun {
            u128::MAX
        } else {
            measured + self.last_overrun
        };
        if elapsed < self.interval as u128 {
            Some((self.interval as u128 - elapsed) as u64)
        } else {
            None
        }
    }

    /// The error carried after a frame that measured `measured` before its
    /// sleep decision and `phase` in its sleep phase: the oversleep when the
    /// frame slept, the whole phase when it overran.
    pub open spec fn overrun_after_frame(&self, measured: int, phase: int) -> int {
        match gap_of(self.spec_interval(), frame_elapsed(measured, self.spec_overrun())) {
            Some(g) => overrun_after_sleep(phase, g),
            None => phase,
        }
    }

    /// Carries the oversleep of a sleep asked for `gap` that took `slept`.
    pub fn after_sleep(&mut self, slept: u128, gap: u64)
        ensures
            final(self).spec_interval() == old(self).spec_interval(),
            final(self).wf() == old(self).wf(),
            final(self).spec_overrun() == overrun_after_sleep(slept as int, gap as int),
    {
        self.last_overrun = if slept >= gap as u128 {
            slept - gap as u128
        } else {
            0
        };
    }

    /// Carries the whole of a phase that did not sleep, the frame having
    /// overrun its interval.
    pub fn after_overrun(&mut self, phase: u128)
        ensures
            final(self).spec_interval() == old(self).spec_interval(),
            final(self).wf() == old(self).wf(),
            final(self).spec_overrun() == phase,
    {
        self.last_overrun = phase;
    }
}

/// The error carried after the first `n` frames of a run that started with
/// `start_overrun` carried, frame `i` having measured `readings[i].0` before
/// its sleep decision and `readings[i].1` in its sleep phase.
pub open spec fn carried_after(interval: int, start_overrun: int, readings: Seq<(int, int)>, n: nat) -> int
    decreases n,
{
    if n == 0 {
        start_overrun
    } else {
        let c = carried_after(interval, start_overrun, readings, (n - 1) as nat);
        match gap_of(interval, frame_elapsed(readings[n - 1].0, c)) {
            Some(g) => overrun_after_sleep(readings[n - 1].1, g),
            None => readings[n - 1].1,
        }
    }
}

/// Whether each of the first `n` frames owed a sleep, and slept at least its
/// gap.
pub open spec fn frames_slept(interval: int, start_overrun: int, readings: Seq<(int, int)>, n: nat) -> bool
    decreases n,
{
    if n == 0 {
        true
    } else {
        let c = carried_after(interval, start_overrun, readings, (n - 1) as nat);
        &&& frames_slept(interval, start_overrun, readings, (n - 1) as nat)
        &&& gap_of(interval, frame_elapsed(readings[n - 1].0, c)) is Some
        &&& readings[n - 1].1 >= interval - frame_elapsed(readings[n - 1].0, c)
    }
}

/// The time that the first `n` frames took: each its measured part and its
/// sleep phase.
pub open spec fn frames_time(readings: Seq<(int, int)>, n: nat) -> int
    decreases n,
{
    if n == 0 {
        0
    } else {
        frames_time(readings, (n - 1) as nat) + readings[n - 1].0 + readings[n - 1].1
    }
}

/// The carried error after `n` frames depends on those frames alone.
proof fn carried_after_prefix(interval: int, start_overrun: int, a: Seq<(int, int)>, b: Seq<(int, int)>, n: nat)
    requires
        n <= a.len(),
        n <= b.len(),
        forall|i: int| 0 <= i < n ==> a[i] == b[i],
    ensures
        carried_after(interval, start_overrun, a, n) == carried_after(interval, start_overrun, b, n),
    decreases n,
{
    if n > 0 {
        carried_after_prefix(interval, start_overrun, a, b, (n - 1) as nat);
        assert(a[n - 1] == b[n - 1]);
    }
}

/// Cadence: over frames that each sleep their gap, the time taken is exactly
/// `n` intervals, corrected by the change of the carried error; the sleeps'
/// own oversleep does not accumulate.
pub proof fn cadence_converges(interval: int, start_overrun: int, readings: Seq<(int, int)>, n: nat)
    requires
        n <= readings.len(),
        0 < interval <= u64::MAX,
        0 <= start_overrun,
        forall|i: int| 0 <= i < readings.len() ==> 0 <= (#[trigger] readings[i]).0,
        frames_slept(interval, start_overrun, readings, n),
    ensures
        frames_time(readings, n) == n * interval + carried_after(interval, start_overrun, readings, n) - start_overrun,
        carried_after(interval, start_overrun, readings, n) >= 0,
    decreases n,
{
    if n > 0 {
        let k = (n - 1) as nat;
        cadence_converges(interval, start_overrun, readings, k);
        let c = carried_after(interval, start_overrun, readings, k);
        assert(readings[k as int].0 >= 0);
        assert(frame_elapsed(readings[k as int].0, c) == readings[k as int].0 + c);
        assert(n * interval == k * interval + interval) by (nonlinear_arith)
            requires n == k + 1;
    }
}

/// Cadence of a running worker: when every frame it has run slept its gap,
/// those frames took exactly as many intervals, corrected by the change of the
/// carried error.
pub proof fn worker_cadence<K>(w: Worker<K>)
    requires
        w.paced(),
        frames_slept(w.spec_clock().spec_interval(), w.spec_start_overrun(), w.spec_readings(), w.spec_readings().len()),
    ensures
        frames_time(w.spec_readings(), w.spec_readings().len()) == w.spec_readings().len() * w.spec_clock().spec_interval()
            + w.spec_clock().spec_overrun() - w.spec_start_overrun(),
{
    cadence_converges(w.spec_clock().spec_interval(), w.spec_start_overrun(), w.spec_readings(), w.spec_readings().len());
}

/// How a loop ended.
#[derive(PartialEq, Eq, Structural, Clone, Copy, Debug)]
pub enum LoopExit {
    /// A stop was asked for through the channel, or its sender is gone.
    StopRequested,
    /// The task returned its stop signal.
    TaskStopped,
}

/// Whether a poll of the stop channel ends the loop: a stop message does, and
/// so does a sender that is gone, since no stop could come any more.
pub open spec fn poll_ends_loop(p: StopPoll) -> bool {
    !(p is Empty)
}

/// Whether a poll of the stop channel ends the loop.
pub fn stop_after_poll(p: StopPoll) -> (r: bool)
    ensures
        r == poll_ends_loop(p),
{
    match p {
        StopPoll::Empty => false,
        _ => true,
    }
}

/// What the loop's thread owns: the pace, the task, and the receiving end of
/// the stop channel.
pub struct Worker<K> {
    clock: DriftClock,
    task: K,
    stop: async_channel::Receiver<()>,
    /// The signal of each call of the task so far: whether it asked to stop.
    calls: Ghost<Seq<bool>>,
    /// For each frame that ran to its end: the time measured before the sleep
    /// decision, and the time of the sleep phase.
    readings: Ghost<Seq<(int, int)>>,
    /// The error the clock carried when the worker was made.
    start_overrun: Ghost<int>,
    /// What each poll of the stop channel found, in order.
    polls: Ghost<Seq<StopPoll>>,
}

impl<K> Worker<K> {
    pub closed spec fn spec_clock(&self) -> DriftClock {
        self.clock
    }

    pub closed spec fn spec_task(&self) -> K {
        self.task
    }

    pub closed spec fn spec_calls(&self) -> Seq<bool> {
        self.calls@
    }

    pub closed spec fn spec_readings(&self) -> Seq<(int, int)> {
        self.readings@
    }

    pub closed spec fn spec_start_overrun(&self) -> int {
        self.start_overrun@
    }

    pub closed spec fn spec_polls(&self) -> Seq<StopPoll> {
        self.polls@
    }

    /// The clock carries what its readings imply: the pace has been kept by
    /// the drift rule from the start, and every reading is a duration.
    pub open spec fn paced(&self) -> bool {
        &&& self.spec_clock().wf()
        &&& self.spec_start_overrun() >= 0
        &&& forall|i: int| 0 <= i < self.spec_readings().len() ==> 0 <= (#[trigger] self.spec_readings()[i]).0
            && 0 <= self.spec_readings()[i].1
        &&& self.spec_clock().spec_overrun() == carried_after(
            self.spec_clock().spec_interval(),
            self.spec_start_overrun(),
            self.spec_readings(),
            self.spec_readings().len(),
        )
    }

    pub fn new(clock: DriftClock, task: K, stop: async_channel::Receiver<()>) -> (r: Worker<K>)
        ensures
            r.spec_clock() == clock,
            r.spec_task() == task,
            r.spec_calls() == Seq::<bool>::empty(),
            r.spec_readings() == Seq::<(int, int)>::empty(),
            r.spec_start_overrun() == clock.spec_overrun(),
            r.spec_polls() == Seq::<StopPoll>::empty(),
            clock.wf() ==> r.paced(),
    {
        Worker {
            clock,
            task,
            stop,
            calls: Ghost(Seq::empty()),
            readings: Ghost(Seq::empty()),
            start_overrun: Ghost(clock.last_overrun as int),
            polls: Ghost(Seq::empty()),
        }
    }

    pub fn clock(&self) -> (r: &DriftClock)
        ensures
            *r == self.spec_clock(),
    {
        &self.clock
    }

    /// Runs one frame: ends the loop, without calling the task, if the stop
    /// channel holds a stop or its sender is gone; otherwise calls the task
    /// once, and ends the loop if it signals stop; otherwise sleeps the rest of
    /// the interval, folding the timing error of this frame into the next, so
    /// that the mean period tends to the interval.
    pub fn tick<S: StopSignal>(&mut self) -> (r: Option<LoopExit>)
        where
            K: TaskExt<S>,
        ensures
            final(self).spec_clock().spec_interval() == old(self).spec_clock().spec_interval(),
            final(self).spec_clock().wf() == old(self).spec_clock().wf(),
            final(self).spec_start_overrun() == old(self).spec_start_overrun(),
            old(self).paced() ==> final(self).paced(),
            final(self).spec_polls().len() == old(self).spec_polls().len() + 1,
            final(self).spec_polls().drop_last() == old(self).spec_polls(),
            r == Some(LoopExit::StopRequested) <==> poll_ends_loop(final(self).spec_polls().last()),
            r == Some(LoopExit::StopRequested) ==> final(self).spec_calls() == old(self).spec_calls(),
            r == Some(LoopExit::TaskStopped) ==> final(self).spec_calls() == old(self).spec_calls().push(true),
            r is None ==> final(self).spec_calls() == old(self).spec_calls().push(false),
            r is Some ==> final(self).spec_clock() == old(self).spec_clock()
                && final(self).spec_readings() == old(self).spec_readings(),
            r is None ==> final(self).spec_readings().len() == old(self).spec_readings().len() + 1
                && final(self).spec_readings().drop_last() == old(self).spec_readings()
                && final(self).spec_clock().spec_overrun() == old(self).spec_clock().overrun_after_frame(
                    final(self).spec_readings().last().0,
                    final(self).spec_readings().last().1,
                ),
    {
        let frame = std::time::Instant::now();
        let poll = poll_stop(&self.stop);
        self.polls = Ghost(self.polls@.push(poll));
        assert(self.polls@.drop_last() =~= old(self).polls@);
        if stop_after_poll(poll) {
            return Some(LoopExit::StopRequested);
        }
        let signal = self.task.invoke();
        let stops = signal.stops();
        self.calls = Ghost(self.calls@.push(stops));
        if stops {
            return Some(LoopExit::TaskStopped);
        }
        let sleep_mark = std::time::Instant::now();
        let measured = nanos_since(&frame);
        match self.clock.gap(measured) {
            Some(gap) => {
                sleep_nanos(gap);
                let slept = nanos_since(&sleep_mark);
                self.clock.after_sleep(slept, gap);
                self.readings = Ghost(self.readings@.push((measured as int, slept as int)));
            },
            None => {
                let phase = nanos_since(&sleep_mark);
                self.clock.after_overrun(phase);
                self.readings = Ghost(self.readings@.push((measured as int, phase as int)));
            },
        }
        assert(self.readings@.drop_last() =~= old(self).readings@);
        proof {
            let n = old(self).readings@.len();
            carried_after_prefix(self.clock.spec_interval(), self.start_overrun@, old(self).readings@, self.readings@, n);
        }
        None
    }

    /// Runs at most `ticks` frames; the exit if the loop ended, `None` if the
    /// frames ran out first. The task is called once per frame that got past
    /// the stop poll, and the loop ends right after the first call that
    /// signals stop.
    pub fn run_for<S: StopSignal>(&mut self, ticks: u64) -> (r: Option<LoopExit>)
        where
            K: TaskExt<S>,
        ensures
            final(self).spec_clock().spec_interval() == old(self).spec_clock().spec_interval(),
            final(self).spec_clock().wf() == old(self).spec_clock().wf(),
            final(self).spec_start_overrun() == old(self).spec_start_overrun(),
            old(self).paced() ==> final(self).paced(),
            final(self).spec_calls().len() >= old(self).spec_calls().len(),
            final(self).spec_calls().subrange(0, old(self).spec_calls().len() as int) == old(self).spec_calls(),
            r is None ==> final(self).spec_calls().len() == old(self).spec_calls().len() + ticks,
            r is None || r == Some(LoopExit::StopRequested) ==> forall|i: int|
                old(self).spec_calls().len() <= i < final(self).spec_calls().len() ==> !#[trigger] final(self).spec_calls()[i],
            r == Some(LoopExit::TaskStopped) ==> final(self).spec_calls().len() > old(self).spec_calls().len()
                && final(self).spec_calls().last()
                && forall|i: int|
                    old(self).spec_calls().len() <= i < final(self).spec_calls().len() - 1 ==> !#[trigger] final(self).spec_calls()[i],
            r is Some ==> final(self).spec_calls().len() <= old(self).spec_calls().len() + ticks,
    {
        let mut left: u64 = ticks;
        while left > 0
            invariant
                self.spec_clock().spec_interval() == old(self).spec_clock().spec_interval(),
                self.spec_clock().wf() == old(self).spec_clock().wf(),
                left <= ticks,
                self.spec_start_overrun() == old(self).spec_start_overrun(),
                old(self).paced() ==> self.paced(),
                self.spec_calls().len() == old(self).spec_calls().len() + (ticks - left),
                self.spec_calls().subrange(0, old(self).spec_calls().len() as int) == old(self).spec_calls(),
                forall|i: int|
                    old(self).spec_calls().len() <= i < self.spec_calls().len() ==> !#[trigger] self.spec_calls()[i],
            decreases left,
        {
            let ghost before = self.spec_calls();
            let exit = self.tick();
            assert(self.spec_calls().subrange(0, old(self).spec_calls().len() as int) =~= old(self).spec_calls()) by {
                assert(before.subrange(0, old(self).spec_calls().len() as int) =~= old(self).spec_calls());
            }
            if let Some(e) = exit {
                return Some(e);
            }
            left = left - 1;
        }
        None
    }
}

} // verus!
