use interval_task::clock::{stop_after_poll, LoopExit};
use interval_task::signal::StopPoll;
use interval_task::error::RunnerError;
use interval_task::runner::Runner;
use interval_task::task::{FnMutTask, FnMutTaskWithHandle, FnTaskWithHandle, Task, TaskWithHandle};
use std::sync::atomic::{AtomicU64, Ordering};
use std::sync::{Arc, Mutex};
use std::time::{Duration, Instant};

struct CountTo {
    count: u64,
    until: u64,
}

impl FnMutTaskWithHandle for CountTo {
    fn call_mut(&mut self) -> bool {
        self.count += 1;
        self.count == self.until
    }
}

fn micros_to_nanos(micros: u64) -> u64 {
    micros * 1000
}

fn normal_internal(fps: u64) {
    let interval = micros_to_nanos(1_000_000 / fps);
    let task = TaskWithHandle::new_fn_mut_task(CountTo { count: 0, until: fps });
    let mut runner = Runner::new(interval, task).unwrap();

    let start = Instant::now();
    let mut worker = runner.start().unwrap();
    assert_eq!(worker.run_for(u64::MAX), Some(LoopExit::TaskStopped));
    runner.release().unwrap();
    println!("Elapsed: {:?}", start.elapsed());
}

#[test]
fn runner_runner_test_60_fps() {
    normal_internal(60)
}

#[test]
fn runner_runner_test_120_fps() {
    normal_internal(120)
}

#[test]
fn runner_runner_test_144_fps() {
    normal_internal(144)
}

#[test]
fn runner_runner_test_240_fps() {
    normal_internal(240)
}

#[test]
fn runner_runner_test_1000_fps() {
    normal_internal(1000)
}

#[test]
fn mod_runner_test_60_fps() {
    normal_internal(60)
}

#[test]
fn mod_runner_test_120_fps() {
    normal_internal(120)
}

#[test]
fn mod_runner_test_144_fps() {
    normal_internal(144)
}

#[test]
fn mod_runner_test_240_fps() {
    normal_internal(240)
}

#[test]
fn mod_runner_test_1000_fps() {
    normal_internal(1000)
}

struct Counted(Arc<AtomicU64>, u64);

impl FnTaskWithHandle for Counted {
    fn call(&self) -> bool {
        self.0.fetch_add(1, Ordering::SeqCst) + 1 == self.1
    }
}

#[test]
fn cadence_of_120_ticks_is_about_one_second() {
    let count = Arc::new(AtomicU64::new(0));
    let task = TaskWithHandle::new_fn_task(Counted(count.clone(), 121));
    let mut runner = Runner::new(micros_to_nanos(1_000_000 / 120), task).unwrap();
    let mut worker = runner.start().unwrap();
    let start = Instant::now();
    assert_eq!(worker.run_for(u64::MAX), Some(LoopExit::TaskStopped));
    let elapsed = start.elapsed();
    assert_eq!(count.load(Ordering::SeqCst), 121);
    assert!(elapsed >= Duration::from_millis(950), "{:?}", elapsed);
    assert!(elapsed <= Duration::from_millis(1150), "{:?}", elapsed);
}

#[test]
fn self_stop_after_k_invocations() {
    let count = Arc::new(AtomicU64::new(0));
    let task = TaskWithHandle::new_fn_task(Counted(count.clone(), 7));
    let mut runner = Runner::new(1_000_000, task).unwrap();
    let mut worker = runner.start().unwrap();
    assert_eq!(worker.run_for(u64::MAX), Some(LoopExit::TaskStopped));
    assert_eq!(count.load(Ordering::SeqCst), 7);
    assert_eq!(runner.release(), Ok(()));
}

#[test]
fn run_for_stops_after_its_ticks() {
    let count = Arc::new(AtomicU64::new(0));
    let task = TaskWithHandle::new_fn_task(Counted(count.clone(), 1000));
    let mut runner = Runner::new(100_000, task).unwrap();
    let mut worker = runner.start().unwrap();
    assert_eq!(worker.run_for(0), None);
    assert_eq!(worker.run_for(5), None);
    assert_eq!(count.load(Ordering::SeqCst), 5);
    assert_eq!(worker.clock().interval(), 100_000);
}

struct Spans(Arc<Mutex<Vec<(Instant, Instant)>>>);

impl FnMutTask for Spans {
    fn call_mut(&mut self) {
        let entry = Instant::now();
        std::hint::black_box((0..1000u64).sum::<u64>());
        self.0.lock().unwrap().push((entry, Instant::now()));
    }
}

#[test]
fn invocations_never_overlap() {
    let spans = Arc::new(Mutex::new(Vec::new()));
    let mut runner = Runner::new(500_000, Task::new_fn_mut_task(Spans(spans.clone()))).unwrap();
    let mut worker = runner.start().unwrap();
    assert_eq!(worker.run_for(20), None);
    let spans = spans.lock().unwrap();
    assert_eq!(spans.len(), 20);
    for w in spans.windows(2) {
        assert!(w[0].1 <= w[1].0);
    }
}

#[test]
fn second_start_yields_no_worker() {
    let count = Arc::new(AtomicU64::new(0));
    let task = TaskWithHandle::new_fn_task(Counted(count.clone(), 3));
    let mut runner = Runner::new(1_000_000, task).unwrap();
    assert!(!runner.is_started());
    let first = runner.start();
    assert!(first.is_some());
    assert!(runner.is_started());
    assert!(runner.start().is_none());
    assert_eq!(first.unwrap().run_for(u64::MAX), Some(LoopExit::TaskStopped));
    assert_eq!(count.load(Ordering::SeqCst), 3);
}

#[test]
fn stop_and_release_before_start_are_refused() {
    let task = TaskWithHandle::new_fn_task(Counted(Arc::new(AtomicU64::new(0)), 1));
    let mut runner = Runner::new(1_000_000, task).unwrap();
    assert_eq!(runner.request_stop(), Err(RunnerError::NoTaskRunning));
    assert_eq!(runner.release(), Err(RunnerError::NoTaskRunning));
}

#[test]
fn zero_interval_runner_is_refused() {
    let task = TaskWithHandle::new_fn_task(Counted(Arc::new(AtomicU64::new(0)), 1));
    assert!(matches!(Runner::new(0, task), Err(RunnerError::ZeroInterval)));
}

#[test]
fn stop_request_ends_loop_before_next_call() {
    let count = Arc::new(AtomicU64::new(0));
    let task = TaskWithHandle::new_fn_task(Counted(count.clone(), 1000));
    let mut runner = Runner::new(100_000, task).unwrap();
    let mut worker = runner.start().unwrap();
    assert_eq!(worker.run_for(2), None);
    assert_eq!(runner.request_stop(), Ok(()));
    assert_eq!(worker.run_for(u64::MAX), Some(LoopExit::StopRequested));
    assert_eq!(count.load(Ordering::SeqCst), 2);
}

#[test]
fn released_channel_ends_loop() {
    let count = Arc::new(AtomicU64::new(0));
    let task = TaskWithHandle::new_fn_task(Counted(count.clone(), 1000));
    let mut runner = Runner::new(100_000, task).unwrap();
    let mut worker = runner.start().unwrap();
    assert_eq!(runner.release(), Ok(()));
    assert_eq!(worker.run_for(u64::MAX), Some(LoopExit::StopRequested));
    assert_eq!(count.load(Ordering::SeqCst), 0);
}

#[test]
fn poll_outcomes_decide_stop() {
    assert!(!stop_after_poll(StopPoll::Empty));
    assert!(stop_after_poll(StopPoll::Requested));
    assert!(stop_after_poll(StopPoll::Disconnected));
}
