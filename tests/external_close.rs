use interval_task::clock::{DriftClock, LoopExit, Worker};
use interval_task::task::{FnTask, Task};
use std::sync::atomic::{AtomicU64, Ordering};
use std::sync::Arc;
use std::time::{Duration, Instant};

/// Counts its calls, and plays the controller: once `after` has passed since
/// `since`, it asks for a stop on the loop's channel.
struct BumpThenStop {
    count: Arc<AtomicU64>,
    stop: async_channel::Sender<()>,
    since: Instant,
    after: Duration,
}

impl FnTask for BumpThenStop {
    fn call(&self) {
        self.count.fetch_add(1, Ordering::SeqCst);
        if self.since.elapsed() >= self.after {
            let _ = self.stop.force_send(());
        }
    }
}

#[test]
fn external_close_after_fifty_millis() {
    let count = Arc::new(AtomicU64::new(0));
    let (stop_s, stop_r) = async_channel::bounded::<()>(1);
    let task = Task::new_fn_task(BumpThenStop {
        count: count.clone(),
        stop: stop_s,
        since: Instant::now(),
        after: Duration::from_millis(50),
    });
    let mut worker = Worker::new(DriftClock::new(1_000_000).unwrap(), task, stop_r);
    assert_eq!(worker.run_for(u64::MAX), Some(LoopExit::StopRequested));
    let c = count.load(Ordering::SeqCst);
    assert!((40..=60).contains(&c), "count: {}", c);
}
