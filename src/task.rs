use vstd::prelude::*;

verus! {

/// One invocation of a unit of work, giving its signal: `()` for work that never
/// asks to stop, `bool` for work that returns `true` to stop the loop.
pub trait TaskExt<S> {
    fn invoke(&mut self) -> S;
}

/// What the loop reads from a signal: whether to stop.
pub trait StopSignal {
    spec fn spec_stops(&self) -> bool;

    fn stops(&self) -> (r: bool)
        ensures
            r == self.spec_stops(),
    ;
}

impl StopSignal for () {
    open spec fn spec_stops(&self) -> bool {
        false
    }

    fn stops(&self) -> (r: bool) {
        false
    }
}

impl StopSignal for bool {
    open spec fn spec_stops(&self) -> bool {
        *self
    }

    fn stops(&self) -> (r: bool) {
        *self
    }
}

/// Fire-and-forget work, called through a shared reference.
pub trait FnTask: Send + Sync {
    fn call(&self);
}

/// Fire-and-forget work that may change its own state.
pub trait FnMutTask: Send + Sync {
    fn call_mut(&mut self);
}

/// Fire-and-forget work in either call form.
pub enum Task {
    TaskFn(Box<dyn FnTask>),
    TaskFnMut(Box<dyn FnMutTask>),
}

impl TaskExt<()> for Task {
    fn invoke(&mut self) {
        match self {
            Task::TaskFn(t) => t.call(),
            Task::TaskFnMut(t) => t.call_mut(),
        }
    }
}

impl Task {
    pub fn new_fn_task<T: FnTask + 'static>(t: T) -> (r: Task)
        ensures
            r is TaskFn,
    {
        Task::TaskFn(Box::new(t))
    }

    pub fn new_fn_mut_task<T: FnMutTask + 'static>(t: T) -> (r: Task)
        ensures
            r is TaskFnMut,
    {
        Task::TaskFnMut(Box::new(t))
    }
}

/// Self-terminating work, called through a shared reference: `true` stops the
/// loop.
pub trait FnTaskWithHandle: Send + Sync {
    fn call(&self) -> bool;
}

/// Self-terminating work that may change its own state: `true` stops the loop.
pub trait FnMutTaskWithHandle: Send + Sync {
    fn call_mut(&mut self) -> bool;
}

/// Self-terminating work in either call form.
pub enum TaskWithHandle {
    TaskFnHanle(Box<dyn FnTaskWithHandle>),
    TaskFnMutHanle(Box<dyn FnMutTaskWithHandle>),
}

impl TaskExt<bool> for TaskWithHandle {
    fn invoke(&mut self) -> bool {
        match self {
            TaskWithHandle::TaskFnHanle(t) => t.call(),
            TaskWithHandle::TaskFnMutHanle(t) => t.call_mut(),
        }
    }
}

impl TaskWithHandle {
    pub fn new_fn_task<T: FnTaskWithHandle + 'static>(t: T) -> (r: TaskWithHandle)
        ensures
            r is TaskFnHanle,
    {
        TaskWithHandle::TaskFnHanle(Box::new(t))
    }

    pub fn new_fn_mut_task<T: FnMutTaskWithHandle + 'static>(t: T) -> (r: TaskWithHandle)
        ensures
            r is TaskFnMutHanle,
    {
        TaskWithHandle::TaskFnMutHanle(Box::new(t))
    }
}

} // verus!
