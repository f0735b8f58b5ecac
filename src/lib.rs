//! Periodic work at a fixed cadence. A worker calls a task once per frame and
//! sleeps what is left of the interval, carrying each frame's timing error into
//! the next so that the mean period tends to the interval. A runner hands out
//! that worker at most once, and a lifecycle handler guards start and close with
//! a two-phase state machine and a handshake with the worker.

pub mod clock;
pub mod error;
pub mod handler;
pub mod runner;
pub mod signal;
pub mod state_manager;
pub mod task;
