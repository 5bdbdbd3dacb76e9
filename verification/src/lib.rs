//! The core of a floating task-timer: a registry of tasks with accumulated
//! durations, a single-active-timer state machine over it, and the boundary
//! operations an external persistence layer uses to reconcile records.

pub mod clock;
pub mod controller;
pub mod idgen;
pub mod model;
pub mod store;
pub mod task;
pub mod timer;
