//! One-time and recurring timers as a verified state machine.
//!
//! A [`Timer`] holds everything that the control operations and the background
//! loop of a timer decide on: the state, the interval, the limits of the
//! current run and its statistics. Waiting and running the callback are left to
//! the task that drives the loop; every decision it takes in between is a
//! function of this crate, with a contract.

pub mod duration;
pub mod errors;
pub mod manager;
pub mod model;
pub mod run;
pub mod runtime;
pub mod timer;

pub use errors::TimerError;
pub use manager::TimerManager;
pub use timer::LoopAction;
pub use timer::Timer;
pub use timer::TimerCallback;
pub use timer::TimerState;
pub use timer::TimerStatistics;
