//! The mathematical model of a timer.
//!
//! A [`TimerView`] is what a timer is worth to its contracts: plain numbers and
//! flags. Each operation of a timer, and each decision of its loop, is a
//! function on views, and the executable code is proved to follow it.

use crate::timer::TimerState;
use vstd::prelude::*;

verus! {

/// A timer as the contracts see it. Durations are in nanoseconds.
pub struct TimerView {
    /// The state that every operation and the loop consult.
    pub state: TimerState,
    /// The wait before each tick.
    pub interval: nat,
    /// Whether the current run goes on after its first tick.
    pub recurring: bool,
    /// The number of ticks after which the current run ends by itself, if any.
    pub expiration_count: Option<nat>,
    /// The ticks of the current run so far.
    pub execution_count: nat,
    /// The time since the current run began, as of its last tick.
    pub elapsed_time: nat,
    /// Whether the timer holds the handle of a loop task.
    pub loop_attached: bool,
}

/// What the loop does at the top of an iteration.
pub enum Step {
    /// Leave the loop.
    Exit,
    /// Block until the timer is resumed, then look again.
    Park,
    /// Wait for this many nanoseconds, then tick if the timer still runs.
    Wait(nat),
}

impl TimerView {
    /// A timer that was never started.
    pub open spec fn fresh() -> TimerView {
        TimerView {
            state: TimerState::Stopped,
            interval: 0,
            recurring: false,
            expiration_count: None,
            execution_count: 0,
            elapsed_time: 0,
            loop_attached: false,
        }
    }

    /// While a timer is active its interval is positive.
    pub open spec fn well_formed(self) -> bool {
        self.state != TimerState::Stopped ==> self.interval > 0
    }

    /// Whether the timer is running or paused.
    pub open spec fn is_active(self) -> bool {
        self.state != TimerState::Stopped
    }

    /// The timer once a new run has been accepted: the loop of the run before
    /// is gone, the statistics start again, and the state is `Running`.
    pub open spec fn started(
        self,
        interval: nat,
        recurring: bool,
        expiration_count: Option<nat>,
    ) -> TimerView {
        TimerView {
            state: TimerState::Running,
            interval,
            recurring,
            expiration_count,
            execution_count: 0,
            elapsed_time: 0,
            loop_attached: false,
        }
    }

    /// The timer once the task of its loop has been handed to it. A stopped
    /// timer keeps no task.
    pub open spec fn attached(self) -> TimerView {
        TimerView { loop_attached: self.is_active(), ..self }
    }

    /// The timer after a pause.
    pub open spec fn paused(self) -> TimerView {
        TimerView { state: TimerState::Paused, ..self }
    }

    /// The timer after a resume.
    pub open spec fn resumed(self) -> TimerView {
        TimerView { state: TimerState::Running, ..self }
    }

    /// The timer after a stop: its loop is cancelled and let go.
    pub open spec fn stopped(self) -> TimerView {
        TimerView { state: TimerState::Stopped, loop_attached: false, ..self }
    }

    /// The timer after it has been asked to stop, whether it accepted or, being
    /// stopped already, refused.
    pub open spec fn stop_requested(self) -> TimerView {
        if self.is_active() {
            self.stopped()
        } else {
            self
        }
    }

    /// The timer after its interval has been replaced.
    pub open spec fn adjusted(self, interval: nat) -> TimerView {
        TimerView { interval, ..self }
    }

    /// The decision at the top of a loop iteration.
    pub open spec fn next_step(self) -> Step {
        match self.state {
            TimerState::Stopped => Step::Exit,
            TimerState::Paused => Step::Park,
            TimerState::Running => Step::Wait(self.interval),
        }
    }

    /// Whether the callback is invoked when a wait has ended.
    pub open spec fn fires(self) -> bool {
        self.state == TimerState::Running
    }

    /// Whether the tick that comes next is the last of the run.
    pub open spec fn on_last_tick(self) -> bool {
        ||| !self.recurring
        ||| self.expiration_count matches Some(limit) && self.execution_count + 1 >= limit
    }

    /// The timer after a callback invocation has completed, `elapsed`
    /// nanoseconds into the run. Whether the callback `succeeded` is taken in
    /// and makes no difference. On a stopped timer nothing is recorded.
    pub open spec fn ticked(self, succeeded: bool, elapsed: nat) -> TimerView {
        if self.state == TimerState::Stopped {
            self
        } else {
            TimerView {
                state: if self.on_last_tick() {
                    TimerState::Stopped
                } else {
                    self.state
                },
                execution_count: self.execution_count + 1,
                elapsed_time: elapsed,
                ..self
            }
        }
    }
}

} // verus!
