//! The timer: its state, the control operations, and the decisions of its
//! loop.

use crate::duration::nanos;
use crate::errors::not_paused_error;
use crate::errors::not_paused_message;
use crate::errors::zero_interval_error;
use crate::errors::zero_interval_message;
use crate::errors::TimerError;
use crate::model::Step;
use crate::model::TimerView;
use crate::runtime::share;
use std::sync::Arc;
use std::time::Duration;
use tokio::sync::Notify;
use tokio::task::JoinHandle;
use vstd::prelude::*;

verus! {

/// The state of a timer.
#[derive(Debug, Clone, Copy, PartialEq, Eq, Structural)]
pub enum TimerState {
    Running,
    Paused,
    Stopped,
}

impl TimerState {
    /// Whether a timer in this state is active: running or paused.
    pub fn is_active(&self) -> (active: bool)
        ensures
            active == (*self != TimerState::Stopped),
    {
        match self {
            TimerState::Stopped => false,
            TimerState::Running => true,
            TimerState::Paused => true,
        }
    }
}

/// How far the current run of a timer has come.
#[derive(Debug)]
pub struct TimerStatistics {
    /// The number of callback invocations that have completed.
    pub execution_count: usize,
    /// The time since the run began, as of the last tick.
    pub elapsed_time: Duration,
}

impl Default for TimerStatistics {
    fn default() -> (stats: TimerStatistics)
        ensures
            stats.execution_count == 0,
            nanos(stats.elapsed_time) == 0,
    {
        TimerStatistics { execution_count: 0, elapsed_time: Duration::from_secs(0) }
    }
}

impl Clone for TimerStatistics {
    fn clone(&self) -> (stats: TimerStatistics)
        ensures
            stats == *self,
    {
        TimerStatistics { execution_count: self.execution_count, elapsed_time: self.elapsed_time }
    }
}

/// A callback that a timer runs on each tick.
pub trait TimerCallback: Send + Sync {
    /// Does the work of one tick. A failure is counted as a tick like a
    /// success, and never ends a run.
    fn execute(&self) -> Result<(), TimerError>;
}

/// What the loop of a timer is told to do next.
#[derive(Debug)]
pub enum LoopAction {
    /// Leave the loop: the timer is stopped.
    Exit,
    /// Wait on the pause signal, then ask again.
    AwaitResume,
    /// Sleep this long, then tick if the timer still runs.
    Sleep(Duration),
}

impl View for LoopAction {
    type V = Step;

    open spec fn view(&self) -> Step {
        match *self {
            LoopAction::Exit => Step::Exit,
            LoopAction::AwaitResume => Step::Park,
            LoopAction::Sleep(d) => Step::Wait(nanos(d)),
        }
    }
}

/// One timer: the state that its owner and its loop share, the signal that
/// wakes the loop from a pause, and the handle of the task that runs the loop.
pub struct Timer {
    state: TimerState,
    handle: Option<JoinHandle<()>>,
    interval: Duration,
    recurring: bool,
    expiration_count: Option<usize>,
    statistics: TimerStatistics,
    pause_notify: Arc<Notify>,
}

/// The limit of a run as a natural number.
pub open spec fn limit_view(limit: Option<usize>) -> Option<nat> {
    match limit {
        Some(n) => Some(n as nat),
        None => None,
    }
}

impl View for Timer {
    type V = TimerView;

    closed spec fn view(&self) -> TimerView {
        TimerView {
            state: self.state,
            interval: nanos(self.interval),
            recurring: self.recurring,
            expiration_count: limit_view(self.expiration_count),
            execution_count: self.statistics.execution_count as nat,
            elapsed_time: nanos(self.statistics.elapsed_time),
            loop_attached: self.handle is Some,
        }
    }
}

impl Timer {
    #[verifier::type_invariant]
    spec fn inv(self) -> bool {
        self.state != TimerState::Stopped ==> nanos(self.interval) > 0
    }

    /// The signal on which the loop of this timer waits while it is paused.
    pub closed spec fn signal(&self) -> Arc<Notify> {
        self.pause_notify
    }

    /// A stopped timer that has never run.
    pub fn new() -> (timer: Timer)
        ensures
            timer@ == TimerView::fresh(),
    {
        Timer {
            state: TimerState::Stopped,
            handle: None,
            interval: Duration::from_secs(0),
            recurring: false,
            expiration_count: None,
            statistics: TimerStatistics::default(),
            pause_notify: Arc::new(Notify::new()),
        }
    }

    /// Pauses a running timer. A timer that is paused or stopped is left as
    /// it is, with `TimerStopped`.
    pub fn pause(&mut self) -> (res: Result<(), TimerError>)
        ensures
            final(self).signal() == old(self).signal(),
            old(self)@.state == TimerState::Running ==> res is Ok && final(self)@ == old(
                self,
            )@.paused(),
            old(self)@.state != TimerState::Running ==> res == Err::<(), TimerError>(
                TimerError::TimerStopped,
            ) && final(self)@ == old(self)@,
    {
        if self.state == TimerState::Running {
            proof {
                use_type_invariant(&*self);
            }
            self.state = TimerState::Paused;
            Ok(())
        } else {
            Err(TimerError::TimerStopped)
        }
    }

    /// Resumes a paused timer and wakes its loop. A timer that is running or
    /// stopped is left as it is, with `InvalidParameter`.
    pub fn resume(&mut self) -> (res: Result<(), TimerError>)
        ensures
            final(self).signal() == old(self).signal(),
            old(self)@.state == TimerState::Paused ==> res is Ok && final(self)@ == old(
                self,
            )@.resumed(),
            old(self)@.state != TimerState::Paused ==> final(self)@ == old(self)@ && (
            res matches Err(e) && e.is_invalid_parameter(not_paused_message())),
    {
        if self.state == TimerState::Paused {
            proof {
                use_type_invariant(&*self);
            }
            self.state = TimerState::Running;
            self.pause_notify.notify_one();
            Ok(())
        } else {
            Err(not_paused_error())
        }
    }

    /// Cancels the task of the loop, if the timer holds one, and lets it go.
    fn release_loop(&mut self)
        ensures
            final(self).signal() == old(self).signal(),
            final(self)@ == (TimerView { loop_attached: false, ..old(self)@ }),
    {
        proof {
            use_type_invariant(&*self);
        }
        let mut taken: Option<JoinHandle<()>> = None;
        std::mem::swap(&mut self.handle, &mut taken);
        if let Some(handle) = taken {
            handle.abort();
        }
    }

    /// Stops an active timer: the state becomes `Stopped`, and the task of the
    /// loop is cancelled and let go. A timer that is stopped already is left
    /// as it is, with `TimerStopped`.
    pub fn stop(&mut self) -> (res: Result<(), TimerError>)
        ensures
            final(self).signal() == old(self).signal(),
            old(self)@.is_active() ==> res is Ok && final(self)@ == old(self)@.stopped(),
            !old(self)@.is_active() ==> res == Err::<(), TimerError>(TimerError::TimerStopped)
                && final(self)@ == old(self)@,
    {
        if self.state != TimerState::Stopped {
            self.state = TimerState::Stopped;
            self.release_loop();
            Ok(())
        } else {
            Err(TimerError::TimerStopped)
        }
    }

    /// Replaces the interval. The loop reads it at its next wait; a wait that
    /// has begun keeps the length it was given. A zero interval is refused
    /// with `InvalidParameter`, and the timer is left as it is.
    pub fn adjust_interval(&mut self, new_interval: Duration) -> (res: Result<(), TimerError>)
        ensures
            final(self).signal() == old(self).signal(),
            nanos(new_interval) > 0 ==> res is Ok && final(self)@ == old(self)@.adjusted(
                nanos(new_interval),
            ),
            nanos(new_interval) == 0 ==> final(self)@ == old(self)@ && (res matches Err(e)
                && e.is_invalid_parameter(zero_interval_message())),
    {
        if new_interval.as_nanos() == 0 {
            return Err(zero_interval_error());
        }
        self.interval = new_interval;
        Ok(())
    }

    /// Starts a run of one tick after `delay`. See [`Timer::start_recurring`].
    pub fn start_once(&mut self, delay: Duration) -> (res: Result<(), TimerError>)
        ensures
            final(self).signal() == old(self).signal(),
            nanos(delay) > 0 ==> res is Ok && final(self)@ == old(self)@.started(
                nanos(delay),
                false,
                None,
            ),
            nanos(delay) == 0 ==> final(self)@ == old(self)@ && (res matches Err(e)
                && e.is_invalid_parameter(zero_interval_message())),
    {
        self.start_internal(delay, false, None)
    }

    /// Starts a run that ticks every `interval`, for ever or until
    /// `expiration_count` ticks are done. The run before, if it is still
    /// active, is stopped first, and whatever task the timer still holds is
    /// cancelled; the statistics start again at zero and the state becomes
    /// `Running`. The caller then spawns the loop of the new run and hands its
    /// task over with [`Timer::attach_loop`]. A zero interval is refused with
    /// `InvalidParameter` before anything is changed.
    pub fn start_recurring(&mut self, interval: Duration, expiration_count: Option<usize>) -> (res:
        Result<(), TimerError>)
        ensures
            final(self).signal() == old(self).signal(),
            nanos(interval) > 0 ==> res is Ok && final(self)@ == old(self)@.started(
                nanos(interval),
                true,
                limit_view(expiration_count),
            ),
            nanos(interval) == 0 ==> final(self)@ == old(self)@ && (res matches Err(e)
                && e.is_invalid_parameter(zero_interval_message())),
    {
        self.start_internal(interval, true, expiration_count)
    }

    /// What both ways of starting a run share.
    fn start_internal(
        &mut self,
        interval: Duration,
        recurring: bool,
        expiration_count: Option<usize>,
    ) -> (res: Result<(), TimerError>)
        ensures
            final(self).signal() == old(self).signal(),
            nanos(interval) > 0 ==> res is Ok && final(self)@ == old(self)@.started(
                nanos(interval),
                recurring,
                limit_view(expiration_count),
            ),
            nanos(interval) == 0 ==> final(self)@ == old(self)@ && (res matches Err(e)
                && e.is_invalid_parameter(zero_interval_message())),
    {
        if interval.as_nanos() == 0 {
            return Err(zero_interval_error());
        }
        let _ = self.stop();
        self.release_loop();
        self.interval = interval;
        self.recurring = recurring;
        self.expiration_count = expiration_count;
        self.statistics = TimerStatistics::default();
        self.state = TimerState::Running;
        Ok(())
    }

    /// Takes over the task that runs the loop of the current run. A task that
    /// the timer still holds is cancelled first. If the timer has been stopped
    /// in the meantime, the new task is cancelled at once and not kept.
    pub fn attach_loop(&mut self, handle: JoinHandle<()>)
        ensures
            final(self).signal() == old(self).signal(),
            final(self)@ == old(self)@.attached(),
    {
        self.release_loop();
        if self.state != TimerState::Stopped {
            proof {
                use_type_invariant(&*self);
            }
            self.handle = Some(handle);
        } else {
            handle.abort();
        }
    }

    /// A second owner of the signal that wakes the loop from a pause. The
    /// loop waits on it whenever [`Timer::next_action`] tells it to.
    pub fn pause_signal(&self) -> (signal: Arc<Notify>)
        ensures
            signal == self.signal(),
    {
        share(&self.pause_notify)
    }

    /// What the loop does at the top of an iteration: leave when the timer is
    /// stopped, wait to be woken when it is paused, and else wait for the
    /// interval as it is now, which is never zero.
    pub fn next_action(&self) -> (action: LoopAction)
        ensures
            action@ == self@.next_step(),
            action matches LoopAction::Sleep(d) ==> nanos(d) > 0,
    {
        proof {
            use_type_invariant(self);
        }
        match self.state {
            TimerState::Stopped => LoopAction::Exit,
            TimerState::Paused => LoopAction::AwaitResume,
            TimerState::Running => LoopAction::Sleep(self.interval),
        }
    }

    /// Whether the callback is to be invoked now that a wait has ended: only
    /// if the timer is still running.
    pub fn should_fire(&self) -> (fire: bool)
        ensures
            fire == self@.fires(),
    {
        self.state == TimerState::Running
    }

    /// Invokes `callback` if the timer is still running now that a wait has
    /// ended, and hands back what it returned for [`Timer::record_tick`].
    pub fn fire<C: TimerCallback>(&self, callback: &C) -> (outcome: Option<Result<(), TimerError>>)
        ensures
            outcome is Some <==> self@.fires(),
            outcome matches Some(returned) ==> C::execute.ensures((callback,), returned),
    {
        if self.should_fire() {
            Some(callback.execute())
        } else {
            None
        }
    }

    /// Records that an invocation of the callback has completed, `elapsed`
    /// into the run, and says whether the loop ends here. A failure counts as
    /// a success does. The run ends after its first tick if it is not
    /// recurring, and once the count reaches the expiration count if there is
    /// one; the state then becomes `Stopped`. On a timer that has been stopped
    /// in the meantime nothing is recorded and the loop ends.
    pub fn record_tick(&mut self, outcome: &Result<(), TimerError>, elapsed: Duration) -> (finished:
        bool)
        requires
            old(self)@.is_active() ==> old(self)@.execution_count < usize::MAX,
        ensures
            final(self).signal() == old(self).signal(),
            final(self)@ == old(self)@.ticked(outcome is Ok, nanos(elapsed)),
            finished == !final(self)@.is_active(),
    {
        proof {
            use_type_invariant(&*self);
        }
        if self.state == TimerState::Stopped {
            return true;
        }
        let count: usize = self.statistics.execution_count + 1;
        self.statistics = TimerStatistics { execution_count: count, elapsed_time: elapsed };
        let expired = match self.expiration_count {
            Some(limit) => count >= limit,
            None => false,
        };
        if expired || !self.recurring {
            self.state = TimerState::Stopped;
            true
        } else {
            false
        }
    }

    /// The statistics of the current run.
    pub fn get_statistics(&self) -> (stats: TimerStatistics)
        ensures
            stats.execution_count == self@.execution_count,
            nanos(stats.elapsed_time) == self@.elapsed_time,
    {
        self.statistics.clone()
    }

    /// The current state.
    pub fn get_state(&self) -> (state: TimerState)
        ensures
            state == self@.state,
            self@.well_formed(),
    {
        proof {
            use_type_invariant(self);
        }
        self.state
    }
}

} // verus!
