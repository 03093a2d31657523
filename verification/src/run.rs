//! Whole runs of the loop, and what holds of them.
//!
//! The loop of a timer repeats one iteration: it asks for the next step, and
//! when that was a wait and the timer still runs at its end, it invokes the
//! callback and records the tick. The functions here follow a timer through
//! any number of such iterations, and the theorems say what a run amounts to.

use crate::model::Step;
use crate::model::TimerView;
use crate::timer::TimerState;
use vstd::prelude::*;

verus! {

/// What one completed invocation of the callback reports to the timer.
pub struct Tick {
    /// Whether the callback returned success.
    pub succeeded: bool,
    /// The time since the run began, in nanoseconds.
    pub elapsed: nat,
}

/// Whether an iteration of the loop that begins on `v` invokes the callback:
/// the step it is told is a wait, and the timer still runs at its end.
/// Nothing else touches the timer during the iteration.
pub open spec fn invokes(v: TimerView) -> bool {
    v.next_step() is Wait && v.fires()
}

/// The timer after one iteration of its loop in which `tick` is what the
/// callback reports if it is invoked.
pub open spec fn iteration(v: TimerView, tick: Tick) -> TimerView {
    if invokes(v) {
        v.ticked(tick.succeeded, tick.elapsed)
    } else {
        v
    }
}

/// The timer after one iteration for each entry of `ticks`, in order.
pub open spec fn after(v: TimerView, ticks: Seq<Tick>) -> TimerView
    decreases ticks.len(),
{
    if ticks.len() == 0 {
        v
    } else {
        iteration(after(v, ticks.drop_last()), ticks.last())
    }
}

/// The number of callback invocations in those iterations.
pub open spec fn invocations(v: TimerView, ticks: Seq<Tick>) -> nat
    decreases ticks.len(),
{
    if ticks.len() == 0 {
        0
    } else {
        let earlier = invocations(v, ticks.drop_last());
        if invokes(after(v, ticks.drop_last())) {
            earlier + 1
        } else {
            earlier
        }
    }
}

/// The smaller of two numbers.
pub open spec fn at_most(a: nat, b: nat) -> nat {
    if a <= b {
        a
    } else {
        b
    }
}

/// A run started with an expiration count of `limit`, at least one, invokes
/// the callback exactly `limit` times and then is stopped, however long the
/// loop goes on: after any number of iterations the count of invocations is
/// that number or `limit`, whichever is smaller. Every invocation comes after
/// a wait of the full interval, and the timer is stopped from the iteration
/// of the last invocation on.
pub proof fn theorem_bounded_run(v: TimerView, interval: nat, limit: nat, ticks: Seq<Tick>)
    requires
        interval > 0,
        limit >= 1,
    ensures
        ({
            let run = after(v.started(interval, true, Some(limit)), ticks);
            &&& invocations(v.started(interval, true, Some(limit)), ticks) == at_most(
                ticks.len(),
                limit,
            )
            &&& run.execution_count == at_most(ticks.len(), limit)
            &&& ticks.len() < limit ==> run.next_step() == Step::Wait(interval)
            &&& ticks.len() >= limit ==> run.state == TimerState::Stopped
            &&& run.interval == interval
            &&& run.recurring
            &&& run.expiration_count == Some(limit)
        }),
    decreases ticks.len(),
{
    if ticks.len() > 0 {
        theorem_bounded_run(v, interval, limit, ticks.drop_last());
    }
}

/// An expiration count of zero is reached by the first tick: such a run
/// invokes the callback once, like a run with an expiration count of one.
pub proof fn theorem_zero_limit_run(v: TimerView, interval: nat, ticks: Seq<Tick>)
    requires
        interval > 0,
    ensures
        invocations(v.started(interval, true, Some(0nat)), ticks) == at_most(ticks.len(), 1),
        after(v.started(interval, true, Some(0nat)), ticks).execution_count == at_most(
            ticks.len(),
            1,
        ),
        ticks.len() >= 1 ==> after(v.started(interval, true, Some(0nat)), ticks).state
            == TimerState::Stopped,
    decreases ticks.len(),
{
    if ticks.len() > 0 {
        theorem_zero_limit_run(v, interval, ticks.drop_last());
        lemma_run_keeps_its_limits(v.started(interval, true, Some(0nat)), ticks.drop_last());
    }
}

/// A one-time run invokes the callback exactly once, after a wait of the full
/// delay, and the timer is stopped as soon as that invocation has completed.
pub proof fn theorem_one_time_run(v: TimerView, delay: nat, ticks: Seq<Tick>)
    requires
        delay > 0,
    ensures
        v.started(delay, false, None).next_step() == Step::Wait(delay),
        invocations(v.started(delay, false, None), ticks) == at_most(ticks.len(), 1),
        after(v.started(delay, false, None), ticks).execution_count == at_most(ticks.len(), 1),
        ticks.len() >= 1 ==> after(v.started(delay, false, None), ticks).state
            == TimerState::Stopped,
    decreases ticks.len(),
{
    if ticks.len() > 0 {
        theorem_one_time_run(v, delay, ticks.drop_last());
    }
}

/// A recurring run with no expiration count never ends by itself: it invokes
/// the callback in every iteration, each time after a wait of the interval.
pub proof fn theorem_unbounded_run(v: TimerView, interval: nat, ticks: Seq<Tick>)
    requires
        interval > 0,
    ensures
        invocations(v.started(interval, true, None), ticks) == ticks.len(),
        after(v.started(interval, true, None), ticks).execution_count == ticks.len(),
        after(v.started(interval, true, None), ticks).next_step() == Step::Wait(interval),
    decreases ticks.len(),
{
    if ticks.len() > 0 {
        theorem_unbounded_run(v, interval, ticks.drop_last());
    }
    let run = after(v.started(interval, true, None), ticks);
    assert(run.recurring && run.expiration_count is None && run.interval == interval) by {
        lemma_run_keeps_its_limits(v.started(interval, true, None), ticks);
    }
}

/// No iteration changes the interval or the limits of the run.
pub proof fn lemma_run_keeps_its_limits(v: TimerView, ticks: Seq<Tick>)
    ensures
        after(v, ticks).interval == v.interval,
        after(v, ticks).recurring == v.recurring,
        after(v, ticks).expiration_count == v.expiration_count,
        after(v, ticks).loop_attached == v.loop_attached,
    decreases ticks.len(),
{
    if ticks.len() > 0 {
        lemma_run_keeps_its_limits(v, ticks.drop_last());
    }
}

/// A timer that does not run stays exactly as it is through any number of
/// iterations, and the callback is not invoked in any of them.
pub proof fn lemma_idle_loop(v: TimerView, ticks: Seq<Tick>)
    requires
        v.state != TimerState::Running,
    ensures
        after(v, ticks) == v,
        invocations(v, ticks) == 0,
    decreases ticks.len(),
{
    if ticks.len() > 0 {
        lemma_idle_loop(v, ticks.drop_last());
    }
}

/// A new interval is the length of the next wait that the loop begins, and of
/// every wait after it for as long as the run lasts. It changes nothing else:
/// the state, the limits and the statistics stay. The wait that the loop was
/// told before the change is a value of its own and keeps its length.
pub proof fn theorem_adjust_interval(v: TimerView, new_interval: nat, ticks: Seq<Tick>)
    requires
        v.state == TimerState::Running,
    ensures
        v.next_step() == Step::Wait(v.interval),
        v.adjusted(new_interval).next_step() == Step::Wait(new_interval),
        v.adjusted(new_interval) == (TimerView { interval: new_interval, ..v }),
        after(v.adjusted(new_interval), ticks).state == TimerState::Running ==> after(
            v.adjusted(new_interval),
            ticks,
        ).next_step() == Step::Wait(new_interval),
{
    lemma_run_keeps_its_limits(v.adjusted(new_interval), ticks);
}

/// While a timer is paused the loop only parks: no iteration invokes the
/// callback or changes the timer. A resume gives back the timer as it was
/// when it was paused, so the loop goes on with a wait of the full interval
/// and no tick has been added for the time of the pause.
pub proof fn theorem_pause_resume(v: TimerView, ticks: Seq<Tick>)
    requires
        v.state == TimerState::Running,
    ensures
        v.paused().next_step() == Step::Park,
        !v.paused().fires(),
        !invokes(v.paused()),
        invocations(v.paused(), ticks) == 0,
        after(v.paused(), ticks) == v.paused(),
        after(v.paused(), ticks).resumed() == v,
        after(v.paused(), ticks).resumed().next_step() == Step::Wait(v.interval),
{
    lemma_idle_loop(v.paused(), ticks);
}

/// Once a timer is stopped it is no longer active, so that a second stop is
/// refused, and the callback is never invoked again: the loop leaves at its
/// next look, no iteration fires, and a tick that arrives late is not
/// counted.
pub proof fn theorem_stop_is_final(v: TimerView, ticks: Seq<Tick>, late: Tick)
    requires
        v.is_active(),
    ensures
        !v.stopped().is_active(),
        !v.stopped().loop_attached,
        v.stopped().next_step() == Step::Exit,
        !invokes(v.stopped()),
        invocations(v.stopped(), ticks) == 0,
        after(v.stopped(), ticks).execution_count == v.execution_count,
        v.stopped().ticked(late.succeeded, late.elapsed) == v.stopped(),
{
    lemma_idle_loop(v.stopped(), ticks);
}

/// A callback that fails is recorded exactly as one that succeeds: the count
/// goes up by one either way, and the run goes on or ends as it would have.
pub proof fn theorem_failure_counts_as_success(v: TimerView, elapsed: nat)
    ensures
        v.ticked(false, elapsed) == v.ticked(true, elapsed),
        v.is_active() ==> v.ticked(false, elapsed).execution_count == v.execution_count + 1,
        v.is_active() && !v.on_last_tick() ==> v.ticked(false, elapsed).state == v.state,
{
}

/// While a timer is active its interval is positive, whatever is done to it.
pub proof fn theorem_well_formed_is_kept(v: TimerView, interval: nat, tick: Tick)
    requires
        v.well_formed(),
        interval > 0,
    ensures
        TimerView::fresh().well_formed(),
        v.started(interval, true, None).well_formed(),
        v.attached().well_formed(),
        v.state == TimerState::Running ==> v.paused().well_formed(),
        v.state == TimerState::Paused ==> v.resumed().well_formed(),
        v.stopped().well_formed(),
        v.adjusted(interval).well_formed(),
        v.ticked(tick.succeeded, tick.elapsed).well_formed(),
{
}

} // verus!
