//! The errors of timer operations.

use vstd::prelude::*;

verus! {

/// Why a timer operation was refused, or how a callback failed.
#[derive(Debug)]
pub enum TimerError {
    /// A duration was zero, or the operation does not apply in the timer's state.
    InvalidParameter(String),
    /// The operation needs an active timer, and this one is not.
    TimerStopped,
    /// A callback reported a failure.
    CallbackError(String),
}

impl TimerError {
    /// This error is `InvalidParameter` and carries exactly `message`.
    pub open spec fn is_invalid_parameter(self, message: Seq<char>) -> bool {
        self matches TimerError::InvalidParameter(m) && m@ == message
    }
}

/// The message of the error that refuses a zero interval or delay.
pub open spec fn zero_interval_message() -> Seq<char> {
    "Interval must be greater than zero."@
}

/// The message of the error that refuses to resume a timer that is not paused.
pub open spec fn not_paused_message() -> Seq<char> {
    "Timer is not paused."@
}

/// The error returned for a zero interval or delay.
pub fn zero_interval_error() -> (e: TimerError)
    ensures
        e.is_invalid_parameter(zero_interval_message()),
{
    TimerError::InvalidParameter("Interval must be greater than zero.".to_owned())
}

/// The error returned when a timer that is not paused is resumed.
pub fn not_paused_error() -> (e: TimerError)
    ensures
        e.is_invalid_parameter(not_paused_message()),
{
    TimerError::InvalidParameter("Timer is not paused.".to_owned())
}

} // verus!
