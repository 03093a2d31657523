//! The two pieces of the tokio runtime that a timer holds: the signal that
//! wakes a paused loop, and the handle of the task that runs the loop.
//!
//! Both are opaque to Verus. The timer carries them and makes the calls below;
//! what they do to other tasks is outside what is proved here.

use std::sync::Arc;
use tokio::sync::Notify;
use tokio::task::JoinError;
use tokio::task::JoinHandle;
use vstd::prelude::*;

verus! {

/// `tokio::sync::Notify`, carried as an opaque value.
#[verifier::external_type_specification]
#[verifier::external_body]
pub struct ExNotify(Notify);

/// `tokio::task::JoinError`, which a `JoinHandle` yields when it is awaited.
/// Nothing here awaits one; the type is declared because `JoinHandle` names it.
#[verifier::external_type_specification]
#[verifier::external_body]
pub struct ExJoinError(JoinError);

/// `tokio::task::JoinHandle`, carried as an opaque value.
#[verifier::external_type_specification]
#[verifier::external_body]
#[verifier::reject_recursive_types(T)]
pub struct ExJoinHandle<T>(JoinHandle<T>);

/// `Notify::new` creates a signal that holds no permit. Nothing is claimed
/// of it.
pub assume_specification[ Notify::new ]() -> (signal: Notify)
;

/// `Notify::notify_one` wakes the first task that waits on the signal, or
/// stores one permit for the next that will. It returns nothing and nothing
/// is claimed of it.
pub assume_specification[ Notify::notify_one ](signal: &Notify)
;

/// `JoinHandle::abort` asks the runtime to cancel the task of the handle; on
/// a task that has finished it does nothing. It returns nothing and nothing
/// is claimed of it.
pub assume_specification<T>[ JoinHandle::<T>::abort ](handle: &JoinHandle<T>)
;

/// `Arc::clone` on the signal: the result is a second owner of the same
/// `Notify`, so that what is sent through one is received through the other.
#[verifier::external_body]
pub(crate) fn share(signal: &Arc<Notify>) -> (shared: Arc<Notify>)
    ensures
        shared == *signal,
{
    Arc::clone(signal)
}

} // verus!
