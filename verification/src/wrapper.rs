//! The task wrapper's scheduling decisions.
//!
//! Every submitted task runs inside a wrapper that the upstream executor
//! schedules.  At each scheduling opportunity the embedding program observes
//! whether the wrapped task finished its step and whether the stop signal
//! has arrived, and asks this module whether the wrapper is done.  When the
//! wrapper completes — for any reason — the embedding program removes the
//! wrapper's slot from the registry with
//! [`crate::scope::ScopeState::remove_task`].

use vstd::prelude::*;

verus! {

/// What the wrapper does with its current scheduling opportunity.
pub enum WrapperStep {
    /// The wrapper is finished and will not be scheduled again.
    Complete,
    /// The wrapper yields and waits for another opportunity.
    Pending,
}

/// Abrupt cancellation races the wrapped task against the stop signal: the
/// wrapper completes as soon as either of the two is ready.
pub open spec fn abrupt_completes(task_ready: bool, stop_signaled: bool) -> bool {
    task_ready || stop_signaled
}

/// One scheduling opportunity of a wrapper under the abrupt policy.  If the
/// stop signal arrived first, any unfinished work inside the wrapped task is
/// abandoned; its own teardown logic is relied upon to release resources.
pub fn abrupt_poll(task_ready: bool, stop_signaled: bool) -> (step: WrapperStep)
    ensures
        step is Complete <==> abrupt_completes(task_ready, stop_signaled),
{
    if task_ready || stop_signaled {
        WrapperStep::Complete
    } else {
        WrapperStep::Pending
    }
}

/// Graceful shutdown imposes no race: the wrapper completes exactly when
/// the task itself does.  Noticing the stop signal, and choosing when to
/// act on it, is entirely the task's own business.
pub open spec fn graceful_completes(task_ready: bool) -> bool {
    task_ready
}

/// One scheduling opportunity of a wrapper under the graceful policy.
pub fn graceful_poll(task_ready: bool) -> (step: WrapperStep)
    ensures
        step is Complete <==> graceful_completes(task_ready),
{
    if task_ready {
        WrapperStep::Complete
    } else {
        WrapperStep::Pending
    }
}

} // verus!
