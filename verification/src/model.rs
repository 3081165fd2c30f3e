//! The lifecycle model of one execution scope, and the laws it obeys.
//!
//! Every observable change of the shared state is one of three events: a
//! submission arms a slot, a task's own exit frees its slot, and a shutdown
//! pass consumes every armed sender.  The executable operations in
//! [`crate::scope`] and [`crate::registry`] promise, in their contracts,
//! that they perform exactly these transitions, so the laws proved here
//! hold of any interleaving of the real operations.

use vstd::prelude::*;

verus! {

use crate::registry::Slot;
use crate::registry::after_insert;
use crate::registry::after_remove;
use crate::registry::after_shutdown;
use crate::registry::armed_senders;
use crate::registry::first_vacant;
use crate::registry::lemma_first_vacant_in_range;
use crate::registry::lemma_insert_occupies;
use crate::registry::lemma_remove_frees;
use crate::registry::lemma_shutdown_keeps_occupancy;
use crate::registry::occupied_count;
use crate::wrapper::abrupt_completes;
use crate::wrapper::graceful_completes;

/// One observable transition of the shared state.
pub enum ScopeEvent<T> {
    /// A task is submitted; `T` is the stop sender its fresh slot holds.
    Submit(T),
    /// The wrapper of the task with this identifier stopped running and
    /// removed its own slot.
    TaskExit(int),
    /// Someone asked the whole scope to stop.
    Shutdown,
}

/// The state after one event.
pub open spec fn scope_step<T>(s: Seq<Slot<T>>, ev: ScopeEvent<T>) -> Seq<Slot<T>> {
    match ev {
        ScopeEvent::Submit(t) => after_insert(s, t),
        ScopeEvent::TaskExit(id) => after_remove(s, id),
        ScopeEvent::Shutdown => after_shutdown(s),
    }
}

/// The state after a whole sequence of events.
pub open spec fn scope_run<T>(s: Seq<Slot<T>>, evs: Seq<ScopeEvent<T>>) -> Seq<Slot<T>>
    decreases evs.len(),
{
    if evs.len() == 0 {
        s
    } else {
        scope_run(scope_step(s, evs[0]), evs.drop_first())
    }
}

/// How many submissions a sequence of events carries.
pub open spec fn submit_count<T>(evs: Seq<ScopeEvent<T>>) -> nat
    decreases evs.len(),
{
    if evs.len() == 0 {
        0
    } else if evs[0] is Submit {
        (submit_count(evs.drop_first()) + 1) as nat
    } else {
        submit_count(evs.drop_first())
    }
}

/// How many task exits a sequence of events carries.
pub open spec fn exit_count<T>(evs: Seq<ScopeEvent<T>>) -> nat
    decreases evs.len(),
{
    if evs.len() == 0 {
        0
    } else if evs[0] is TaskExit {
        (exit_count(evs.drop_first()) + 1) as nat
    } else {
        exit_count(evs.drop_first())
    }
}

/// Every task exit in `evs`, run from `s`, frees a slot that is occupied at
/// that moment.  This is how the real wrapper behaves: it removes exactly
/// the slot that its own submission armed, at most once, and only shutdown
/// or removal — never another task's exit — touches that slot in between.
pub open spec fn exits_hit_occupied_slots<T>(s: Seq<Slot<T>>, evs: Seq<ScopeEvent<T>>) -> bool
    decreases evs.len(),
{
    if evs.len() == 0 {
        true
    } else {
        let ok = match evs[0] {
            ScopeEvent::TaskExit(id) => 0 <= id < s.len() && !(s[id] is Vacant),
            _ => true,
        };
        ok && exits_hit_occupied_slots(scope_step(s, evs[0]), evs.drop_first())
    }
}

/// Bookkeeping balance: across any sequence of events whose exits each free
/// a live slot, the number of tracked tasks changes by submissions minus
/// exits; shutdowns leave it untouched.
pub proof fn lemma_occupancy_balance<T>(s: Seq<Slot<T>>, evs: Seq<ScopeEvent<T>>)
    requires
        exits_hit_occupied_slots(s, evs),
    ensures
        occupied_count(scope_run(s, evs)) as int
            == occupied_count(s) + submit_count(evs) - exit_count(evs),
    decreases evs.len(),
{
    if evs.len() > 0 {
        match evs[0] {
            ScopeEvent::Submit(t) => lemma_insert_occupies(s, t),
            ScopeEvent::TaskExit(id) => lemma_remove_frees(s, id),
            ScopeEvent::Shutdown => lemma_shutdown_keeps_occupancy(s),
        }
        lemma_occupancy_balance(scope_step(s, evs[0]), evs.drop_first());
    }
}

/// No leak: start a scope fresh, run any sequence of submissions, shutdowns
/// and task exits, and once every submitted task has reached termination —
/// as many exits as submissions, each exit freeing a slot live at that
/// moment — the registry is empty.
pub proof fn lemma_no_leak<T>(evs: Seq<ScopeEvent<T>>)
    requires
        exits_hit_occupied_slots(Seq::empty(), evs),
        exit_count(evs) == submit_count(evs),
    ensures
        occupied_count(scope_run(Seq::empty(), evs)) == 0,
{
    lemma_occupancy_balance(Seq::<Slot<T>>::empty(), evs);
}

/// No sender stays armed after a shutdown pass.
proof fn lemma_no_armed_no_senders<T>(s: Seq<Slot<T>>)
    requires
        forall|i: int| 0 <= i < s.len() ==> !(s[i] is Armed),
    ensures
        armed_senders(s) == Seq::<T>::empty(),
    decreases s.len(),
{
    if s.len() > 0 {
        lemma_no_armed_no_senders(s.drop_last());
    }
}

/// Idempotence: a second shutdown pass — and so any further one — changes
/// nothing and signals nobody.  Together with the shutdown contract this
/// says that N calls have the same observable effect, on the tasks
/// registered before the first call, as one call.
pub proof fn lemma_shutdown_idempotent<T>(s: Seq<Slot<T>>)
    ensures
        after_shutdown(after_shutdown(s)) == after_shutdown(s),
        armed_senders(after_shutdown(s)) == Seq::<T>::empty(),
{
    assert(after_shutdown(after_shutdown(s)) =~= after_shutdown(s));
    lemma_no_armed_no_senders(after_shutdown(s));
}

/// The sender of every armed slot stands among the senders a shutdown pass
/// dispatches.
proof fn lemma_armed_sender_dispatched<T>(s: Seq<Slot<T>>, id: int, t: T)
    requires
        0 <= id < s.len(),
        s[id] == Slot::Armed(t),
    ensures
        armed_senders(s).contains(t),
    decreases s.len(),
{
    if id == s.len() - 1 {
        assert(armed_senders(s) == armed_senders(s.drop_last()).push(t));
        assert(armed_senders(s).last() == t);
    } else {
        lemma_armed_sender_dispatched(s.drop_last(), id, t);
        let rest = armed_senders(s.drop_last());
        let k = choose|k: int| 0 <= k < rest.len() && rest[k] == t;
        assert(armed_senders(s)[k] == t);
    }
}

/// Abrupt guarantee: a task whose slot is still armed when a shutdown pass
/// runs has its stop sender consumed and dispatched, and an abrupt wrapper
/// that has observed the stop signal completes at its next scheduling
/// opportunity whether or not the wrapped task ever finishes on its own.
pub proof fn lemma_abrupt_guarantee<T>(s: Seq<Slot<T>>, id: int, t: T, task_ready: bool)
    requires
        0 <= id < s.len(),
        s[id] == Slot::Armed(t),
    ensures
        armed_senders(s).contains(t),
        after_shutdown(s)[id] is Consumed,
        abrupt_completes(task_ready, true),
{
    lemma_armed_sender_dispatched(s, id, t);
}

/// Graceful guarantee: the coordinator never forcibly tears a task down.  A
/// shutdown pass keeps every occupied slot occupied, a submission never
/// touches an occupied slot either, and a graceful wrapper completes
/// exactly when its task chooses to — the slot is freed only by the task's
/// own exit.
pub proof fn lemma_graceful_guarantee<T>(s: Seq<Slot<T>>, id: int)
    requires
        0 <= id < s.len(),
        !(s[id] is Vacant),
    ensures
        !(after_shutdown(s)[id] is Vacant),
        forall|ev: ScopeEvent<T>|
            !(ev is TaskExit) ==> #[trigger] scope_step(s, ev).len() >= s.len()
                && !(scope_step(s, ev)[id] is Vacant),
        forall|task_ready: bool| #[trigger] graceful_completes(task_ready) == task_ready,
{
    assert forall|ev: ScopeEvent<T>|
        !(ev is TaskExit) implies #[trigger] scope_step(s, ev).len() >= s.len()
            && !(scope_step(s, ev)[id] is Vacant) by {
        match ev {
            ScopeEvent::Submit(t) => {
                lemma_first_vacant_in_range(s);
                assert(first_vacant(s) != id);
            }
            _ => {}
        }
    }
}

} // verus!
