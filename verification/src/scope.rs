//! The shared state of one execution scope.
//!
//! A scope groups the tasks spawned on behalf of one logical client under a
//! single controllable lifetime.  This state — the task registry with each
//! task's consumable stop sender — is what every handle of the scope shares
//! behind one lock.  The lock itself, the upstream executor handle and the
//! asynchronous plumbing live with the embedding program; every operation
//! here is one of the short critical sections performed under that lock.

use vstd::prelude::*;

verus! {

use futures::channel::oneshot::Receiver;
use futures::channel::oneshot::Sender;
use crate::registry::Registry;
use crate::registry::Slot;
use crate::registry::after_insert;
use crate::registry::after_remove;
use crate::registry::after_shutdown;
use crate::registry::armed_senders;
use crate::registry::first_vacant;
use crate::registry::occupied_count;
use crate::signal::send_stop;
use crate::signal::stop_channel;

/// The registry of possibly-still-running tasks, viewed as the sequence of
/// its abstract slots.
pub struct ScopeState {
    registry: Registry<Sender<()>>,
}

impl View for ScopeState {
    type V = Seq<Slot<Sender<()>>>;

    closed spec fn view(&self) -> Seq<Slot<Sender<()>>> {
        self.registry@
    }
}

impl ScopeState {
    /// A fresh scope with no registered tasks.
    pub fn new() -> (r: ScopeState)
        ensures
            r@ == Seq::<Slot<Sender<()>>>::empty(),
    {
        ScopeState { registry: Registry::new() }
    }

    /// Register one submitted task: create its stop signal, arm the lowest
    /// currently-free slot with the signal's sender, and hand back the
    /// slot's identifier together with the receiving end, which must travel
    /// with the task.
    ///
    /// If the upstream executor then rejects the task, the caller rolls the
    /// slot back with [`Self::remove_task`] before reporting the rejection,
    /// so no partial registration stays visible.
    pub fn register(&mut self) -> (r: (usize, Receiver<()>))
        ensures
            r.0 == first_vacant(old(self)@),
            exists|t: Sender<()>| final(self)@ == after_insert(old(self)@, t),
            r.0 <= old(self)@.len(),
            forall|j: int| 0 <= j < r.0 ==> !(old(self)@[j] is Vacant),
            final(self)@[r.0 as int] is Armed,
            forall|j: int|
                0 <= j < final(self)@.len() && j != r.0 && j < old(self)@.len()
                    ==> final(self)@[j] == old(self)@[j],
            final(self)@.len() == if r.0 < old(self)@.len() {
                old(self)@.len()
            } else {
                old(self)@.len() + 1
            },
            occupied_count(final(self)@) == occupied_count(old(self)@) + 1,
    {
        let (sender, receiver) = stop_channel();
        let id = self.registry.insert(sender);
        proof {
            crate::registry::lemma_insert_occupies(old(self)@, sender);
        }
        (id, receiver)
    }

    /// Drop the slot with identifier `id` from the registry.  The task
    /// wrapper calls this when its task stops running, whatever the cause;
    /// submission calls it to roll back a slot whose task the executor
    /// rejected.  Removing an already-absent identifier is a silent no-op.
    pub fn remove_task(&mut self, id: usize)
        ensures
            final(self)@ == after_remove(old(self)@, id as int),
    {
        self.registry.remove(id);
    }

    /// Signal every slot registered at the moment of the call to stop, and
    /// return how many stop signals were dispatched.  The pass consumes each
    /// armed slot's sender and attempts delivery on it; a slot whose sender
    /// is already gone is mid-self-removal, a benign race, and is skipped.
    /// The call never waits for any task to actually exit.
    pub fn shutdown(&mut self) -> (notified: usize)
        ensures
            final(self)@ == after_shutdown(old(self)@),
            notified == armed_senders(old(self)@).len(),
    {
        let mut senders = self.registry.consume_all();
        let notified = senders.len();
        while senders.len() > 0
            decreases senders@.len(),
        {
            let next = senders.pop();
            match next {
                Some(sender) => {
                    // A failed delivery means the receiver died before its
                    // slot was removed, which the registry's discipline rules
                    // out; no recovery is possible, so the pass goes on with
                    // the remaining slots.
                    let _delivered = send_stop(sender);
                }
                None => (),
            }
        }
        notified
    }

    /// How many tasks are currently registered as possibly still running.
    pub fn task_count(&self) -> (n: usize)
        ensures
            n == occupied_count(self@),
    {
        self.registry.task_count()
    }
}

} // verus!
