//! The stop signal: a single-use, single-writer/single-reader notification
//! used to tell one running task "stop now".
//!
//! A fresh sender/receiver pair is created for every registered task.  The
//! coordinator keeps the sender in the task's registry slot; the receiver
//! travels with the task.  Sending succeeds at most once, and only while
//! the receiving end is still alive.

use vstd::prelude::*;

verus! {

/// The sending half of futures' oneshot channel, opaque here; the registry
/// stores one per registered task.
#[verifier::external_type_specification]
#[verifier::external_body]
#[verifier::reject_recursive_types(T)]
pub struct ExSender<T>(futures::channel::oneshot::Sender<T>);

/// The receiving half of futures' oneshot channel, opaque here; it travels
/// with the task that is to watch for the stop notification.
#[verifier::external_type_specification]
#[verifier::external_body]
#[verifier::reject_recursive_types(T)]
pub struct ExReceiver<T>(futures::channel::oneshot::Receiver<T>);

/// The error a oneshot receiver reports when its sender is gone; named only
/// because the receiver's own interface mentions it.
#[verifier::external_type_specification]
#[verifier::external_body]
pub struct ExCanceled(futures::channel::oneshot::Canceled);

/// Relies on futures::channel::oneshot::channel: it hands back a fresh,
/// unused sender/receiver pair over which one value can travel.
#[verifier::external_body]
pub(crate) fn stop_channel() -> (pair: (
    futures::channel::oneshot::Sender<()>,
    futures::channel::oneshot::Receiver<()>,
))
{
    futures::channel::oneshot::channel()
}

/// Relies on futures::channel::oneshot::Sender::send: delivery succeeds
/// exactly when the receiving end is still alive, so the outcome depends on
/// the receiver's fate and nothing can be promised of it here.
#[verifier::external_body]
pub(crate) fn send_stop(sender: futures::channel::oneshot::Sender<()>) -> (delivered: bool)
{
    sender.send(()).is_ok()
}

} // verus!
