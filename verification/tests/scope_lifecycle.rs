//! Lifecycle scenarios for the execution scope: submission, cooperative and
//! abrupt cancellation, repeated shutdown, and the bookkeeping races.

use execution_scope::scope::ScopeState;
use execution_scope::wrapper::{abrupt_poll, graceful_poll, WrapperStep};

fn is_complete(step: WrapperStep) -> bool {
    matches!(step, WrapperStep::Complete)
}

#[test]
fn immediate_task_runs_once_and_leaves_no_slot() {
    // A task that completes on its very first scheduling opportunity.
    let mut scope = ScopeState::new();
    let (id, mut stop_receiver) = scope.register();
    assert_eq!(id, 0);
    assert_eq!(scope.task_count(), 1);

    let mut teardown_runs = 0;

    // First scheduling opportunity: the wrapped task is ready, no stop
    // signal has arrived.
    assert!(matches!(stop_receiver.try_recv(), Ok(None)));
    let step = abrupt_poll(true, false);
    assert!(is_complete(step));

    // Wrapper termination removes its own slot, exactly once.
    scope.remove_task(id);
    teardown_runs += 1;

    assert_eq!(scope.task_count(), 0);
    assert_eq!(teardown_runs, 1);
}

#[test]
fn abrupt_cancel_stops_a_stalled_task() {
    // A task permanently blocked on an event that never fires.
    let mut scope = ScopeState::new();
    let (id, mut stop_receiver) = scope.register();

    // The task makes no progress on its own.
    assert!(!is_complete(abrupt_poll(false, false)));
    assert!(!is_complete(abrupt_poll(false, false)));

    // Shutdown signals the one registered slot.
    let notified = scope.shutdown();
    assert_eq!(notified, 1);

    // The stop signal arrived; the next scheduling opportunity completes
    // the wrapper even though the external event never fired.
    assert!(matches!(stop_receiver.try_recv(), Ok(Some(()))));
    assert!(is_complete(abrupt_poll(false, true)));

    let mut teardown_runs = 0;
    scope.remove_task(id);
    teardown_runs += 1;

    assert_eq!(teardown_runs, 1);
    assert_eq!(scope.task_count(), 0);
}

#[test]
fn graceful_task_exits_on_its_own_terms() {
    // A task looping between two input sources, observing ticks until the
    // stop signal arrives.
    let mut scope = ScopeState::new();
    let (id, mut stop_receiver) = scope.register();

    let mut ticks_observed = 0;
    let mut completions = 0;

    // Two ticks arrive; after each one the task keeps running, and the
    // coordinator leaves it alone.
    for _ in 0..2 {
        assert!(matches!(stop_receiver.try_recv(), Ok(None)));
        ticks_observed += 1;
        assert!(!is_complete(graceful_poll(false)));
    }
    assert_eq!(ticks_observed, 2);

    // Shutdown delivers the signal but forces nothing: the slot stays put
    // until the task itself decides to finish.
    let notified = scope.shutdown();
    assert_eq!(notified, 1);
    assert_eq!(scope.task_count(), 1);

    // The task observes the signal and exits; its completion logic runs
    // exactly once, and only then is the slot freed.
    assert!(matches!(stop_receiver.try_recv(), Ok(Some(()))));
    assert!(is_complete(graceful_poll(true)));
    completions += 1;
    scope.remove_task(id);

    assert_eq!(ticks_observed, 2);
    assert_eq!(completions, 1);
    assert_eq!(scope.task_count(), 0);
}

#[test]
fn repeated_shutdown_signals_each_task_exactly_once() {
    // Two shutdown passes back to back — the interleaving that two racing
    // shutdown calls produce, since each pass runs under the shared lock.
    let mut scope = ScopeState::new();
    let (_id_a, mut rx_a) = scope.register();
    let (_id_b, mut rx_b) = scope.register();
    let (_id_c, mut rx_c) = scope.register();

    let first = scope.shutdown();
    let second = scope.shutdown();
    assert_eq!(first, 3);
    assert_eq!(second, 0);

    // Every task sees exactly one stop message: one successful receive,
    // then the channel is spent.
    for rx in [&mut rx_a, &mut rx_b, &mut rx_c] {
        assert!(matches!(rx.try_recv(), Ok(Some(()))));
        assert!(rx.try_recv().is_err());
    }

    // The slots are consumed, not freed: removal stays with the tasks.
    assert_eq!(scope.task_count(), 3);
}

#[test]
fn shutdown_tolerates_a_task_mid_self_removal() {
    // A task whose wrapper already removed its slot must not be signalled
    // again, and a task whose receiver is already gone must not derail the
    // pass for the remaining slots.
    let mut scope = ScopeState::new();
    let (id_done, rx_done) = scope.register();
    let (_id_gone, rx_gone) = scope.register();
    let (_id_live, mut rx_live) = scope.register();

    // The first task finished and removed itself before the shutdown call.
    drop(rx_done);
    scope.remove_task(id_done);

    // The second task's receiver died without its slot being removed; the
    // delivery attempt on it fails and is ignored.
    drop(rx_gone);

    let notified = scope.shutdown();
    assert_eq!(notified, 2);
    assert!(matches!(rx_live.try_recv(), Ok(Some(()))));
    assert_eq!(scope.task_count(), 2);
}

#[test]
fn rollback_after_rejected_submission_leaves_nothing_behind() {
    // When the upstream executor declines a task, the slot speculatively
    // allocated for it is rolled back before the error is surfaced.
    let mut scope = ScopeState::new();
    let (id, stop_receiver) = scope.register();
    assert_eq!(scope.task_count(), 1);

    // The executor said no: undo the registration.
    drop(stop_receiver);
    scope.remove_task(id);
    assert_eq!(scope.task_count(), 0);

    // A later submission is unaffected and reuses the slot.
    let (id_again, _rx) = scope.register();
    assert_eq!(id_again, 0);
    assert_eq!(scope.task_count(), 1);
}

#[test]
fn graceful_task_completing_on_its_own_frees_its_slot() {
    // A graceful task that finishes without any shutdown ever happening.
    let mut scope = ScopeState::new();
    let (id, mut stop_receiver) = scope.register();

    assert!(!is_complete(graceful_poll(false)));
    assert!(matches!(stop_receiver.try_recv(), Ok(None)));
    assert!(is_complete(graceful_poll(true)));
    scope.remove_task(id);

    assert_eq!(scope.task_count(), 0);
    // Freeing the slot discarded the unused sender, so the receiver now
    // reports the channel as dead rather than pending.
    assert!(stop_receiver.try_recv().is_err());
}

#[test]
fn shutdown_then_empty_scope_reports_nothing_to_signal() {
    let mut scope = ScopeState::new();
    assert_eq!(scope.shutdown(), 0);
    let (id, _rx) = scope.register();
    scope.remove_task(id);
    assert_eq!(scope.shutdown(), 0);
    assert_eq!(scope.task_count(), 0);
}
