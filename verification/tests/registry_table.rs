//! The slot table on its own: identifier reuse, idempotent removal, and the
//! consume-once discipline of the stop senders.

use execution_scope::registry::Registry;

#[test]
fn insertion_hands_out_the_lowest_free_identifier() {
    let mut table: Registry<u64> = Registry::new();
    assert_eq!(table.insert(10), 0);
    assert_eq!(table.insert(11), 1);
    assert_eq!(table.insert(12), 2);

    table.remove(1);
    assert_eq!(table.insert(13), 1);

    table.remove(0);
    table.remove(2);
    assert_eq!(table.insert(14), 0);
    assert_eq!(table.insert(15), 2);
    assert_eq!(table.insert(16), 3);
    assert_eq!(table.task_count(), 4);
}

#[test]
fn removal_is_idempotent_and_tolerates_absent_identifiers() {
    let mut table: Registry<u64> = Registry::new();
    let id = table.insert(42);
    table.remove(id);
    assert_eq!(table.task_count(), 0);

    // Removing again, or removing an identifier that never existed, is a
    // silent no-op.
    table.remove(id);
    table.remove(999);
    assert_eq!(table.task_count(), 0);
}

#[test]
fn a_sender_is_taken_at_most_once() {
    let mut table: Registry<u64> = Registry::new();
    let id = table.insert(7);

    assert_eq!(table.take(id), Some(7));
    assert_eq!(table.take(id), None);

    // The slot stays occupied after its sender is consumed.
    assert_eq!(table.task_count(), 1);

    // A vacant or out-of-range slot yields nothing either.
    table.remove(id);
    assert_eq!(table.take(id), None);
    assert_eq!(table.take(999), None);
}

#[test]
fn consume_all_collects_armed_senders_in_identifier_order() {
    let mut table: Registry<u64> = Registry::new();
    let a = table.insert(30);
    let _b = table.insert(31);
    let _c = table.insert(32);

    // One sender is already gone, one slot is already free.
    assert_eq!(table.take(a), Some(30));
    let d = table.insert(33);
    assert_eq!(d, 3);
    table.remove(1);

    assert_eq!(table.consume_all(), vec![32, 33]);

    // Everything is consumed now: a second pass finds nothing.
    assert_eq!(table.consume_all(), vec![]);
    assert_eq!(table.task_count(), 3);
}
