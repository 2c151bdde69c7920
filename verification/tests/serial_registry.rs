use gnirehtet::relay::serial_registry::{
    register_pending, take_pending, PendingQueue, MATCH_WINDOW, MAX_PENDING,
};

const NOW: u64 = 1_000_000_000;

#[test]
fn register_then_take() {
    let mut queue = PendingQueue::new();
    register_pending(&mut queue, "serial-A", NOW);
    assert_eq!(take_pending(&mut queue, NOW), Some("serial-A".to_string()));
    assert_eq!(take_pending(&mut queue, NOW), None);
}

#[test]
fn fifo_order() {
    let mut queue = PendingQueue::new();
    register_pending(&mut queue, "A", NOW);
    register_pending(&mut queue, "B", NOW);
    register_pending(&mut queue, "C", NOW);
    assert_eq!(take_pending(&mut queue, NOW), Some("A".to_string()));
    assert_eq!(take_pending(&mut queue, NOW), Some("B".to_string()));
    assert_eq!(take_pending(&mut queue, NOW), Some("C".to_string()));
    assert_eq!(take_pending(&mut queue, NOW), None);
}

#[test]
fn take_empty_returns_none() {
    let mut queue = PendingQueue::new();
    assert_eq!(take_pending(&mut queue, NOW), None);
}

#[test]
fn max_pending_drops_oldest() {
    let mut queue = PendingQueue::new();
    for i in 0..(MAX_PENDING + 3) {
        register_pending(&mut queue, &format!("s{}", i), NOW);
    }
    // The oldest three entries should have been dropped.
    assert_eq!(take_pending(&mut queue, NOW), Some("s3".to_string()));
}

#[test]
fn max_pending_keeps_the_newest() {
    let mut queue = PendingQueue::new();
    for i in 0..(MAX_PENDING + 3) {
        register_pending(&mut queue, &format!("s{}", i), NOW);
    }
    for i in 3..(MAX_PENDING + 3) {
        assert_eq!(take_pending(&mut queue, NOW), Some(format!("s{}", i)));
    }
    assert_eq!(take_pending(&mut queue, NOW), None);
}

#[test]
fn stale_serials_are_not_taken() {
    let mut queue = PendingQueue::new();
    register_pending(&mut queue, "old", NOW);
    register_pending(&mut queue, "young", NOW + 1);
    assert_eq!(
        take_pending(&mut queue, NOW + MATCH_WINDOW),
        Some("young".to_string())
    );
    register_pending(&mut queue, "last", NOW);
    assert_eq!(take_pending(&mut queue, NOW + MATCH_WINDOW), None);
}

#[test]
fn serials_match_up_to_the_end_of_the_window() {
    let mut queue = PendingQueue::new();
    register_pending(&mut queue, "A", NOW);
    assert_eq!(
        take_pending(&mut queue, NOW + MATCH_WINDOW - 1),
        Some("A".to_string())
    );
}

#[test]
fn registering_forgets_stale_serials() {
    let mut queue = PendingQueue::new();
    for i in 0..MAX_PENDING {
        register_pending(&mut queue, &format!("s{}", i), NOW);
    }
    register_pending(&mut queue, "new", NOW + MATCH_WINDOW);
    assert_eq!(
        take_pending(&mut queue, NOW + MATCH_WINDOW),
        Some("new".to_string())
    );
    assert_eq!(take_pending(&mut queue, NOW + MATCH_WINDOW), None);
}

#[test]
fn a_clock_that_runs_backwards_keeps_serials_fresh() {
    let mut queue = PendingQueue::new();
    register_pending(&mut queue, "A", NOW + MATCH_WINDOW * 2);
    assert_eq!(take_pending(&mut queue, NOW), Some("A".to_string()));
}
