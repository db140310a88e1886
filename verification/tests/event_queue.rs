use xinput::queue::EventQueue;

#[test]
fn empty_queue_yields_nothing() {
    let mut q = EventQueue::new();
    assert_eq!(q.take_event(), None);
}

#[test]
fn events_leave_in_enqueue_order() {
    let mut q = EventQueue::new();
    assert!(q.offer_event(true, 0, 0));
    assert!(q.offer_event(false, 1, 0));
    assert!(q.offer_event(true, 2, 1));
    assert_eq!(q.take_event(), Some((true, (0, 0))));
    assert_eq!(q.take_event(), Some((false, (1, 0))));
    assert_eq!(q.take_event(), Some((true, (2, 1))));
    assert_eq!(q.take_event(), None);
}

#[test]
fn twenty_fifth_event_is_held_back_and_none_are_dropped() {
    let mut q = EventQueue::new();
    for i in 0..24usize {
        assert!(q.offer_event(i % 2 == 0, i, 0), "event {} should be accepted", i);
    }
    // The queue holds 24 pending events: the producer must suspend.
    assert!(!q.offer_event(true, 99, 99));
    // The rejected event was not enqueued and nothing was lost.
    assert_eq!(q.take_event(), Some((true, (0, 0))));
    // One slot is free again: the producer's retry succeeds.
    assert!(q.offer_event(true, 99, 99));
    for i in 1..24usize {
        assert_eq!(q.take_event(), Some((i % 2 == 0, (i, 0))));
    }
    assert_eq!(q.take_event(), Some((true, (99, 99))));
    assert_eq!(q.take_event(), None);
}
