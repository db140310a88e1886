use xinput::pipeline::aggregation_step;
use xinput::pipeline::drain_pending;
use xinput::pipeline::Aggregator;
use xinput::pipeline::Debouncer;
use xinput::queue::EventQueue;

const SETTLE: u64 = 8334;

#[test]
fn debouncer_emits_first_edge_immediately() {
    let mut d = Debouncer::new(SETTLE);
    assert_eq!(d.observe_edge(0, true), Some((true, (0, 0))));
}

#[test]
fn edges_inside_the_settle_interval_are_missed() {
    let mut d = Debouncer::new(SETTLE);
    assert_eq!(d.observe_edge(1000, false), Some((false, (0, 0))));
    // A second edge less than one settle interval later: exactly one
    // event came out of the pair.
    assert_eq!(d.observe_edge(1000 + SETTLE - 1, true), None);
    // Once the interval has passed, edges are observed again.
    assert_eq!(d.observe_edge(1000 + SETTLE, true), Some((true, (0, 0))));
}

#[test]
fn session_starts_not_ready_with_all_released() {
    let a = Aggregator::new();
    assert!(!a.ready);
    assert_eq!(a.report.serialize()[2], 0x00);
    assert_eq!(a.report.serialize()[3], 0x00);
}

#[test]
fn press_at_origin_transmits_exactly_that_field() {
    // Low-to-high edge mapped to position (0, 0): one event, one report
    // whose directional field bound to (0, 0) is the only newly set bit.
    let mut agg = Aggregator::new();
    agg.on_ready();
    let mut q = EventQueue::new();
    assert!(q.offer_event(true, 0, 0));

    let frame = aggregation_step(&mut agg, &mut q).expect("one transmit is owed");
    assert!(agg.report.dpad_right);
    assert_eq!(frame[2], 0x08);
    assert_eq!(frame[3], 0x00);
    let mut expected = vec![0u8; 20];
    expected[1] = 0x14;
    expected[2] = 0x08;
    assert_eq!(frame, expected);

    // Exactly one transmit: the queue is drained, no further report is due.
    assert_eq!(aggregation_step(&mut agg, &mut q), None);
}

#[test]
fn unmapped_event_still_transmits_unchanged_state() {
    let mut agg = Aggregator::new();
    agg.on_ready();
    let before = agg.report.serialize();
    let frame = agg.on_event(true, 7, 7);
    assert_eq!(frame, before);
}

#[test]
fn drain_transmits_one_snapshot_per_event_in_order() {
    let mut agg = Aggregator::new();
    agg.on_ready();
    let mut q = EventQueue::new();
    assert!(q.offer_event(true, 0, 0)); // press at (0, 0): dpad right
    assert!(q.offer_event(true, 3, 1)); // press at (3, 1): face button a
    assert!(q.offer_event(false, 0, 0)); // release at (0, 0)

    let frames = drain_pending(&mut agg, &mut q);
    assert_eq!(frames.len(), 3);
    assert_eq!((frames[0][2], frames[0][3]), (0x08, 0x00));
    assert_eq!((frames[1][2], frames[1][3]), (0x08, 0x10));
    assert_eq!((frames[2][2], frames[2][3]), (0x00, 0x10));
    assert_eq!(q.take_event(), None);
    assert!(agg.report.button_a);
    assert!(!agg.report.dpad_right);
}

#[test]
fn write_failure_does_not_stop_the_loop() {
    let mut agg = Aggregator::new();
    agg.on_ready();
    let mut q = EventQueue::new();
    assert!(q.offer_event(true, 0, 0));
    assert!(q.offer_event(true, 1, 0));

    let first = aggregation_step(&mut agg, &mut q).expect("first transmit");
    assert_eq!(first[2], 0x08);
    // The transport rejects the first report: the loop keeps running and
    // the session state is untouched.
    assert!(agg.on_write_result(false));
    assert!(agg.report.dpad_right);

    // The next event's report is still attempted, and its snapshot
    // supersedes the failed one.
    let second = aggregation_step(&mut agg, &mut q).expect("second transmit");
    assert_eq!(second[2], 0x08 | 0x01);
    assert!(agg.on_write_result(true));
}
