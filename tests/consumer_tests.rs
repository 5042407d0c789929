use azeventhubs::consumer::{
    batch_credit, effective_prefetch, receive_one_credit, timeout_top_up_credit, ConsumerOptions,
    ConsumerProgress, LastEventTracker, DEFAULT_PREFETCH_COUNT,
};
use azeventhubs::position::EventPosition;

#[test]
fn filter_expressions() {
    assert_eq!(
        EventPosition::from_offset(42, false).filter_expression(),
        "amqp.annotation.x-opt-offset > '42'"
    );
    assert_eq!(
        EventPosition::from_offset(42, true).filter_expression(),
        "amqp.annotation.x-opt-offset >= '42'"
    );
    assert_eq!(
        EventPosition::earliest().filter_expression(),
        "amqp.annotation.x-opt-offset >= '-1'"
    );
    assert_eq!(
        EventPosition::latest().filter_expression(),
        "amqp.annotation.x-opt-offset > '@latest'"
    );
    assert_eq!(
        EventPosition::from_sequence_number(1234567, true).filter_expression(),
        "amqp.annotation.x-opt-sequence-number >= 1234567"
    );
    assert_eq!(
        EventPosition::from_sequence_number(0, false).filter_expression(),
        "amqp.annotation.x-opt-sequence-number > 0"
    );
    assert_eq!(
        EventPosition::from_enqueued_time(1_700_000_000_123).filter_expression(),
        "amqp.annotation.x-opt-enqueued-time > 1700000000123"
    );
    assert_eq!(
        EventPosition::from_offset(i64::MIN, false).filter_expression(),
        "amqp.annotation.x-opt-offset > '-9223372036854775808'"
    );
}

#[test]
fn exclusive_positions() {
    assert_eq!(EventPosition::from_offset(3, true).exclusive(), EventPosition::from_offset(3, false));
    assert_eq!(
        EventPosition::from_sequence_number(3, true).exclusive(),
        EventPosition::from_sequence_number(3, false)
    );
    assert_eq!(EventPosition::from_enqueued_time(9).exclusive(), EventPosition::from_enqueued_time(9));
    assert!(EventPosition::from_offset(3, true).admits(3));
    assert!(!EventPosition::from_offset(3, false).admits(3));
    assert!(EventPosition::from_offset(3, false).admits(4));
}

#[test]
fn recovery_resumes_after_last_delivered_offset() {
    let mut progress = ConsumerProgress::new(EventPosition::earliest());
    let mut delivered = Vec::new();
    for i in 0..100i64 {
        let offset = i * 16;
        assert!(progress.record_delivery(Some(offset)));
        delivered.push(offset);
    }
    let resume = progress.rebuild();
    assert_eq!(resume, EventPosition::from_offset(99 * 16, false));
    for d in &delivered {
        assert!(!resume.admits(*d));
    }
    // The broker redelivers an old event after the rebuild: it is refused.
    assert!(!progress.record_delivery(Some(50 * 16)));
    assert!(progress.record_delivery(Some(100 * 16)));
    delivered.push(100 * 16);
    assert!(delivered[100] > delivered[99]);
    assert!(delivered.windows(2).all(|w| w[0] < w[1]));
}

#[test]
fn monotonic_progress_across_repeated_faults() {
    let mut progress = ConsumerProgress::new(EventPosition::from_offset(10, true));
    let mut accepted = Vec::new();
    let script: [&[i64]; 3] = [&[10, 11, 12], &[12, 13, 14], &[9, 14, 15]];
    for run in script {
        for &o in run {
            if progress.record_delivery(Some(o)) {
                accepted.push(o);
            }
        }
        progress.rebuild();
    }
    assert_eq!(accepted, vec![10, 11, 12, 13, 14, 15]);
    assert_eq!(progress.recovery_position(), EventPosition::from_offset(15, false));
}

#[test]
fn recovery_before_any_delivery_keeps_initial_position_exclusive() {
    let progress = ConsumerProgress::new(EventPosition::from_sequence_number(7, true));
    assert_eq!(progress.recovery_position(), EventPosition::from_sequence_number(7, false));
    let progress = ConsumerProgress::new(EventPosition::from_enqueued_time(1000));
    assert_eq!(progress.recovery_position(), EventPosition::from_enqueued_time(1000));
    let mut progress = ConsumerProgress::new(EventPosition::latest());
    assert!(progress.record_delivery(None));
    assert_eq!(progress.recovery_position(), EventPosition::latest());
}

#[test]
fn credits() {
    assert_eq!(effective_prefetch(None), DEFAULT_PREFETCH_COUNT);
    assert_eq!(effective_prefetch(Some(0)), 0);
    assert_eq!(receive_one_credit(0), Some(1));
    assert_eq!(receive_one_credit(300), None);
    assert_eq!(timeout_top_up_credit(0), 1);
    assert_eq!(timeout_top_up_credit(300), 300);
    assert_eq!(batch_credit(0, 10, 4), Some(6));
    assert_eq!(batch_credit(0, 10, 10), Some(1));
    assert_eq!(batch_credit(5, 10, 4), None);
}

#[test]
fn consumer_reopened_at_recovery_position() {
    let options = ConsumerOptions {
        consumer_group: "$Default".to_string(),
        partition_id: "0".to_string(),
        event_position: EventPosition::earliest(),
        prefetch_count: 300,
        owner_level: Some(2),
        track_last_enqueued_event_properties: true,
        identifier: Some("c1".to_string()),
    };
    let reopened = options.reopened_at(EventPosition::from_offset(5, false));
    assert_eq!(reopened.event_position, EventPosition::from_offset(5, false));
    assert_eq!(reopened.consumer_group, "$Default");
    assert_eq!(reopened.partition_id, "0");
    assert_eq!(reopened.owner_level, Some(2));
    assert_eq!(reopened.identifier.as_deref(), Some("c1"));
}

#[test]
fn last_received_event_is_kept_only_when_tracking() {
    let mut options = ConsumerOptions {
        consumer_group: "$Default".to_string(),
        partition_id: "0".to_string(),
        event_position: EventPosition::earliest(),
        prefetch_count: 300,
        owner_level: None,
        track_last_enqueued_event_properties: true,
        identifier: None,
    };
    let mut tracker: LastEventTracker<u32> = LastEventTracker::for_options(&options);
    assert_eq!(tracker.last_received_event(), None);
    tracker.observe(1);
    tracker.observe(2);
    assert_eq!(tracker.last_received_event(), Some(&2));
    options.track_last_enqueued_event_properties = false;
    let mut untracked: LastEventTracker<u32> = LastEventTracker::for_options(&options);
    untracked.observe(1);
    assert_eq!(untracked.last_received_event(), None);
}
