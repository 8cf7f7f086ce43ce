use mages_bridge::AttemptTracker;
use mages_bridge::ChannelPolicy;
use mages_bridge::QueueUpdate;
use mages_bridge::RecvOutcome;
use mages_bridge::SendState;
use mages_bridge::channel_decision;
use mages_bridge::queue_error_update;

#[test]
fn lifecycle_new_retry_sent() {
    let mut t = AttemptTracker::new();
    let room = "!room:example.org";

    let u = t
        .handle_update(room, &QueueUpdate::NewLocalEvent { transaction_id: "t1".to_string() })
        .unwrap();
    assert_eq!(u.room_id, room);
    assert_eq!(u.txn_id, "t1");
    assert_eq!(u.state, SendState::Enqueued);
    assert_eq!(u.attempts, 0);
    assert!(u.event_id.is_none());
    assert!(u.error.is_none());
    assert_eq!(t.attempts(room, "t1"), Some(0));

    let u = t
        .handle_update(room, &QueueUpdate::RetryEvent { transaction_id: "t1".to_string() })
        .unwrap();
    assert_eq!(u.state, SendState::Retrying);
    assert_eq!(u.attempts, 1);
    assert_eq!(t.attempts(room, "t1"), Some(1));

    let u = t
        .handle_update(
            room,
            &QueueUpdate::SentEvent {
                transaction_id: "t1".to_string(),
                event_id: "$abc".to_string(),
            },
        )
        .unwrap();
    assert_eq!(u.state, SendState::Sent);
    assert_eq!(u.attempts, 1);
    assert_eq!(u.event_id.as_deref(), Some("$abc"));
    // The map no longer holds t1 after the terminal success.
    assert_eq!(t.attempts(room, "t1"), None);
    assert_eq!(t.tracked_count(), 0);
}

#[test]
fn attempts_strictly_increase_across_retries() {
    let mut t = AttemptTracker::new();
    let room = "!r:x";
    let mut last = 0u32;
    for _ in 0..5 {
        let u = t
            .handle_update(room, &QueueUpdate::RetryEvent { transaction_id: "t".to_string() })
            .unwrap();
        assert!(u.attempts > last || last == 0);
        if last > 0 {
            assert_eq!(u.attempts, last + 1);
        }
        last = u.attempts;
    }
    assert_eq!(last, 5);
}

#[test]
fn recoverable_error_bumps_and_reports_message() {
    let mut t = AttemptTracker::new();
    let u = t
        .handle_update(
            "!r:x",
            &QueueUpdate::SendError {
                transaction_id: "t9".to_string(),
                error: "timeout".to_string(),
                is_recoverable: true,
            },
        )
        .unwrap();
    assert_eq!(u.state, SendState::Failed);
    assert_eq!(u.attempts, 1);
    assert_eq!(u.error.as_deref(), Some("timeout (recoverable=true)"));
    assert_eq!(t.attempts("!r:x", "t9"), Some(1));
}

#[test]
fn cancellation_prunes_the_record() {
    let mut t = AttemptTracker::new();
    let _ = t.handle_update(
        "!r:x",
        &QueueUpdate::NewLocalEvent { transaction_id: "t2".to_string() },
    );
    let _ = t.handle_update(
        "!r:x",
        &QueueUpdate::RetryEvent { transaction_id: "t2".to_string() },
    );
    assert_eq!(t.attempts("!r:x", "t2"), Some(1));
    let u = t
        .handle_update(
            "!r:x",
            &QueueUpdate::CancelledLocalEvent { transaction_id: "t2".to_string() },
        )
        .unwrap();
    assert_eq!(u.state, SendState::Failed);
    assert_eq!(u.attempts, 0);
    assert_eq!(u.error.as_deref(), Some("Cancelled before sending"));
    assert_eq!(t.attempts("!r:x", "t2"), None);
}

#[test]
fn replaced_and_media_upload_emit_nothing() {
    let mut t = AttemptTracker::new();
    assert!(t
        .handle_update(
            "!r:x",
            &QueueUpdate::ReplacedLocalEvent { transaction_id: "t3".to_string() },
        )
        .is_none());
    assert!(t
        .handle_update("!r:x", &QueueUpdate::MediaUpload { transaction_id: "t3".to_string() })
        .is_none());
    assert_eq!(t.tracked_count(), 0);
}

#[test]
fn same_transaction_in_two_rooms_is_tracked_separately() {
    let mut t = AttemptTracker::new();
    let _ = t.handle_update("!a:x", &QueueUpdate::RetryEvent { transaction_id: "t".to_string() });
    let _ = t.handle_update("!b:x", &QueueUpdate::RetryEvent { transaction_id: "t".to_string() });
    let _ = t.handle_update("!a:x", &QueueUpdate::RetryEvent { transaction_id: "t".to_string() });
    assert_eq!(t.attempts("!a:x", "t"), Some(2));
    assert_eq!(t.attempts("!b:x", "t"), Some(1));
}

#[test]
fn queue_disabled_error_has_empty_transaction() {
    let u = queue_error_update("!r:x", "storage gone", false);
    assert_eq!(u.room_id, "!r:x");
    assert_eq!(u.txn_id, "");
    assert_eq!(u.attempts, 0);
    assert_eq!(u.state, SendState::Failed);
    assert_eq!(
        u.error.as_deref(),
        Some("Room send queue disabled (recoverable=false): storage gone")
    );
}

#[test]
fn channel_policy_skips_lag_and_stops_on_close() {
    let item: RecvOutcome<u32> = RecvOutcome::Received(7);
    assert_eq!(channel_decision(&item), ChannelPolicy::Handle);
    let lagged: RecvOutcome<u32> = RecvOutcome::Lagged(12);
    assert_eq!(channel_decision(&lagged), ChannelPolicy::SkipAndContinue);
    let closed: RecvOutcome<u32> = RecvOutcome::Closed;
    assert_eq!(channel_decision(&closed), ChannelPolicy::StopCleanly);
}
