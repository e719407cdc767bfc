use dikt::focus::FocusTracker;
use dikt::pending::PendingCommitStore;
use dikt::preview::LivePreeditStore;

#[test]
fn pending_commit_store_take_for_session_claim_consumes_exact_match() {
    let mut store = PendingCommitStore::default();
    store.store(42, "claim-a".to_string(), "hello".to_string(), 1_000);
    store.store(43, "claim-b".to_string(), "world".to_string(), 1_001);

    let (ok_first, text_first) = store.take_for_session(42, "claim-a");
    assert!(ok_first);
    assert_eq!(text_first, "hello");

    let (ok_second, text_second) = store.take_for_session(43, "claim-b");
    assert!(ok_second);
    assert_eq!(text_second, "world");
}

#[test]
fn pending_commit_store_rejects_wrong_claim() {
    let mut store = PendingCommitStore::default();
    store.store(61, "claim-ok".to_string(), "payload".to_string(), 5);

    let (ok, text) = store.take_for_session(61, "claim-wrong");
    assert!(!ok);
    assert!(text.is_empty());
    let (ok_again, text_again) = store.take_for_session(61, "claim-ok");
    assert!(ok_again);
    assert_eq!(text_again, "payload");
}

#[test]
fn pending_commit_store_stats_reports_oldest_age() {
    let mut store = PendingCommitStore::default();
    store.store(99, "claim-99".to_string(), "payload".to_string(), 10_000);
    let stats = store.stats(10_002);
    assert_eq!(stats.queue_len, 1);
    assert!(stats.oldest_age_ms > 0);
    assert_eq!(stats.oldest_age_ms, 2);
    assert_eq!(stats.dropped_count, 0);
    assert_eq!(stats.targets.get(&99), Some(&1));
    assert_eq!(stats.targets.len(), 1);
}

#[test]
fn pending_commit_store_keeps_independent_queue_order() {
    let mut store = PendingCommitStore::default();
    store.store(10, "claim-10".to_string(), "first".to_string(), 1);
    store.store(11, "claim-11".to_string(), "second".to_string(), 2);
    store.store(12, "claim-12".to_string(), "third".to_string(), 3);

    let first = store.take_for_session(10, "claim-10");
    let second = store.take_for_session(11, "claim-11");
    let third = store.take_for_session(12, "claim-12");

    assert_eq!(first, (true, "first".to_string()));
    assert_eq!(second, (true, "second".to_string()));
    assert_eq!(third, (true, "third".to_string()));
}

#[test]
fn live_preedit_store_tracks_latest_per_session() {
    let mut store = LivePreeditStore::default();
    store.set(42, 1, "alpha".to_string());
    store.set(42, 2, "bravo".to_string());

    let (revision, visible, text) = store.get_for_session(42);
    assert_eq!(revision, 2);
    assert!(visible);
    assert_eq!(text, "bravo");
}

#[test]
fn live_preedit_store_keeps_session_isolation() {
    let mut store = LivePreeditStore::default();
    store.set(21, 7, "left".to_string());
    store.set(22, 9, "right".to_string());

    let left = store.get_for_session(21);
    let right = store.get_for_session(22);
    assert_eq!(left.0, 7);
    assert!(left.1);
    assert_eq!(left.2, "left");
    assert_eq!(right.0, 9);
    assert!(right.1);
    assert_eq!(right.2, "right");
}

#[test]
fn live_preedit_store_clear_hides_entry() {
    let mut store = LivePreeditStore::default();
    store.set(101, 3, "hello".to_string());
    store.clear(101, 4);

    let (revision, visible, text) = store.get_for_session(101);
    assert_eq!(revision, 4);
    assert!(!visible);
    assert!(text.is_empty());
}

#[test]
fn pending_commit_taken_exactly_once() {
    let mut store = PendingCommitStore::default();
    store.store(7, "token-7".to_string(), "said".to_string(), 1);
    assert_eq!(store.take_for_session(7, "token-7"), (true, "said".to_string()));
    assert_eq!(store.take_for_session(7, "token-7"), (false, String::new()));
    assert_eq!(store.take_for_session(7, "token-7"), (false, String::new()));
    assert_eq!(store.len(), 0);
}

#[test]
fn pending_commit_wrong_session_does_not_consume() {
    let mut store = PendingCommitStore::default();
    store.store(1, "token-a".to_string(), "for a".to_string(), 1);
    store.store(2, "token-b".to_string(), "for b".to_string(), 2);
    assert_eq!(store.take_for_session(1, "token-b"), (false, String::new()));
    assert_eq!(store.take_for_session(2, "token-a"), (false, String::new()));
    assert_eq!(store.len(), 2);
    assert_eq!(store.take_for_session(1, "token-a"), (true, "for a".to_string()));
    assert_eq!(store.take_for_session(2, "token-b"), (true, "for b".to_string()));
}

#[test]
fn pending_commit_queue_is_bounded() {
    let mut store = PendingCommitStore::default();
    for i in 0..40u64 {
        store.store(i, format!("token-{}", i), format!("text-{}", i), i);
    }
    assert_eq!(store.len(), 32);
    assert_eq!(store.dropped_count(), 8);
    let stats = store.stats(100);
    assert_eq!(stats.queue_len, 32);
    assert_eq!(stats.dropped_count, 8);
    assert_eq!(stats.oldest_age_ms, 92);
    for i in 0..8u64 {
        let token = format!("token-{}", i);
        assert_eq!(store.take_for_session(i, &token), (false, String::new()));
    }
    for i in 8..40u64 {
        let token = format!("token-{}", i);
        assert_eq!(store.take_for_session(i, &token), (true, format!("text-{}", i)));
    }
    assert_eq!(store.len(), 0);
}

#[test]
fn pending_commit_takes_oldest_of_equal_claims() {
    let mut store = PendingCommitStore::default();
    store.store(5, "t".to_string(), "older".to_string(), 1);
    store.store(5, "t".to_string(), "newer".to_string(), 2);
    let stats = store.stats(2);
    assert_eq!(stats.targets.get(&5), Some(&2));
    assert_eq!(store.take_for_session(5, "t"), (true, "older".to_string()));
    assert_eq!(store.take_for_session(5, "t"), (true, "newer".to_string()));
}

#[test]
fn pending_commit_stats_of_empty_queue() {
    let store = PendingCommitStore::default();
    let stats = store.stats(123);
    assert_eq!(stats.queue_len, 0);
    assert_eq!(stats.oldest_age_ms, 0);
    assert_eq!(stats.dropped_count, 0);
    assert!(stats.targets.is_empty());
}

#[test]
fn pending_commit_age_never_negative() {
    let mut store = PendingCommitStore::default();
    store.store(1, "t".to_string(), "x".to_string(), 500);
    assert_eq!(store.stats(400).oldest_age_ms, 0);
}

#[test]
fn live_preedit_ignores_lower_revision() {
    let mut store = LivePreeditStore::default();
    store.set(9, 5, "a".to_string());
    store.set(9, 3, "b".to_string());
    assert_eq!(store.get_for_session(9), (5, true, "a".to_string()));
}

#[test]
fn live_preedit_ignores_equal_revision() {
    let mut store = LivePreeditStore::default();
    store.set(9, 5, "a".to_string());
    store.set(9, 5, "b".to_string());
    store.clear(9, 5);
    assert_eq!(store.get_for_session(9), (5, true, "a".to_string()));
}

#[test]
fn live_preedit_unknown_session_is_empty() {
    let store = LivePreeditStore::default();
    assert_eq!(store.get_for_session(77), (0, false, String::new()));
}

#[test]
fn focus_tracker_follows_gain_and_loss() {
    let mut focus = FocusTracker::new(100);
    assert_eq!(focus.focused_engine_status(), (0, 100));
    focus.set_focused_engine(7, true, 200);
    assert_eq!(focus.focused_engine_status(), (7, 200));
    focus.set_focused_engine(7, true, 300);
    assert_eq!(focus.focused_engine_status(), (7, 200));
    focus.set_focused_engine(8, false, 400);
    assert_eq!(focus.focused_engine_status(), (7, 200));
    focus.set_focused_engine(7, false, 500);
    assert_eq!(focus.focused_engine_status(), (0, 500));
    focus.set_focused_engine(9, true, 600);
    focus.set_focused_engine(10, true, 700);
    assert_eq!(focus.focused_engine_status(), (10, 700));
}
