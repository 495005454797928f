use rift_client::mode::SubscribeMode;
use rift_client::subscriber::SubscriptionTracker;

#[test]
fn add_and_get() {
    let mut t = SubscriptionTracker::new();
    t.add("room/1", SubscribeMode::Live);
    assert_eq!(t.get("room/1"), Some(SubscribeMode::Live));
    assert_eq!(t.get("room/2"), None);
}

#[test]
fn remove() {
    let mut t = SubscriptionTracker::new();
    t.add("a", SubscribeMode::Replay);
    assert!(t.remove("a"));
    assert!(!t.remove("a"));
    assert_eq!(t.len(), 0);
}

#[test]
fn update_mode() {
    let mut t = SubscriptionTracker::new();
    t.add("x", SubscribeMode::Live);
    t.add("x", SubscribeMode::Replay);
    assert_eq!(t.get("x"), Some(SubscribeMode::Replay));
}

#[test]
fn iter_yields_all() {
    let mut t = SubscriptionTracker::new();
    t.add("a", SubscribeMode::Live);
    t.add("b", SubscribeMode::Ephemeral);
    let all = t.iter();
    let names: Vec<&str> = all.iter().map(|(k, _)| k.as_str()).collect();
    assert!(names.contains(&"a"));
    assert!(names.contains(&"b"));
}

#[test]
fn new_tracker_is_empty() {
    let t = SubscriptionTracker::new();
    assert!(t.is_empty());
    assert_eq!(t.len(), 0);
    assert!(t.iter().is_empty());
    let d = SubscriptionTracker::default();
    assert!(d.is_empty());
}

#[test]
fn add_then_get_other_topics_unaffected() {
    let mut t = SubscriptionTracker::new();
    t.add("a", SubscribeMode::Latest);
    t.add("b", SubscribeMode::Passive);
    assert_eq!(t.get("a"), Some(SubscribeMode::Latest));
    assert_eq!(t.get("b"), Some(SubscribeMode::Passive));
    assert_eq!(t.len(), 2);
    assert!(!t.is_empty());
}

#[test]
fn re_adding_keeps_count() {
    let mut t = SubscriptionTracker::new();
    t.add("x", SubscribeMode::Live);
    t.add("x", SubscribeMode::SnapshotThenLive);
    assert_eq!(t.len(), 1);
    let all = t.iter();
    assert_eq!(all.len(), 1);
    assert_eq!(all[0].0, "x");
    assert_eq!(all[0].1, SubscribeMode::SnapshotThenLive);
}

#[test]
fn remove_keeps_other_topics() {
    let mut t = SubscriptionTracker::new();
    t.add("a", SubscribeMode::Live);
    t.add("b", SubscribeMode::Replay);
    t.add("c", SubscribeMode::Latest);
    assert!(t.remove("b"));
    assert_eq!(t.get("b"), None);
    assert_eq!(t.get("a"), Some(SubscribeMode::Live));
    assert_eq!(t.get("c"), Some(SubscribeMode::Latest));
    assert_eq!(t.len(), 2);
    assert!(!t.remove("missing"));
    assert_eq!(t.len(), 2);
}
