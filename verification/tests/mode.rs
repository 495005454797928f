use rift_client::ack::AckStatus;
use rift_client::mode::{mode_str, SubscribeMode};

#[test]
fn mode_wire_names() {
    assert_eq!(mode_str(SubscribeMode::Live), "live");
    assert_eq!(mode_str(SubscribeMode::Replay), "replay");
    assert_eq!(mode_str(SubscribeMode::SnapshotThenLive), "snapshot_then_live");
    assert_eq!(mode_str(SubscribeMode::Latest), "latest");
    assert_eq!(mode_str(SubscribeMode::Passive), "passive");
    assert_eq!(mode_str(SubscribeMode::Ephemeral), "ephemeral");
}

#[test]
fn mode_names_are_distinct() {
    let all = [
        SubscribeMode::Live,
        SubscribeMode::Replay,
        SubscribeMode::SnapshotThenLive,
        SubscribeMode::Latest,
        SubscribeMode::Passive,
        SubscribeMode::Ephemeral,
    ];
    for (i, a) in all.iter().enumerate() {
        for (j, b) in all.iter().enumerate() {
            assert_eq!(i == j, mode_str(*a) == mode_str(*b));
        }
    }
}

#[test]
fn ack_status_wire_names() {
    assert_eq!(AckStatus::Received.as_str(), "received");
    assert_eq!(AckStatus::Accepted.as_str(), "accepted");
    assert_eq!(AckStatus::Persisted.as_str(), "persisted");
    assert_eq!(AckStatus::Delivered.as_str(), "delivered");
    assert_eq!(AckStatus::Processed.as_str(), "processed");
    assert_eq!(AckStatus::Rejected.as_str(), "rejected");
    assert_eq!(AckStatus::Expired.as_str(), "expired");
    assert_eq!(AckStatus::Duplicate.as_str(), "duplicate");
    assert_eq!(AckStatus::Failed.as_str(), "failed");
}
