use rift_client::ack::AckStatus;
use rift_client::backoff::Delay;
use rift_client::client::{command_result, CommandOutcome, OutgoingFrame, RiftClient};
use rift_client::error::ClientError;
use rift_client::mode::SubscribeMode;
use rift_client::options::{CommandOpts, PublishOpts, StateOpts};
use rift_client::reconnect::{ReconnectLoop, ReconnectPhase, ReconnectSettings};
use rifts::frame::Priority;
use serde_json::Value;

fn connected_client() -> RiftClient {
    let mut c = RiftClient::new("ws://localhost:9000".to_string());
    assert_eq!(c.connect(), Ok(()));
    c.handshake_complete("sess-1".to_string(), 4);
    c
}

fn frame_id_of(f: &OutgoingFrame) -> u64 {
    match f {
        OutgoingFrame::Subscribe { frame_id, .. }
        | OutgoingFrame::Unsubscribe { frame_id, .. }
        | OutgoingFrame::Event { frame_id, .. }
        | OutgoingFrame::Command { frame_id, .. }
        | OutgoingFrame::State { frame_id, .. }
        | OutgoingFrame::Datagram { frame_id, .. }
        | OutgoingFrame::Stream { frame_id, .. }
        | OutgoingFrame::Ack { frame_id, .. } => *frame_id,
    }
}

#[test]
fn new_client_is_not_connected() {
    let c = RiftClient::new("ws://host".to_string());
    assert_eq!(c.url(), "ws://host");
    assert!(!c.is_connected());
    assert!(!c.is_closed());
    assert_eq!(c.session_id(), None);
    assert_eq!(c.epoch(), 1);
    assert!(c.subscriptions().is_empty());
}

#[test]
fn unconnected_operations_are_refused() {
    let mut c = RiftClient::new("ws://host".to_string());
    assert_eq!(c.subscribe("t", SubscribeMode::Live, None).unwrap_err(), ClientError::NotConnected);
    assert!(c.subscriptions().is_empty());
    assert_eq!(c.unsubscribe("t").unwrap_err(), ClientError::NotConnected);
    assert_eq!(
        c.publish("t", "e", "s", Value::Null, None).unwrap_err(),
        ClientError::NotConnected
    );
    assert_eq!(c.command("t", "c", "s", Value::Null, None).unwrap_err(), ClientError::NotConnected);
    assert_eq!(
        c.publish_state("t", "k", Value::Null, None).unwrap_err(),
        ClientError::NotConnected
    );
    assert_eq!(
        c.send_datagram("t", "s", Value::Null, None).unwrap_err(),
        ClientError::NotConnected
    );
    assert_eq!(
        c.send_stream_segment("t", "id", 0, "s", Value::Null, false).unwrap_err(),
        ClientError::NotConnected
    );
    assert_eq!(c.ack("m", AckStatus::Received).unwrap_err(), ClientError::NotConnected);
    // Nothing was built: the next frame after connecting is number 1.
    c.connect().unwrap();
    c.handshake_complete("s".to_string(), 1);
    let f = c.unsubscribe("t").unwrap();
    assert_eq!(frame_id_of(&f), 1);
}

#[test]
fn connect_twice_is_refused() {
    let mut c = connected_client();
    assert!(c.is_connected());
    assert_eq!(c.session_id(), Some("sess-1".to_string()));
    assert_eq!(c.epoch(), 4);
    assert_eq!(c.connect(), Err(ClientError::AlreadyConnected));
    assert!(c.is_connected());
}

#[test]
fn close_forgets_connection_and_marks_closed() {
    let mut c = connected_client();
    assert!(c.close());
    assert!(!c.is_connected());
    assert!(c.is_closed());
    assert_eq!(c.epoch(), 1);
    assert_eq!(c.session_id(), None);
    assert_eq!(c.subscribe("t", SubscribeMode::Live, None).unwrap_err(), ClientError::NotConnected);
    assert!(!c.close());
    // Connecting again clears the closed mark.
    assert_eq!(c.connect(), Ok(()));
    assert!(!c.is_closed());
}

#[test]
fn subscribe_builds_frame_and_tracks_topic() {
    let mut c = connected_client();
    let f = c.subscribe("room/1", SubscribeMode::SnapshotThenLive, Some(42)).unwrap();
    match f {
        OutgoingFrame::Subscribe { frame_id, topic, mode, from_offset } => {
            assert_eq!(frame_id, 1);
            assert_eq!(topic, "room/1");
            assert_eq!(mode, "snapshot_then_live");
            assert_eq!(from_offset, Some(42));
        }
        other => panic!("unexpected frame {:?}", other),
    }
    assert_eq!(c.subscriptions().get("room/1"), Some(SubscribeMode::SnapshotThenLive));
    let f = c.unsubscribe("room/1").unwrap();
    match f {
        OutgoingFrame::Unsubscribe { frame_id, topic } => {
            assert_eq!(frame_id, 2);
            assert_eq!(topic, "room/1");
        }
        other => panic!("unexpected frame {:?}", other),
    }
    assert_eq!(c.subscriptions().get("room/1"), None);
}

#[test]
fn frame_ids_count_up() {
    let mut c = connected_client();
    let a = c.send_datagram("t", "s", Value::Null, None).unwrap();
    let b = c.ack("m", AckStatus::Delivered).unwrap();
    let d = c.subscribe("t", SubscribeMode::Live, None).unwrap();
    assert_eq!((frame_id_of(&a), frame_id_of(&b), frame_id_of(&d)), (1, 2, 3));
}

fn is_crockford(c: char) -> bool {
    "0123456789ABCDEFGHJKMNPQRSTVWXYZ".contains(c)
}

#[test]
fn publish_uses_fresh_ulid_and_options() {
    let mut c = connected_client();
    let opts = PublishOpts {
        dedupe_key: Some("d".to_string()),
        ordering_key: Some("o".to_string()),
        ttl_ms: Some(1000),
        priority: Some(Priority::High),
    };
    let f = c
        .publish("room/1", "chat.message", "chat.message@1.0", Value::Bool(true), Some(opts))
        .unwrap();
    let first_id = match f {
        OutgoingFrame::Event {
            frame_id,
            topic,
            event,
            message_id,
            schema,
            payload,
            dedupe_key,
            ordering_key,
            ttl_ms,
            priority,
        } => {
            assert_eq!(frame_id, 1);
            assert_eq!(topic, "room/1");
            assert_eq!(event, "chat.message");
            assert_eq!(schema, "chat.message@1.0");
            assert_eq!(payload, Value::Bool(true));
            assert_eq!(dedupe_key, Some("d".to_string()));
            assert_eq!(ordering_key, Some("o".to_string()));
            assert_eq!(ttl_ms, Some(1000));
            assert_eq!(priority, Some(Priority::High));
            assert_eq!(message_id.chars().count(), 26);
            assert!(message_id.chars().all(is_crockford));
            message_id
        }
        other => panic!("unexpected frame {:?}", other),
    };
    let f = c.publish("room/1", "e", "s", Value::Null, None).unwrap();
    match f {
        OutgoingFrame::Event { message_id, dedupe_key, ordering_key, ttl_ms, priority, .. } => {
            assert_ne!(message_id, first_id);
            assert_eq!(dedupe_key, None);
            assert_eq!(ordering_key, None);
            assert_eq!(ttl_ms, None);
            assert_eq!(priority, None);
        }
        other => panic!("unexpected frame {:?}", other),
    }
}

fn check_uuid_v7(id: &str) {
    let chars: Vec<char> = id.chars().collect();
    assert_eq!(chars.len(), 36);
    for (i, ch) in chars.iter().enumerate() {
        if i == 8 || i == 13 || i == 18 || i == 23 {
            assert_eq!(*ch, '-');
        } else {
            assert!(ch.is_ascii_digit() || ('a'..='f').contains(ch));
        }
    }
    assert_eq!(chars[14], '7');
    assert!("89ab".contains(chars[19]));
}

#[test]
fn command_defaults_timeout_to_5000() {
    let mut c = connected_client();
    let f = c.command("svc", "do", "do@1", Value::Null, None).unwrap();
    match f {
        OutgoingFrame::Command {
            frame_id,
            topic,
            command,
            correlation_id,
            timeout_ms,
            schema,
            idempotency_key,
            priority,
            ..
        } => {
            assert_eq!(frame_id, 1);
            assert_eq!(topic, "svc");
            assert_eq!(command, "do");
            assert_eq!(schema, "do@1");
            assert_eq!(timeout_ms, 5000);
            assert_eq!(idempotency_key, None);
            assert_eq!(priority, None);
            check_uuid_v7(&correlation_id);
        }
        other => panic!("unexpected frame {:?}", other),
    }
    let opts = CommandOpts {
        timeout_ms: Some(250),
        idempotency_key: Some("k".to_string()),
        priority: Some(Priority::Low),
    };
    assert_eq!(opts.effective_timeout_ms(), 250);
    assert_eq!(CommandOpts::default().effective_timeout_ms(), 5000);
    let f = c.command("svc", "do", "do@1", Value::Null, Some(opts)).unwrap();
    match f {
        OutgoingFrame::Command { timeout_ms, idempotency_key, priority, .. } => {
            assert_eq!(timeout_ms, 250);
            assert_eq!(idempotency_key, Some("k".to_string()));
            assert_eq!(priority, Some(Priority::Low));
        }
        other => panic!("unexpected frame {:?}", other),
    }
}

#[test]
fn command_outcomes() {
    let reply = rifts::message::command::Reply::ok("corr", Value::Null);
    let r = command_result(CommandOutcome::Replied(reply), 100).unwrap();
    assert_eq!(r.correlation_id, "corr");
    assert_eq!(command_result(CommandOutcome::ReplyDropped, 100).unwrap_err(), ClientError::NotConnected);
    assert_eq!(
        command_result(CommandOutcome::TimedOut, 1234).unwrap_err(),
        ClientError::CommandTimeout(1234)
    );
}

#[test]
fn state_datagram_stream_and_ack_frames() {
    let mut c = connected_client();
    let opts = StateOpts { name: Some("n".to_string()), ttl_ms: Some(9), subject: None };
    match c.publish_state("t", "cursor", Value::Null, Some(opts)).unwrap() {
        OutgoingFrame::State { frame_id, topic, state_key, name, ttl_ms, subject, .. } => {
            assert_eq!(frame_id, 1);
            assert_eq!(topic, "t");
            assert_eq!(state_key, "cursor");
            assert_eq!(name, Some("n".to_string()));
            assert_eq!(ttl_ms, Some(9));
            assert_eq!(subject, None);
        }
        other => panic!("unexpected frame {:?}", other),
    }
    match c.publish_state("t", "k", Value::Null, None).unwrap() {
        OutgoingFrame::State { name, ttl_ms, subject, .. } => {
            assert_eq!((name, ttl_ms, subject), (None, None, None));
        }
        other => panic!("unexpected frame {:?}", other),
    }
    match c.send_datagram("t", "mouse@1", Value::Null, Some("move")).unwrap() {
        OutgoingFrame::Datagram { frame_id, topic, schema, event, .. } => {
            assert_eq!(frame_id, 3);
            assert_eq!(topic, "t");
            assert_eq!(schema, "mouse@1");
            assert_eq!(event, Some("move".to_string()));
        }
        other => panic!("unexpected frame {:?}", other),
    }
    match c.send_stream_segment("t", "s-1", 7, "tok@1", Value::Null, true).unwrap() {
        OutgoingFrame::Stream { frame_id, topic, stream_id, seq, schema, final_segment, .. } => {
            assert_eq!(frame_id, 4);
            assert_eq!(topic, "t");
            assert_eq!(stream_id, "s-1");
            assert_eq!(seq, 7);
            assert_eq!(schema, "tok@1");
            assert!(final_segment);
        }
        other => panic!("unexpected frame {:?}", other),
    }
    match c.ack("msg-9", AckStatus::Processed).unwrap() {
        OutgoingFrame::Ack { frame_id, message_id, status } => {
            assert_eq!(frame_id, 5);
            assert_eq!(message_id, "msg-9");
            assert_eq!(status, "processed");
        }
        other => panic!("unexpected frame {:?}", other),
    }
}

fn settings(auto: bool) -> ReconnectSettings {
    ReconnectSettings {
        auto_reconnect: auto,
        reconnect_delay: Delay { secs: 1, nanos: 0 },
        max_reconnect_attempts: 10,
    }
}

#[test]
fn lost_connection_reconnects_only_when_open_and_enabled() {
    let base = Delay { secs: 1, nanos: 0 };
    let mut c = connected_client();
    let run = c.connection_lost(&settings(true), 7).unwrap();
    assert_eq!(
        run,
        ReconnectLoop {
            phase: ReconnectPhase::Idle,
            attempt: 0,
            max_attempts: 10,
            base_delay: base,
            epoch: 7
        }
    );
    let mut c = connected_client();
    assert_eq!(c.connection_lost(&settings(false), 7), None);
    let mut closed = connected_client();
    closed.close();
    assert_eq!(closed.connection_lost(&settings(true), 7), None);
}

#[test]
fn lost_connection_is_reported() {
    let mut c = connected_client();
    c.subscribe("room/1", SubscribeMode::Live, None).unwrap();
    assert_eq!(c.require_connected(), Ok(()));
    c.connection_lost(&settings(true), 4);
    assert!(!c.is_connected());
    assert_eq!(c.session_id(), None);
    assert_eq!(c.epoch(), 1);
    assert_eq!(c.require_connected(), Err(ClientError::NotConnected));
    assert_eq!(c.publish("t", "e", "s", Value::Null, None).unwrap_err(), ClientError::NotConnected);
    // Subscriptions survive, to be sent again on reconnect.
    assert_eq!(c.subscriptions().get("room/1"), Some(SubscribeMode::Live));
    // A new connect is allowed again.
    assert_eq!(c.connect(), Ok(()));
}

#[test]
fn reconnect_resumes_with_new_session() {
    let mut c = connected_client();
    c.connection_lost(&settings(true), 4);
    assert!(c.reconnected("sess-2".to_string(), 9));
    assert!(c.is_connected());
    assert_eq!(c.session_id(), Some("sess-2".to_string()));
    assert_eq!(c.epoch(), 9);
    assert!(c.subscribe("t", SubscribeMode::Live, None).is_ok());

    let mut closed = connected_client();
    closed.connection_lost(&settings(true), 4);
    closed.close();
    assert!(!closed.reconnected("sess-3".to_string(), 2));
    assert!(!closed.is_connected());
    assert_eq!(closed.session_id(), None);
}

#[test]
fn publish_and_command_with_given_ids() {
    let mut c = connected_client();
    match c
        .publish_with_message_id("t", "e", "s", Value::Null, None, "01ARZ3NDEKTSV4RRFFQ69G5FAV".to_string())
        .unwrap()
    {
        OutgoingFrame::Event { frame_id, message_id, .. } => {
            assert_eq!(frame_id, 1);
            assert_eq!(message_id, "01ARZ3NDEKTSV4RRFFQ69G5FAV");
        }
        other => panic!("unexpected frame {:?}", other),
    }
    match c
        .command_with_correlation_id("t", "c", "s", Value::Null, None, "corr-1".to_string())
        .unwrap()
    {
        OutgoingFrame::Command { frame_id, correlation_id, timeout_ms, .. } => {
            assert_eq!(frame_id, 2);
            assert_eq!(correlation_id, "corr-1");
            assert_eq!(timeout_ms, 5000);
        }
        other => panic!("unexpected frame {:?}", other),
    }
    let mut fresh = RiftClient::new("ws://x".to_string());
    assert_eq!(
        fresh.publish_with_message_id("t", "e", "s", Value::Null, None, "id".to_string()).unwrap_err(),
        ClientError::NotConnected
    );
    assert_eq!(
        fresh
            .command_with_correlation_id("t", "c", "s", Value::Null, None, "id".to_string())
            .unwrap_err(),
        ClientError::NotConnected
    );
}

#[test]
fn resubscribe_sends_each_tracked_topic_once() {
    let mut c = connected_client();
    c.subscribe("a", SubscribeMode::Live, Some(3)).unwrap();
    c.subscribe("b", SubscribeMode::Replay, None).unwrap();
    c.subscribe("a", SubscribeMode::Latest, None).unwrap();
    c.subscribe("c", SubscribeMode::Passive, None).unwrap();
    c.unsubscribe("c").unwrap();
    let frames = c.resubscribe_frames();
    assert_eq!(frames.len(), 2);
    let mut seen: Vec<(u64, String, &'static str, Option<i64>)> = frames
        .into_iter()
        .map(|f| match f {
            OutgoingFrame::Subscribe { frame_id, topic, mode, from_offset } => {
                (frame_id, topic, mode, from_offset)
            }
            other => panic!("unexpected frame {:?}", other),
        })
        .collect();
    let ids: Vec<u64> = seen.iter().map(|s| s.0).collect();
    assert_eq!(ids, vec![6, 7]);
    seen.sort_by(|x, y| x.1.cmp(&y.1));
    assert_eq!(seen[0].1, "a");
    assert_eq!(seen[0].2, "latest");
    assert_eq!(seen[0].3, None);
    assert_eq!(seen[1].1, "b");
    assert_eq!(seen[1].2, "replay");
    assert_eq!(c.allocate_frame_id(), 8);
}

#[test]
fn resubscribe_with_nothing_tracked() {
    let mut c = RiftClient::new("ws://x".to_string());
    assert!(c.resubscribe_frames().is_empty());
    assert_eq!(c.allocate_frame_id(), 1);
}
