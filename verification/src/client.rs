use vstd::prelude::*;

use rifts::frame::Priority;
use rifts::message::command::Reply;
use serde_json::Value;

use crate::ack::{ack_status_name, AckStatus};
use crate::error::ClientError;
use crate::ids::{
    is_ulid_text, is_uuid_v7_text, is_uuid_v7_value, new_correlation_id, new_message_id,
    ulid_text_of, uuid_text_of,
};
use crate::mode::{mode_name, mode_str, SubscribeMode};
use crate::options::{command_timeout, CommandOpts, PublishOpts, StateOpts};
use crate::reconnect::{
    should_reconnect, spec_should_reconnect, ReconnectLoop, ReconnectPhase, ReconnectSettings,
};
use crate::subscriber::{lemma_subscription_map_at, lists_topic, subscription_map, topics_distinct, SubscriptionTracker};

verus! {

/// A frame the client has decided to send, with everything that goes into it.
#[derive(Debug)]
pub enum OutgoingFrame {
    /// Subscribe to a topic.
    Subscribe { frame_id: u64, topic: String, mode: &'static str, from_offset: Option<i64> },
    /// Unsubscribe from a topic.
    Unsubscribe { frame_id: u64, topic: String },
    /// Publish an event.
    Event {
        frame_id: u64,
        topic: String,
        event: String,
        message_id: String,
        schema: String,
        payload: Value,
        dedupe_key: Option<String>,
        ordering_key: Option<String>,
        ttl_ms: Option<u32>,
        priority: Option<Priority>,
    },
    /// Send a command that expects a reply carrying `correlation_id`.
    Command {
        frame_id: u64,
        topic: String,
        command: String,
        correlation_id: String,
        timeout_ms: u64,
        schema: String,
        payload: Value,
        idempotency_key: Option<String>,
        priority: Option<Priority>,
    },
    /// Publish a state value.
    State {
        frame_id: u64,
        topic: String,
        state_key: String,
        value: Value,
        name: Option<String>,
        ttl_ms: Option<u32>,
        subject: Option<String>,
    },
    /// Send a datagram.
    Datagram {
        frame_id: u64,
        topic: String,
        schema: String,
        event: Option<String>,
        payload: Value,
    },
    /// Send one segment of a stream.
    Stream {
        frame_id: u64,
        topic: String,
        stream_id: String,
        seq: u64,
        schema: String,
        payload: Value,
        final_segment: bool,
    },
    /// Acknowledge a received message.
    Ack { frame_id: u64, message_id: String, status: &'static str },
}

/// How waiting for the reply to a command ended.
#[derive(Debug)]
pub enum CommandOutcome {
    /// The reply arrived.
    Replied(Reply),
    /// The reply channel closed without a reply (the connection went away).
    ReplyDropped,
    /// No reply arrived in time.
    TimedOut,
}

/// The established connection: its session id and epoch.
#[derive(Debug)]
pub struct Session {
    /// The session id the server assigned.
    pub session_id: String,
    /// The session epoch.
    pub epoch: u32,
}

/// What a client is, abstractly.
pub struct ClientView {
    /// The server URL.
    pub url: Seq<char>,
    /// The session id and epoch of the established connection, if any.
    pub session: Option<(Seq<char>, u32)>,
    /// The client was closed (which stops reconnecting).
    pub closed: bool,
    /// The subscriptions to send again after a reconnect.
    pub subscriptions: Map<Seq<char>, SubscribeMode>,
    /// The id of the last frame built.
    pub last_frame_id: u64,
}

impl ClientView {
    /// A connection is established.
    pub open spec fn is_connected(self) -> bool {
        self.session is Some
    }

    /// The same client after building one more frame.
    pub open spec fn after_frame(self) -> ClientView {
        ClientView { last_frame_id: next_frame_id(self.last_frame_id), ..self }
    }
}

/// The id of the frame built after the one with id `last`; ids count up
/// from 1 and wrap around.
pub open spec fn next_frame_id(last: u64) -> u64 {
    if last == u64::MAX {
        0
    } else {
        (last + 1) as u64
    }
}

/// The client after it was closed: marked closed, with no connection.
pub open spec fn closed_view(v: ClientView) -> ClientView {
    ClientView { closed: true, session: None, ..v }
}

/// The client after its connection was lost: no longer connected.
pub open spec fn lost_view(v: ClientView) -> ClientView {
    ClientView { session: None, ..v }
}

/// The client after a reconnect run established a connection with this
/// session id and epoch, and whether it takes the connection up: it does
/// unless it was closed.
pub open spec fn spec_reconnected(v: ClientView, session_id: Seq<char>, epoch: u32) -> (
    ClientView,
    bool,
) {
    if v.closed {
        (v, false)
    } else {
        (ClientView { session: Some((session_id, epoch)), ..v }, true)
    }
}

/// The id of the `k`-th frame built after the one with id `last`.
pub open spec fn frame_id_after(last: u64, k: nat) -> u64
    decreases k,
{
    if k == 0 {
        last
    } else {
        next_frame_id(frame_id_after(last, (k - 1) as nat))
    }
}

/// The topic a subscribe frame is for (empty for other frames).
pub open spec fn subscribe_topic(f: OutgoingFrame) -> Seq<char> {
    match f {
        OutgoingFrame::Subscribe { topic, .. } => topic@,
        _ => Seq::empty(),
    }
}

/// `frames` subscribes again, each exactly once, to every subscription of
/// `subscriptions`, in its mode and with no starting offset, under the frame
/// ids that follow `last_frame_id`.
pub open spec fn resubscribes(
    frames: Seq<OutgoingFrame>,
    subscriptions: Map<Seq<char>, SubscribeMode>,
    last_frame_id: u64,
) -> bool {
    &&& frames.len() == subscriptions.len()
    &&& forall|i: int|
        #![trigger frames[i]]
        0 <= i < frames.len() ==> (frames[i] matches OutgoingFrame::Subscribe {
            frame_id,
            topic,
            mode,
            from_offset,
        } && frame_id == frame_id_after(last_frame_id, (i + 1) as nat)
            && subscriptions.contains_key(topic@) && mode@ == mode_name(subscriptions[topic@])
            && from_offset is None)
    &&& forall|i: int, j: int|
        0 <= i < frames.len() && 0 <= j < frames.len() && i != j ==> subscribe_topic(
            #[trigger] frames[i],
        ) != subscribe_topic(#[trigger] frames[j])
    &&& forall|topic: Seq<char>|
        #[trigger] subscriptions.contains_key(topic) ==> exists|i: int|
            0 <= i < frames.len() && subscribe_topic(#[trigger] frames[i]) == topic
}

/// The text of an optional string argument.
pub open spec fn opt_str_view(o: Option<&str>) -> Option<Seq<char>> {
    match o {
        Some(s) => Some(s@),
        None => None,
    }
}

/// The text of an optional string.
pub open spec fn opt_string_view(o: Option<String>) -> Option<Seq<char>> {
    match o {
        Some(s) => Some(s@),
        None => None,
    }
}

/// The options a publish uses: those given, or none set.
pub open spec fn publish_opts_or_default(opts: Option<PublishOpts>) -> PublishOpts {
    match opts {
        Some(o) => o,
        None => PublishOpts { dedupe_key: None, ordering_key: None, ttl_ms: None, priority: None },
    }
}

/// The options a command uses: those given, or none set.
pub open spec fn command_opts_or_default(opts: Option<CommandOpts>) -> CommandOpts {
    match opts {
        Some(o) => o,
        None => CommandOpts { timeout_ms: None, idempotency_key: None, priority: None },
    }
}

/// The options a state publish uses: those given, or none set.
pub open spec fn state_opts_or_default(opts: Option<StateOpts>) -> StateOpts {
    match opts {
        Some(o) => o,
        None => StateOpts { name: None, ttl_ms: None, subject: None },
    }
}

/// What an operation that needs a connection gives when there is none: the
/// error `NotConnected`, with the client unchanged.
pub open spec fn refused_unconnected<T>(
    old_client: ClientView,
    new_client: ClientView,
    result: Result<T, ClientError>,
) -> bool {
    &&& result is Err <==> !old_client.is_connected()
    &&& result is Err ==> result == Err::<T, ClientError>(ClientError::NotConnected) && new_client
        == old_client
}

/// The result of waiting for a command's reply: the reply, `NotConnected`
/// when the reply channel closed, `CommandTimeout(timeout_ms)` on timeout.
pub open spec fn spec_command_result(outcome: CommandOutcome, timeout_ms: u64) -> Result<
    Reply,
    ClientError,
> {
    match outcome {
        CommandOutcome::Replied(reply) => Ok(reply),
        CommandOutcome::ReplyDropped => Err(ClientError::NotConnected),
        CommandOutcome::TimedOut => Err(ClientError::CommandTimeout(timeout_ms)),
    }
}

/// Turns the way waiting for a command's reply ended into the command's result.
pub fn command_result(outcome: CommandOutcome, timeout_ms: u64) -> (result: Result<
    Reply,
    ClientError,
>)
    ensures
        result == spec_command_result(outcome, timeout_ms),
{
    match outcome {
        CommandOutcome::Replied(reply) => Ok(reply),
        CommandOutcome::ReplyDropped => Err(ClientError::NotConnected),
        CommandOutcome::TimedOut => Err(ClientError::CommandTimeout(timeout_ms)),
    }
}

fn to_owned_opt(o: Option<&str>) -> (r: Option<String>)
    ensures
        opt_string_view(r) == opt_str_view(o),
{
    match o {
        Some(s) => Some(String::from_str(s)),
        None => None,
    }
}

/// The connection state of a Rift client and the decisions it makes: which
/// frames to send, when an operation is refused, and whether to reconnect.
/// Sending, receiving and waiting are left to the caller.
pub struct RiftClient {
    url: String,
    session: Option<Session>,
    closed: bool,
    subscriptions: SubscriptionTracker,
    last_frame_id: u64,
}

impl View for RiftClient {
    type V = ClientView;

    closed spec fn view(&self) -> ClientView {
        ClientView {
            url: self.url@,
            session: match self.session {
                Some(s) => Some((s.session_id@, s.epoch)),
                None => None,
            },
            closed: self.closed,
            subscriptions: self.subscriptions@,
            last_frame_id: self.last_frame_id,
        }
    }
}

impl RiftClient {
    /// Creates a client for the server at `url`; it does not connect yet.
    pub fn new(url: String) -> (client: Self)
        ensures
            client@ == (ClientView {
                url: url@,
                session: None,
                closed: false,
                subscriptions: Map::empty(),
                last_frame_id: 0,
            }),
    {
        RiftClient {
            url,
            session: None,
            closed: false,
            subscriptions: SubscriptionTracker::new(),
            last_frame_id: 0,
        }
    }

    /// The server URL.
    pub fn url(&self) -> (url: &str)
        ensures
            url@ == self@.url,
    {
        self.url.as_str()
    }

    /// Takes the next frame id, for a frame built by the caller (such as the
    /// handshake's hello).
    pub fn allocate_frame_id(&mut self) -> (id: u64)
        ensures
            id == next_frame_id(old(self)@.last_frame_id),
            final(self)@ == old(self)@.after_frame(),
    {
        if self.last_frame_id == u64::MAX {
            self.last_frame_id = 0;
        } else {
            self.last_frame_id = self.last_frame_id + 1;
        }
        self.last_frame_id
    }

    /// Succeeds exactly when a connection is established; fails with
    /// `NotConnected` otherwise. Changes nothing.
    pub fn require_connected(&self) -> (r: Result<(), ClientError>)
        ensures
            r is Ok <==> self@.is_connected(),
            r is Err ==> r == Err::<(), ClientError>(ClientError::NotConnected),
    {
        if self.session.is_none() {
            return Err(ClientError::NotConnected);
        }
        Ok(())
    }

    // ── Connection lifecycle ─────────────────────────────────────────────

    /// Decides whether a connection may be opened: refused with
    /// `AlreadyConnected` while one is established; otherwise the client is
    /// no longer closed and the caller opens the connection.
    pub fn connect(&mut self) -> (result: Result<(), ClientError>)
        ensures
            old(self)@.is_connected() ==> result == Err::<(), ClientError>(
                ClientError::AlreadyConnected,
            ) && final(self)@ == old(self)@,
            !old(self)@.is_connected() ==> result is Ok && final(self)@ == (ClientView {
                closed: false,
                ..old(self)@
            }),
    {
        if self.session.is_some() {
            return Err(ClientError::AlreadyConnected);
        }
        self.closed = false;
        Ok(())
    }

    /// Records that the handshake completed with this session id and epoch.
    pub fn handshake_complete(&mut self, session_id: String, epoch: u32)
        ensures
            final(self)@ == (ClientView { session: Some((session_id@, epoch)), ..old(self)@ }),
    {
        self.session = Some(Session { session_id, epoch });
    }

    /// Closes the client: marks it closed, which stops reconnecting, and
    /// forgets the connection. Returns whether there was one, which the
    /// caller then closes.
    pub fn close(&mut self) -> (had_connection: bool)
        ensures
            had_connection == old(self)@.is_connected(),
            final(self)@ == closed_view(old(self)@),
            final(self)@.closed,
            !final(self)@.is_connected(),
            final(self)@.subscriptions == old(self)@.subscriptions,
            final(self)@.url == old(self)@.url,
            final(self)@.last_frame_id == old(self)@.last_frame_id,
    {
        self.closed = true;
        let had_connection = self.session.is_some();
        self.session = None;
        had_connection
    }

    /// Whether a connection is established.
    pub fn is_connected(&self) -> (connected: bool)
        ensures
            connected == self@.is_connected(),
    {
        self.session.is_some()
    }

    /// Whether the client was closed.
    pub fn is_closed(&self) -> (closed: bool)
        ensures
            closed == self@.closed,
    {
        self.closed
    }

    /// The session id of the established connection, if any.
    pub fn session_id(&self) -> (id: Option<String>)
        ensures
            opt_string_view(id) == (match self@.session {
                Some(s) => Some(s.0),
                None => None::<Seq<char>>,
            }),
    {
        match &self.session {
            Some(s) => Some(s.session_id.clone()),
            None => None,
        }
    }

    /// The epoch of the established connection, or 1 when there is none.
    pub fn epoch(&self) -> (epoch: u32)
        ensures
            epoch == (match self@.session {
                Some(s) => s.1,
                None => 1u32,
            }),
    {
        match &self.session {
            Some(s) => s.epoch,
            None => 1,
        }
    }

    /// The subscriptions to send again after a reconnect.
    pub fn subscriptions(&self) -> (subscriptions: &SubscriptionTracker)
        ensures
            subscriptions@ == self@.subscriptions,
    {
        &self.subscriptions
    }

    /// Records that the connection was lost: the client is no longer
    /// connected (its subscriptions stay, to be sent again). Decides what
    /// follows: a reconnect run as `settings` describe, starting from `epoch`,
    /// when the client was not closed and automatic reconnection is on;
    /// nothing otherwise.
    pub fn connection_lost(&mut self, settings: &ReconnectSettings, epoch: u32) -> (run: Option<
        ReconnectLoop,
    >)
        requires
            settings.reconnect_delay.is_valid(),
        ensures
            final(self)@ == lost_view(old(self)@),
            run is Some <==> spec_should_reconnect(old(self)@.closed, settings.auto_reconnect),
            run matches Some(r) ==> r.wf() && r == (ReconnectLoop {
                phase: ReconnectPhase::Idle,
                attempt: 0,
                max_attempts: settings.max_reconnect_attempts,
                base_delay: settings.reconnect_delay,
                epoch,
            }),
    {
        self.session = None;
        if should_reconnect(self.closed, settings.auto_reconnect) {
            Some(
                ReconnectLoop::new(
                    settings.max_reconnect_attempts,
                    settings.reconnect_delay,
                    epoch,
                ),
            )
        } else {
            None
        }
    }

    /// Takes up a connection that a reconnect run established, with this
    /// session id and epoch, unless the client was closed meanwhile. Returns
    /// whether it was taken up; if not, the caller closes it.
    pub fn reconnected(&mut self, session_id: String, epoch: u32) -> (adopted: bool)
        ensures
            (final(self)@, adopted) == spec_reconnected(old(self)@, session_id@, epoch),
            adopted == !old(self)@.closed,
            final(self)@.closed == old(self)@.closed,
            final(self)@.subscriptions == old(self)@.subscriptions,
            final(self)@.url == old(self)@.url,
            final(self)@.last_frame_id == old(self)@.last_frame_id,
            adopted ==> final(self)@.session == Some((session_id@, epoch)),
            !adopted ==> final(self)@ == old(self)@,
    {
        if self.closed {
            false
        } else {
            self.session = Some(Session { session_id, epoch });
            true
        }
    }

    /// Builds the frames that subscribe again, after a reconnect, to every
    /// tracked subscription: one per topic, in its mode, with no starting
    /// offset.
    pub fn resubscribe_frames(&mut self) -> (frames: Vec<OutgoingFrame>)
        ensures
            resubscribes(frames@, old(self)@.subscriptions, old(self)@.last_frame_id),
            final(self)@ == (ClientView {
                last_frame_id: frame_id_after(old(self)@.last_frame_id, frames@.len()),
                ..old(self)@
            }),
    {
        let all = self.subscriptions.iter();
        let ghost subs = self@.subscriptions;
        let ghost last = self@.last_frame_id;
        let n = all.len();
        let mut frames: Vec<OutgoingFrame> = Vec::new();
        let mut i: usize = 0;
        while i < n
            invariant
                n == all@.len(),
                i <= n,
                topics_distinct(all@),
                subscription_map(all@) == subs,
                frames@.len() == i,
                self@ == (ClientView { last_frame_id: frame_id_after(last, i as nat), ..old(self)@ }),
                subs == old(self)@.subscriptions,
                last == old(self)@.last_frame_id,
                forall|k: int|
                    #![trigger frames@[k]]
                    0 <= k < i ==> (frames@[k] matches OutgoingFrame::Subscribe {
                        frame_id,
                        topic,
                        mode,
                        from_offset,
                    } && frame_id == frame_id_after(last, (k + 1) as nat) && topic@ == all@[k].0@
                        && mode@ == mode_name(all@[k].1) && from_offset is None),
            decreases n - i,
        {
            let frame_id = self.allocate_frame_id();
            let topic = all[i].0.clone();
            let mode = all[i].1;
            frames.push(OutgoingFrame::Subscribe { frame_id, topic, mode: mode_str(mode), from_offset: None });
            i = i + 1;
        }
        proof {
            crate::subscriber::lemma_subscription_map_len(all@);
            assert forall|k: int| 0 <= k < frames@.len() implies subscribe_topic(#[trigger] frames@[k]) == all@[k].0@ by {
            }
            assert forall|k: int|
                #![trigger frames@[k]]
                0 <= k < frames@.len() implies (frames@[k] matches OutgoingFrame::Subscribe {
                    frame_id,
                    topic,
                    mode,
                    from_offset,
                } && frame_id == frame_id_after(last, (k + 1) as nat)
                    && subs.contains_key(topic@) && mode@ == mode_name(subs[topic@])
                    && from_offset is None) by {
                lemma_subscription_map_at(all@, k);
            }
            assert forall|a: int, b: int|
                0 <= a < frames@.len() && 0 <= b < frames@.len() && a != b implies subscribe_topic(
                    #[trigger] frames@[a],
                ) != subscribe_topic(#[trigger] frames@[b]) by {
                assert(subscribe_topic(frames@[a]) == all@[a].0@);
                assert(subscribe_topic(frames@[b]) == all@[b].0@);
                assert(all@[a].0@ != all@[b].0@);
            }
            assert forall|topic: Seq<char>|
                #[trigger] subs.contains_key(topic) implies exists|k: int|
                    0 <= k < frames@.len() && subscribe_topic(#[trigger] frames@[k]) == topic by {
                assert(lists_topic(all@, topic));
                let k = choose|k: int| 0 <= k < all@.len() && (#[trigger] all@[k]).0@ == topic;
                assert(subscribe_topic(frames@[k]) == topic);
            }
        }
        frames
    }

    // ── Subscribe / Unsubscribe ──────────────────────────────────────────

    /// Subscribes to `topic` in `mode`: the subscription is recorded (to be
    /// sent again after a reconnect) and a subscribe frame is built.
    pub fn subscribe(&mut self, topic: &str, mode: SubscribeMode, from_offset: Option<i64>) -> (result:
        Result<OutgoingFrame, ClientError>)
        ensures
            refused_unconnected(old(self)@, final(self)@, result),
            result matches Ok(frame) ==> {
                &&& final(self)@ == (ClientView {
                    subscriptions: old(self)@.subscriptions.insert(topic@, mode),
                    ..old(self)@.after_frame()
                })
                &&& frame matches OutgoingFrame::Subscribe { frame_id, topic: t, mode: m, from_offset: o }
                    && frame_id == final(self)@.last_frame_id && t@ == topic@ && m@ == mode_name(
                    mode,
                ) && o == from_offset
            },
    {
        self.require_connected()?;
        self.subscriptions.add(topic, mode);
        let frame_id = self.allocate_frame_id();
        Ok(
            OutgoingFrame::Subscribe {
                frame_id,
                topic: String::from_str(topic),
                mode: mode_str(mode),
                from_offset,
            },
        )
    }

    /// Unsubscribes from `topic`: the subscription is forgotten and an
    /// unsubscribe frame is built.
    pub fn unsubscribe(&mut self, topic: &str) -> (result: Result<OutgoingFrame, ClientError>)
        ensures
            refused_unconnected(old(self)@, final(self)@, result),
            result matches Ok(frame) ==> {
                &&& final(self)@ == (ClientView {
                    subscriptions: old(self)@.subscriptions.remove(topic@),
                    ..old(self)@.after_frame()
                })
                &&& frame matches OutgoingFrame::Unsubscribe { frame_id, topic: t } && frame_id
                    == final(self)@.last_frame_id && t@ == topic@
            },
    {
        self.require_connected()?;
        self.subscriptions.remove(topic);
        let frame_id = self.allocate_frame_id();
        Ok(OutgoingFrame::Unsubscribe { frame_id, topic: String::from_str(topic) })
    }

    // ── Publish ──────────────────────────────────────────────────────────

    /// Publishes an event to `topic` under a fresh message id.
    pub fn publish(
        &mut self,
        topic: &str,
        event: &str,
        schema: &str,
        payload: Value,
        opts: Option<PublishOpts>,
    ) -> (result: Result<OutgoingFrame, ClientError>)
        ensures
            refused_unconnected(old(self)@, final(self)@, result),
            result matches Ok(frame) ==> {
                let o = publish_opts_or_default(opts);
                &&& final(self)@ == old(self)@.after_frame()
                &&& frame matches OutgoingFrame::Event {
                    frame_id,
                    topic: t,
                    event: e,
                    message_id,
                    schema: s,
                    payload: p,
                    dedupe_key,
                    ordering_key,
                    ttl_ms,
                    priority,
                } && frame_id == final(self)@.last_frame_id && t@ == topic@ && e@ == event@
                    && is_ulid_text(message_id@) && (exists|v: u128| message_id@ == ulid_text_of(v)) && s@ == schema@ && p == payload && dedupe_key
                    == o.dedupe_key && ordering_key == o.ordering_key && ttl_ms == o.ttl_ms
                    && priority == o.priority
            },
    {
        self.require_connected()?;
        let message_id = new_message_id();
        self.publish_with_message_id(topic, event, schema, payload, opts, message_id)
    }

    /// Publishes an event to `topic` under the message id `message_id`.
    pub fn publish_with_message_id(
        &mut self,
        topic: &str,
        event: &str,
        schema: &str,
        payload: Value,
        opts: Option<PublishOpts>,
        message_id: String,
    ) -> (result: Result<OutgoingFrame, ClientError>)
        ensures
            refused_unconnected(old(self)@, final(self)@, result),
            result matches Ok(frame) ==> {
                let o = publish_opts_or_default(opts);
                &&& final(self)@ == old(self)@.after_frame()
                &&& frame matches OutgoingFrame::Event {
                    frame_id,
                    topic: t,
                    event: e,
                    message_id: m,
                    schema: s,
                    payload: p,
                    dedupe_key,
                    ordering_key,
                    ttl_ms,
                    priority,
                } && frame_id == final(self)@.last_frame_id && t@ == topic@ && e@ == event@
                    && m@ == message_id@ && s@ == schema@ && p == payload && dedupe_key
                    == o.dedupe_key && ordering_key == o.ordering_key && ttl_ms == o.ttl_ms
                    && priority == o.priority
            },
    {
        self.require_connected()?;
        let opts = match opts {
            Some(o) => o,
            None => PublishOpts::default(),
        };
        let frame_id = self.allocate_frame_id();
        Ok(
            OutgoingFrame::Event {
                frame_id,
                topic: String::from_str(topic),
                event: String::from_str(event),
                message_id,
                schema: String::from_str(schema),
                payload,
                dedupe_key: opts.dedupe_key,
                ordering_key: opts.ordering_key,
                ttl_ms: opts.ttl_ms,
                priority: opts.priority,
            },
        )
    }

    /// Sends a command under a fresh correlation id; the caller waits for the
    /// reply for `timeout_ms` (5000 unless the options say otherwise).
    pub fn command(
        &mut self,
        topic: &str,
        cmd: &str,
        schema: &str,
        payload: Value,
        opts: Option<CommandOpts>,
    ) -> (result: Result<OutgoingFrame, ClientError>)
        ensures
            refused_unconnected(old(self)@, final(self)@, result),
            result matches Ok(frame) ==> {
                let o = command_opts_or_default(opts);
                &&& final(self)@ == old(self)@.after_frame()
                &&& frame matches OutgoingFrame::Command {
                    frame_id,
                    topic: t,
                    command: c,
                    correlation_id,
                    timeout_ms,
                    schema: s,
                    payload: p,
                    idempotency_key,
                    priority,
                } && frame_id == final(self)@.last_frame_id && t@ == topic@ && c@ == cmd@
                    && is_uuid_v7_text(correlation_id@) && (exists|v: u128| is_uuid_v7_value(v) && correlation_id@ == uuid_text_of(v)) && timeout_ms == command_timeout(o) && s@
                    == schema@ && p == payload && idempotency_key == o.idempotency_key && priority
                    == o.priority
            },
    {
        self.require_connected()?;
        let correlation_id = new_correlation_id();
        self.command_with_correlation_id(topic, cmd, schema, payload, opts, correlation_id)
    }

    /// Sends a command under the correlation id `correlation_id`; the caller
    /// waits for the reply for `timeout_ms` (5000 unless the options say
    /// otherwise).
    pub fn command_with_correlation_id(
        &mut self,
        topic: &str,
        cmd: &str,
        schema: &str,
        payload: Value,
        opts: Option<CommandOpts>,
        correlation_id: String,
    ) -> (result: Result<OutgoingFrame, ClientError>)
        ensures
            refused_unconnected(old(self)@, final(self)@, result),
            result matches Ok(frame) ==> {
                let o = command_opts_or_default(opts);
                &&& final(self)@ == old(self)@.after_frame()
                &&& frame matches OutgoingFrame::Command {
                    frame_id,
                    topic: t,
                    command: c,
                    correlation_id: id,
                    timeout_ms,
                    schema: s,
                    payload: p,
                    idempotency_key,
                    priority,
                } && frame_id == final(self)@.last_frame_id && t@ == topic@ && c@ == cmd@
                    && id@ == correlation_id@ && timeout_ms == command_timeout(o) && s@
                    == schema@ && p == payload && idempotency_key == o.idempotency_key && priority
                    == o.priority
            },
    {
        self.require_connected()?;
        let opts = match opts {
            Some(o) => o,
            None => CommandOpts::default(),
        };
        let timeout_ms = opts.effective_timeout_ms();
        let frame_id = self.allocate_frame_id();
        Ok(
            OutgoingFrame::Command {
                frame_id,
                topic: String::from_str(topic),
                command: String::from_str(cmd),
                correlation_id,
                timeout_ms,
                schema: String::from_str(schema),
                payload,
                idempotency_key: opts.idempotency_key,
                priority: opts.priority,
            },
        )
    }

    /// Publishes the state value of `state_key` on `topic`.
    pub fn publish_state(
        &mut self,
        topic: &str,
        state_key: &str,
        value: Value,
        opts: Option<StateOpts>,
    ) -> (result: Result<OutgoingFrame, ClientError>)
        ensures
            refused_unconnected(old(self)@, final(self)@, result),
            result matches Ok(frame) ==> {
                let o = state_opts_or_default(opts);
                &&& final(self)@ == old(self)@.after_frame()
                &&& frame matches OutgoingFrame::State {
                    frame_id,
                    topic: t,
                    state_key: k,
                    value: v,
                    name,
                    ttl_ms,
                    subject,
                } && frame_id == final(self)@.last_frame_id && t@ == topic@ && k@ == state_key@
                    && v == value && name == o.name && ttl_ms == o.ttl_ms && subject == o.subject
            },
    {
        self.require_connected()?;
        let opts = match opts {
            Some(o) => o,
            None => StateOpts::default(),
        };
        let frame_id = self.allocate_frame_id();
        Ok(
            OutgoingFrame::State {
                frame_id,
                topic: String::from_str(topic),
                state_key: String::from_str(state_key),
                value,
                name: opts.name,
                ttl_ms: opts.ttl_ms,
                subject: opts.subject,
            },
        )
    }

    /// Sends a datagram to `topic`.
    pub fn send_datagram(
        &mut self,
        topic: &str,
        schema: &str,
        payload: Value,
        event: Option<&str>,
    ) -> (result: Result<OutgoingFrame, ClientError>)
        ensures
            refused_unconnected(old(self)@, final(self)@, result),
            result matches Ok(frame) ==> {
                &&& final(self)@ == old(self)@.after_frame()
                &&& frame matches OutgoingFrame::Datagram {
                    frame_id,
                    topic: t,
                    schema: s,
                    event: e,
                    payload: p,
                } && frame_id == final(self)@.last_frame_id && t@ == topic@ && s@ == schema@
                    && opt_string_view(e) == opt_str_view(event) && p == payload
            },
    {
        self.require_connected()?;
        let frame_id = self.allocate_frame_id();
        Ok(
            OutgoingFrame::Datagram {
                frame_id,
                topic: String::from_str(topic),
                schema: String::from_str(schema),
                event: to_owned_opt(event),
                payload,
            },
        )
    }

    /// Sends segment `seq` of stream `stream_id` on `topic`.
    pub fn send_stream_segment(
        &mut self,
        topic: &str,
        stream_id: &str,
        seq: u64,
        schema: &str,
        payload: Value,
        final_segment: bool,
    ) -> (result: Result<OutgoingFrame, ClientError>)
        ensures
            refused_unconnected(old(self)@, final(self)@, result),
            result matches Ok(frame) ==> {
                &&& final(self)@ == old(self)@.after_frame()
                &&& frame matches OutgoingFrame::Stream {
                    frame_id,
                    topic: t,
                    stream_id: id,
                    seq: q,
                    schema: s,
                    payload: p,
                    final_segment: f,
                } && frame_id == final(self)@.last_frame_id && t@ == topic@ && id@ == stream_id@
                    && q == seq && s@ == schema@ && p == payload && f == final_segment
            },
    {
        self.require_connected()?;
        let frame_id = self.allocate_frame_id();
        Ok(
            OutgoingFrame::Stream {
                frame_id,
                topic: String::from_str(topic),
                stream_id: String::from_str(stream_id),
                seq,
                schema: String::from_str(schema),
                payload,
                final_segment,
            },
        )
    }

    // ── Ack ──────────────────────────────────────────────────────────────

    /// Acknowledges the message `message_id` with `status`.
    pub fn ack(&mut self, message_id: &str, status: AckStatus) -> (result: Result<
        OutgoingFrame,
        ClientError,
    >)
        ensures
            refused_unconnected(old(self)@, final(self)@, result),
            result matches Ok(frame) ==> {
                &&& final(self)@ == old(self)@.after_frame()
                &&& frame matches OutgoingFrame::Ack { frame_id, message_id: m, status: s }
                    && frame_id == final(self)@.last_frame_id && m@ == message_id@ && s@
                    == ack_status_name(status)
            },
    {
        self.require_connected()?;
        let frame_id = self.allocate_frame_id();
        Ok(
            OutgoingFrame::Ack {
                frame_id,
                message_id: String::from_str(message_id),
                status: status.as_str(),
            },
        )
    }
}

// ── Laws ────────────────────────────────────────────────────────────────

/// A closed client is not connected, so every operation that needs a
/// connection is refused, and a lost connection does not start a reconnect run.
pub proof fn lemma_closed_client_stays_down(v: ClientView, auto_reconnect: bool)
    ensures
        !closed_view(v).is_connected(),
        !spec_should_reconnect(closed_view(v).closed, auto_reconnect),
{
}

/// Frame ids count up by one, wrapping around after `u64::MAX`.
pub proof fn lemma_frame_id_after(last: u64, k: nat)
    ensures
        frame_id_after(last, k) as int == (last as int + k) % 0x1_0000_0000_0000_0000,
    decreases k,
{
    if k > 0 {
        lemma_frame_id_after(last, (k - 1) as nat);
        let prev = frame_id_after(last, (k - 1) as nat) as int;
        let m: int = 0x1_0000_0000_0000_0000;
        let x = last as int + k - 1;
        assert(prev == x % m);
        assert((x + 1) % m == if x % m == m - 1 { 0 } else { x % m + 1 }) by (nonlinear_arith)
            requires
                m == 0x1_0000_0000_0000_0000,
                x >= 0,
        ;
    }
}

/// Any 2^64 frames built one after the other carry pairwise distinct ids.
pub proof fn lemma_frame_ids_distinct(last: u64, i: nat, j: nat)
    requires
        1 <= i < j <= 0x1_0000_0000_0000_0000,
    ensures
        frame_id_after(last, i) != frame_id_after(last, j),
{
    lemma_frame_id_after(last, i);
    lemma_frame_id_after(last, j);
    let m: int = 0x1_0000_0000_0000_0000;
    let a = last as int + i;
    let b = last as int + j;
    assert(a % m != b % m) by (nonlinear_arith)
        requires
            m == 0x1_0000_0000_0000_0000,
            0 <= a < b,
            b - a < m,
    ;
}

/// A lost connection is reported as lost: the client is not connected (so a
/// new `connect` is allowed and operations are refused until then), and it
/// keeps its subscriptions and its closed mark.
pub proof fn lemma_lost_connection_is_reported(v: ClientView)
    ensures
        !lost_view(v).is_connected(),
        lost_view(v).subscriptions == v.subscriptions,
        lost_view(v).closed == v.closed,
{
}

/// After a lost connection, a reconnect that succeeds with session id `s` and
/// epoch `e` leaves the client connected on that session and epoch, with the
/// same subscriptions, unless the client was closed, in which case it stays
/// down.
pub proof fn lemma_reconnect_resumes_session(v: ClientView, s: Seq<char>, e: u32)
    ensures
        !v.closed ==> spec_reconnected(lost_view(v), s, e).1 && spec_reconnected(
            lost_view(v),
            s,
            e,
        ).0.session == Some((s, e)) && spec_reconnected(lost_view(v), s, e).0.subscriptions
            == v.subscriptions,
        v.closed ==> !spec_reconnected(lost_view(v), s, e).1 && !spec_reconnected(
            lost_view(v),
            s,
            e,
        ).0.is_connected(),
{
}

/// Closing marks the client closed and drops its connection, and nothing
/// else: the tracked subscriptions stay (to be sent again on the next
/// connect), as do the URL and the frame counter.
pub proof fn lemma_close_keeps_subscriptions(v: ClientView)
    ensures
        closed_view(v).closed,
        !closed_view(v).is_connected(),
        closed_view(v).subscriptions == v.subscriptions,
        closed_view(v).url == v.url,
        closed_view(v).last_frame_id == v.last_frame_id,
{
}

/// Taking up a reconnected connection changes only the session: the closed
/// mark, subscriptions, URL and frame counter stay. So on a client that was
/// not closed, a later lost connection starts a reconnect run again when
/// automatic reconnection is on.
pub proof fn lemma_reconnected_changes_only_session(
    v: ClientView,
    s: Seq<char>,
    e: u32,
    auto_reconnect: bool,
)
    ensures
        spec_reconnected(v, s, e).1 == !v.closed,
        spec_reconnected(v, s, e).0.closed == v.closed,
        spec_reconnected(v, s, e).0.subscriptions == v.subscriptions,
        spec_reconnected(v, s, e).0.url == v.url,
        spec_reconnected(v, s, e).0.last_frame_id == v.last_frame_id,
        !v.closed ==> spec_reconnected(v, s, e).0.session == Some((s, e)),
        v.closed ==> spec_reconnected(v, s, e).0 == v,
        spec_should_reconnect(spec_reconnected(lost_view(v), s, e).0.closed, auto_reconnect) == (
        !v.closed && auto_reconnect),
{
}

/// A command waits for the timeout it is given, whatever its size; with no
/// timeout given it waits 5000 ms.
pub proof fn lemma_command_timeout_as_given(opts: Option<CommandOpts>, t: u64)
    ensures
        opts matches Some(o) && o.timeout_ms == Some(t) ==> command_timeout(
            command_opts_or_default(opts),
        ) == t,
        (opts is None || (opts matches Some(o) && o.timeout_ms is None)) ==> command_timeout(
            command_opts_or_default(opts),
        ) == 5000,
{
}

/// Options given to an operation are used unchanged; with none given, no
/// option is set.
pub proof fn lemma_given_options_are_used(p: PublishOpts, c: CommandOpts, s: StateOpts)
    ensures
        publish_opts_or_default(Some(p)) == p,
        command_opts_or_default(Some(c)) == c,
        state_opts_or_default(Some(s)) == s,
        publish_opts_or_default(None).dedupe_key is None,
        publish_opts_or_default(None).ordering_key is None,
        publish_opts_or_default(None).ttl_ms is None,
        publish_opts_or_default(None).priority is None,
        command_opts_or_default(None).timeout_ms is None,
        command_opts_or_default(None).idempotency_key is None,
        command_opts_or_default(None).priority is None,
        state_opts_or_default(None).name is None,
        state_opts_or_default(None).ttl_ms is None,
        state_opts_or_default(None).subject is None,
{
}

/// Waiting for a command ends in its reply when one arrived, in
/// `NotConnected` when the reply channel closed, and in `CommandTimeout`
/// carrying the waited time otherwise.
pub proof fn lemma_command_result_cases(outcome: CommandOutcome, timeout_ms: u64)
    ensures
        outcome matches CommandOutcome::Replied(r) ==> spec_command_result(outcome, timeout_ms)
            == Ok::<Reply, ClientError>(r),
        outcome is ReplyDropped ==> spec_command_result(outcome, timeout_ms) == Err::<
            Reply,
            ClientError,
        >(ClientError::NotConnected),
        outcome is TimedOut ==> spec_command_result(outcome, timeout_ms) == Err::<
            Reply,
            ClientError,
        >(ClientError::CommandTimeout(timeout_ms)),
{
}

} // verus!
