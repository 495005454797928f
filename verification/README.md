# rift-client

Client for the Rift Realtime Protocol, in two parts.

- `src/` — the verified library (Verus). It holds the client's state and
  every decision it makes, with contracts:
  - `subscriber` — the subscription tracker (topic → mode), kept so that
    subscriptions are sent again after a reconnect;
  - `client` — the connection state machine: which frame each operation
    builds, when an operation is refused, what a lost connection leads to,
    how a reconnect resumes the session, and which frames resubscribe;
  - `reconnect`, `backoff` — the reconnect run (bounded attempts, exponential
    waits capped at five times the base, epoch bumps) and its laws;
  - `mode`, `ack`, `options`, `ids`, `decimal`, `error`, `external` —
    wire names, options, fresh message/correlation ids, and shared types.
- `app/` — the async shell: WebSocket I/O, the handshake, timers, and the
  event channel, driving the library's state machines.

`tests/` holds the library's tests.
