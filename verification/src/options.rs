use vstd::prelude::*;

use rifts::frame::Priority;

verus! {

/// Options for publishing an event.
#[derive(Debug, Clone)]
pub struct PublishOpts {
    /// Optional deduplication key.
    pub dedupe_key: Option<String>,
    /// Optional ordering key for partition ordering.
    pub ordering_key: Option<String>,
    /// Time-to-live in milliseconds.
    pub ttl_ms: Option<u32>,
    /// Message priority.
    pub priority: Option<Priority>,
}

/// Options for sending a command.
#[derive(Debug, Clone)]
pub struct CommandOpts {
    /// Command timeout in milliseconds; 5000 when absent.
    pub timeout_ms: Option<u64>,
    /// Optional idempotency key.
    pub idempotency_key: Option<String>,
    /// Message priority.
    pub priority: Option<Priority>,
}

/// Options for publishing a state message.
#[derive(Debug, Clone)]
pub struct StateOpts {
    /// Optional state name.
    pub name: Option<String>,
    /// Time-to-live in milliseconds.
    pub ttl_ms: Option<u32>,
    /// Optional subject identifier.
    pub subject: Option<String>,
}

impl Default for PublishOpts {
    fn default() -> (opts: Self)
        ensures
            opts.dedupe_key is None,
            opts.ordering_key is None,
            opts.ttl_ms is None,
            opts.priority is None,
    {
        PublishOpts { dedupe_key: None, ordering_key: None, ttl_ms: None, priority: None }
    }
}

impl Default for CommandOpts {
    fn default() -> (opts: Self)
        ensures
            opts.timeout_ms is None,
            opts.idempotency_key is None,
            opts.priority is None,
    {
        CommandOpts { timeout_ms: None, idempotency_key: None, priority: None }
    }
}

impl Default for StateOpts {
    fn default() -> (opts: Self)
        ensures
            opts.name is None,
            opts.ttl_ms is None,
            opts.subject is None,
    {
        StateOpts { name: None, ttl_ms: None, subject: None }
    }
}

/// The timeout a command waits for its reply when none is given.
pub const DEFAULT_COMMAND_TIMEOUT_MS: u64 = 5000;

/// The timeout, in milliseconds, that a command with these options waits.
pub open spec fn command_timeout(opts: CommandOpts) -> u64 {
    match opts.timeout_ms {
        Some(t) => t,
        None => DEFAULT_COMMAND_TIMEOUT_MS,
    }
}

impl CommandOpts {
    /// The timeout in milliseconds: the one given, or 5000.
    pub fn effective_timeout_ms(&self) -> (t: u64)
        ensures
            t == command_timeout(*self),
            self.timeout_ms matches Some(given) ==> t == given,
            self.timeout_ms is None ==> t == 5000,
    {
        match self.timeout_ms {
            Some(t) => t,
            None => DEFAULT_COMMAND_TIMEOUT_MS,
        }
    }
}

/// A given timeout is used as given, whatever its size; with none given the
/// timeout is 5000 ms.
pub proof fn lemma_command_timeout_given(opts: CommandOpts, t: u64)
    ensures
        opts.timeout_ms == Some(t) ==> command_timeout(opts) == t,
        opts.timeout_ms is None ==> command_timeout(opts) == 5000,
{
}

} // verus!
