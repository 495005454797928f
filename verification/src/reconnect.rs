use vstd::prelude::*;
use vstd::string::StringExecFns;

use crate::backoff::{
    backoff_delay, backoff_fits, backoff_nanos, delay_of_nanos, Delay,
};
use crate::decimal::{decimal, push_decimal};

verus! {

/// Where a reconnect run stands.
#[derive(Debug, Clone, Copy, PartialEq, Eq, Structural)]
pub enum ReconnectPhase {
    /// Not started.
    Idle,
    /// Waiting before the current attempt.
    Sleeping,
    /// The current attempt is connecting.
    Connecting,
    /// An attempt connected; the run is over.
    Reconnected,
    /// The client was closed; the run is over.
    Stopped,
    /// Every attempt failed; the run is over.
    GaveUp,
}

/// What the driver of a reconnect run observed.
#[derive(Debug, Clone, Copy, PartialEq, Eq, Structural)]
pub enum ReconnectEvent {
    /// The run starts; `closed` tells whether the client has been closed.
    Begin { closed: bool },
    /// The wait before an attempt ended.
    Woke { closed: bool },
    /// The attempt failed to connect.
    ConnectFailed { closed: bool },
    /// The attempt connected.
    ConnectSucceeded,
}

/// What the driver of a reconnect run must do next.
#[derive(Debug, Clone, Copy, PartialEq, Eq, Structural)]
pub enum ReconnectAction {
    /// Announce attempt `attempt`, then wait for `delay`.
    Sleep { attempt: u32, delay: Delay },
    /// Connect with session epoch `epoch` (attempt `attempt`).
    Connect { attempt: u32, epoch: u32 },
    /// The connection is back; nothing more to do.
    Reconnected,
    /// The client was closed; nothing more to do.
    Stopped,
    /// Report that all `max_attempts` attempts failed.
    GiveUp { max_attempts: u32 },
    /// The event does not apply in this phase; nothing to do.
    Wait,
}

/// The state of a reconnect run: attempts are numbered from 1 up to
/// `max_attempts`, each waits an exponentially growing, capped delay, and
/// each bumps the epoch.
#[derive(Debug, Clone, Copy, PartialEq, Eq, Structural)]
pub struct ReconnectLoop {
    /// Where the run stands.
    pub phase: ReconnectPhase,
    /// The number of the current (or last) attempt; 0 before the first.
    pub attempt: u32,
    /// The number of attempts after which the run gives up.
    pub max_attempts: u32,
    /// The wait before the first attempt.
    pub base_delay: Delay,
    /// The session epoch of the last attempt (the configured one before).
    pub epoch: u32,
}

impl ReconnectLoop {
    /// The run is consistent.
    pub open spec fn wf(self) -> bool {
        &&& self.attempt <= self.max_attempts
        &&& self.base_delay.is_valid()
        &&& (self.phase == ReconnectPhase::Idle ==> self.attempt == 0)
        &&& (self.phase == ReconnectPhase::Sleeping || self.phase == ReconnectPhase::Connecting
            ==> self.attempt >= 1)
    }

    /// The run is over.
    pub open spec fn is_finished(self) -> bool {
        self.phase == ReconnectPhase::Reconnected || self.phase == ReconnectPhase::Stopped
            || self.phase == ReconnectPhase::GaveUp
    }
}

/// Start the next attempt, or stop, or give up.
pub open spec fn spec_advance(s: ReconnectLoop, closed: bool) -> (ReconnectLoop, ReconnectAction) {
    if s.attempt >= s.max_attempts {
        (
            ReconnectLoop { phase: ReconnectPhase::GaveUp, ..s },
            ReconnectAction::GiveUp { max_attempts: s.max_attempts },
        )
    } else if closed {
        (ReconnectLoop { phase: ReconnectPhase::Stopped, ..s }, ReconnectAction::Stopped)
    } else {
        let a = (s.attempt + 1) as u32;
        (
            ReconnectLoop { phase: ReconnectPhase::Sleeping, attempt: a, ..s },
            ReconnectAction::Sleep {
                attempt: a,
                delay: delay_of_nanos(backoff_nanos(s.base_delay, a)),
            },
        )
    }
}

/// One step of a reconnect run: the next state and what to do.
pub open spec fn spec_step(s: ReconnectLoop, e: ReconnectEvent) -> (ReconnectLoop, ReconnectAction) {
    match (s.phase, e) {
        (ReconnectPhase::Idle, ReconnectEvent::Begin { closed }) => spec_advance(s, closed),
        (ReconnectPhase::Connecting, ReconnectEvent::ConnectFailed { closed }) => spec_advance(
            s,
            closed,
        ),
        (ReconnectPhase::Sleeping, ReconnectEvent::Woke { closed }) => {
            if closed {
                (ReconnectLoop { phase: ReconnectPhase::Stopped, ..s }, ReconnectAction::Stopped)
            } else {
                let epoch = (s.epoch + 1) as u32;
                (
                    ReconnectLoop { phase: ReconnectPhase::Connecting, epoch, ..s },
                    ReconnectAction::Connect { attempt: s.attempt, epoch },
                )
            }
        },
        (ReconnectPhase::Connecting, ReconnectEvent::ConnectSucceeded) => (
            ReconnectLoop { phase: ReconnectPhase::Reconnected, ..s },
            ReconnectAction::Reconnected,
        ),
        _ => (s, ReconnectAction::Wait),
    }
}

/// The step can be taken without overflow: the epoch can still grow when
/// an attempt connects, and the wait before the next attempt is representable.
pub open spec fn step_defined(s: ReconnectLoop, e: ReconnectEvent) -> bool {
    &&& (s.phase == ReconnectPhase::Sleeping && e == (ReconnectEvent::Woke { closed: false })
        ==> s.epoch < u32::MAX)
    &&& ((s.phase == ReconnectPhase::Idle && e == (ReconnectEvent::Begin { closed: false })) || (
    s.phase == ReconnectPhase::Connecting && e == (ReconnectEvent::ConnectFailed { closed: false }))
        ==> s.attempt >= s.max_attempts || backoff_fits(s.base_delay, (s.attempt + 1) as u32))
}

impl ReconnectLoop {
    /// A run that has not started, giving up after `max_attempts` attempts,
    /// waiting `base_delay` times `2^(attempt - 1)` (at most five times) before
    /// each, starting from session epoch `epoch`.
    pub fn new(max_attempts: u32, base_delay: Delay, epoch: u32) -> (run: Self)
        requires
            base_delay.is_valid(),
        ensures
            run.wf(),
            run == (ReconnectLoop {
                phase: ReconnectPhase::Idle,
                attempt: 0,
                max_attempts,
                base_delay,
                epoch,
            }),
    {
        ReconnectLoop { phase: ReconnectPhase::Idle, attempt: 0, max_attempts, base_delay, epoch }
    }

    /// Takes one step of the run on `event`, and says what to do next.
    pub fn step(&mut self, event: ReconnectEvent) -> (action: ReconnectAction)
        requires
            old(self).wf(),
            step_defined(*old(self), event),
        ensures
            final(self).wf(),
            (*final(self), action) == spec_step(*old(self), event),
    {
        match (self.phase, event) {
            (ReconnectPhase::Idle, ReconnectEvent::Begin { closed }) => self.advance(closed),
            (ReconnectPhase::Connecting, ReconnectEvent::ConnectFailed { closed }) => self.advance(
                closed,
            ),
            (ReconnectPhase::Sleeping, ReconnectEvent::Woke { closed }) => {
                if closed {
                    self.phase = ReconnectPhase::Stopped;
                    ReconnectAction::Stopped
                } else {
                    self.epoch = self.epoch + 1;
                    self.phase = ReconnectPhase::Connecting;
                    ReconnectAction::Connect { attempt: self.attempt, epoch: self.epoch }
                }
            },
            (ReconnectPhase::Connecting, ReconnectEvent::ConnectSucceeded) => {
                self.phase = ReconnectPhase::Reconnected;
                ReconnectAction::Reconnected
            },
            _ => ReconnectAction::Wait,
        }
    }

    fn advance(&mut self, closed: bool) -> (action: ReconnectAction)
        requires
            old(self).wf(),
            old(self).phase == ReconnectPhase::Idle || old(self).phase
                == ReconnectPhase::Connecting,
            !closed ==> old(self).attempt >= old(self).max_attempts || backoff_fits(
                old(self).base_delay,
                (old(self).attempt + 1) as u32,
            ),
        ensures
            final(self).wf(),
            (*final(self), action) == spec_advance(*old(self), closed),
    {
        if self.attempt >= self.max_attempts {
            self.phase = ReconnectPhase::GaveUp;
            ReconnectAction::GiveUp { max_attempts: self.max_attempts }
        } else if closed {
            self.phase = ReconnectPhase::Stopped;
            ReconnectAction::Stopped
        } else {
            self.attempt = self.attempt + 1;
            self.phase = ReconnectPhase::Sleeping;
            let delay = backoff_delay(self.base_delay, self.attempt);
            ReconnectAction::Sleep { attempt: self.attempt, delay }
        }
    }
}

/// How a client reconnects after losing its connection.
#[derive(Debug, Clone, Copy, PartialEq, Eq, Structural)]
pub struct ReconnectSettings {
    /// Reconnect automatically after a lost connection.
    pub auto_reconnect: bool,
    /// The wait before the first attempt.
    pub reconnect_delay: Delay,
    /// Attempts before giving up.
    pub max_reconnect_attempts: u32,
}

impl Default for ReconnectSettings {
    /// Reconnect automatically, waiting one second before the first of at most
    /// ten attempts.
    fn default() -> (settings: Self)
        ensures
            settings.auto_reconnect,
            settings.reconnect_delay == (Delay { secs: 1, nanos: 0 }),
            settings.max_reconnect_attempts == 10,
    {
        ReconnectSettings {
            auto_reconnect: true,
            reconnect_delay: Delay { secs: 1, nanos: 0 },
            max_reconnect_attempts: 10,
        }
    }
}

/// The report made when every reconnect attempt failed.
pub open spec fn give_up_text(max_attempts: u32) -> Seq<char> {
    "max reconnect attempts ("@ + decimal(max_attempts as nat) + ") exceeded"@
}

/// Builds the report made when all `max_attempts` reconnect attempts failed.
pub fn give_up_message(max_attempts: u32) -> (message: String)
    ensures
        message@ == give_up_text(max_attempts),
{
    let mut message = String::from_str("max reconnect attempts (");
    push_decimal(&mut message, max_attempts);
    message.append(") exceeded");
    message
}

/// Whether a lost connection is followed by a reconnect run: only when the
/// client was not closed and automatic reconnection is on.
pub open spec fn spec_should_reconnect(closed: bool, auto_reconnect: bool) -> bool {
    !closed && auto_reconnect
}

/// Decides whether a lost connection is followed by a reconnect run.
pub fn should_reconnect(closed: bool, auto_reconnect: bool) -> (reconnect: bool)
    ensures
        reconnect == spec_should_reconnect(closed, auto_reconnect),
{
    !closed && auto_reconnect
}

/// The close code reported when the connection is lost.
pub const CONNECTION_LOST_CODE: u16 = 1006;

/// The reason reported when the connection is lost.
pub fn connection_lost_reason() -> (reason: &'static str)
    ensures
        reason@ == "connection lost"@,
{
    "connection lost"
}

// ── Laws ────────────────────────────────────────────────────────────────

/// A step keeps a run consistent.
pub proof fn lemma_step_keeps_wf(s: ReconnectLoop, e: ReconnectEvent)
    requires
        s.wf(),
        step_defined(s, e),
    ensures
        spec_step(s, e).0.wf(),
{
}

/// Once a run is over, every event leaves it as it is and asks for nothing.
pub proof fn lemma_finished_run_stays_finished(s: ReconnectLoop, e: ReconnectEvent)
    requires
        s.is_finished(),
    ensures
        spec_step(s, e) == (s, ReconnectAction::Wait),
{
}

/// When the driver reports that the client was closed, the run never waits
/// for or makes another attempt.
pub proof fn lemma_closed_client_never_reconnects(s: ReconnectLoop, e: ReconnectEvent)
    requires
        e == (ReconnectEvent::Begin { closed: true }) || e == (ReconnectEvent::Woke {
            closed: true,
        }) || e == (ReconnectEvent::ConnectFailed { closed: true }),
    ensures
        !(spec_step(s, e).1 is Sleep),
        !(spec_step(s, e).1 is Connect),
{
}

/// An attempt is announced with the wait that its number gives, and it
/// connects with the epoch one above the previous one.
pub proof fn lemma_attempts_count_up(s: ReconnectLoop, e: ReconnectEvent)
    requires
        s.wf(),
        step_defined(s, e),
    ensures
        spec_step(s, e).1 matches ReconnectAction::Sleep { attempt, delay } ==> attempt == s.attempt
            + 1 && attempt <= s.max_attempts && delay == delay_of_nanos(
            backoff_nanos(s.base_delay, attempt),
        ),
        spec_step(s, e).1 matches ReconnectAction::Connect { attempt, epoch } ==> attempt
            == s.attempt && 1 <= attempt <= s.max_attempts && epoch == s.epoch + 1,
        spec_step(s, e).1 is GiveUp ==> s.attempt == s.max_attempts,
{
}

/// The state and actions after feeding `events` to a run, in order.
pub open spec fn spec_run(s: ReconnectLoop, events: Seq<ReconnectEvent>) -> (
    ReconnectLoop,
    Seq<ReconnectAction>,
)
    decreases events.len(),
{
    if events.len() == 0 {
        (s, Seq::empty())
    } else {
        let (s1, a1) = spec_step(s, events[0]);
        let (s2, rest) = spec_run(s1, events.drop_first());
        (s2, seq![a1] + rest)
    }
}

/// Every step of feeding `events` to a run is defined.
pub open spec fn run_defined(s: ReconnectLoop, events: Seq<ReconnectEvent>) -> bool
    decreases events.len(),
{
    events.len() == 0 || (step_defined(s, events[0]) && run_defined(
        spec_step(s, events[0]).0,
        events.drop_first(),
    ))
}

/// The number of connection attempts among `actions`.
pub open spec fn count_connects(actions: Seq<ReconnectAction>) -> nat
    decreases actions.len(),
{
    if actions.len() == 0 {
        0
    } else {
        (if actions[0] is Connect {
            1nat
        } else {
            0nat
        }) + count_connects(actions.drop_first())
    }
}

/// An upper bound on the attempts of the run that have connected or are
/// connecting.
pub open spec fn connects_so_far(s: ReconnectLoop) -> int {
    if s.phase == ReconnectPhase::Sleeping {
        s.attempt - 1
    } else {
        s.attempt as int
    }
}

proof fn lemma_run_counts(s: ReconnectLoop, events: Seq<ReconnectEvent>)
    requires
        s.wf(),
        run_defined(s, events),
        s.phase != ReconnectPhase::Connecting || s.attempt >= 1,
    ensures
        spec_run(s, events).0.wf(),
        connects_so_far(s) + count_connects(spec_run(s, events).1) <= connects_so_far(
            spec_run(s, events).0,
        ),
        spec_run(s, events).0.epoch == s.epoch + count_connects(spec_run(s, events).1),
        spec_run(s, events).0.max_attempts == s.max_attempts,
    decreases events.len(),
{
    if events.len() > 0 {
        let (s1, a1) = spec_step(s, events[0]);
        lemma_run_counts(s1, events.drop_first());
        let (s2, rest) = spec_run(s1, events.drop_first());
        let all = seq![a1] + rest;
        assert(all[0] == a1);
        assert(all.drop_first() =~= rest);
    }
}

/// A reconnect run makes at most `max_attempts` connection attempts, and each
/// attempt bumps the session epoch by exactly one.
pub proof fn lemma_run_bounded_attempts(
    max_attempts: u32,
    base_delay: Delay,
    epoch: u32,
    events: Seq<ReconnectEvent>,
)
    requires
        base_delay.is_valid(),
        run_defined(
            ReconnectLoop {
                phase: ReconnectPhase::Idle,
                attempt: 0,
                max_attempts,
                base_delay,
                epoch,
            },
            events,
        ),
    ensures
        ({
            let start = ReconnectLoop {
                phase: ReconnectPhase::Idle,
                attempt: 0,
                max_attempts,
                base_delay,
                epoch,
            };
            let (last, actions) = spec_run(start, events);
            &&& count_connects(actions) <= max_attempts
            &&& last.epoch == epoch + count_connects(actions)
        }),
{
    let start = ReconnectLoop {
        phase: ReconnectPhase::Idle,
        attempt: 0,
        max_attempts,
        base_delay,
        epoch,
    };
    lemma_run_counts(start, events);
    let last = spec_run(start, events).0;
    assert(connects_so_far(last) <= last.attempt <= max_attempts);
    assert(connects_so_far(start) == 0);
}

} // verus!
