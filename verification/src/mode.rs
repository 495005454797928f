use vstd::prelude::*;

verus! {

/// How a subscription wants to receive messages from a topic.
#[derive(Debug, Clone, Copy, PartialEq, Eq, Structural)]
pub enum SubscribeMode {
    /// Only messages published after the subscription.
    Live,
    /// Historical messages, then live ones.
    Replay,
    /// A snapshot of the topic state, then live messages.
    SnapshotThenLive,
    /// Only the most recent state.
    Latest,
    /// Only system notices.
    Passive,
    /// A subscription dropped when the connection ends.
    Ephemeral,
}

/// The name a subscription mode has on the wire.
pub open spec fn mode_name(mode: SubscribeMode) -> Seq<char> {
    match mode {
        SubscribeMode::Live => "live"@,
        SubscribeMode::Replay => "replay"@,
        SubscribeMode::SnapshotThenLive => "snapshot_then_live"@,
        SubscribeMode::Latest => "latest"@,
        SubscribeMode::Passive => "passive"@,
        SubscribeMode::Ephemeral => "ephemeral"@,
    }
}

/// Returns the wire name of a subscription mode.
pub fn mode_str(mode: SubscribeMode) -> (name: &'static str)
    ensures
        name@ == mode_name(mode),
{
    match mode {
        SubscribeMode::Live => "live",
        SubscribeMode::Replay => "replay",
        SubscribeMode::SnapshotThenLive => "snapshot_then_live",
        SubscribeMode::Latest => "latest",
        SubscribeMode::Passive => "passive",
        SubscribeMode::Ephemeral => "ephemeral",
    }
}

/// Distinct subscription modes have distinct wire names, so the server can
/// always tell which mode was asked for.
pub proof fn lemma_mode_name_injective(a: SubscribeMode, b: SubscribeMode)
    requires
        mode_name(a) == mode_name(b),
    ensures
        a == b,
{
    reveal_strlit("live");
    reveal_strlit("replay");
    reveal_strlit("snapshot_then_live");
    reveal_strlit("latest");
    reveal_strlit("passive");
    reveal_strlit("ephemeral");
    assert("live"@ =~= seq!['l', 'i', 'v', 'e']);
    assert("replay"@.len() == 6 && "replay"@[0] == 'r');
    assert("latest"@.len() == 6 && "latest"@[0] == 'l');
    assert("snapshot_then_live"@.len() == 18);
    assert("passive"@.len() == 7);
    assert("ephemeral"@.len() == 9);
}

} // verus!
