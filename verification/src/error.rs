use vstd::prelude::*;

verus! {

/// Why a client operation failed.
#[derive(Debug, Clone, PartialEq, Eq)]
pub enum ClientError {
    /// `connect` was called while a connection is established.
    AlreadyConnected,
    /// The operation needs an established connection and there is none.
    NotConnected,
    /// No reply to a command arrived within the given number of milliseconds.
    CommandTimeout(u64),
    /// Encoding or sending a frame failed; the text says why.
    Transport(String),
}

} // verus!
