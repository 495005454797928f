use vstd::prelude::*;

verus! {

/// The outcome of a message that an acknowledgement reports.
#[derive(Debug, Clone, Copy, PartialEq, Eq, Structural)]
pub enum AckStatus {
    /// Received, not yet processed.
    Received,
    /// Accepted by the server.
    Accepted,
    /// Durably stored.
    Persisted,
    /// Delivered to subscribers.
    Delivered,
    /// Processed by a subscriber.
    Processed,
    /// Rejected.
    Rejected,
    /// Expired before delivery.
    Expired,
    /// A duplicate of an earlier message.
    Duplicate,
    /// Failed.
    Failed,
}

/// The wire name of an acknowledgement status.
pub open spec fn ack_status_name(status: AckStatus) -> Seq<char> {
    match status {
        AckStatus::Received => "received"@,
        AckStatus::Accepted => "accepted"@,
        AckStatus::Persisted => "persisted"@,
        AckStatus::Delivered => "delivered"@,
        AckStatus::Processed => "processed"@,
        AckStatus::Rejected => "rejected"@,
        AckStatus::Expired => "expired"@,
        AckStatus::Duplicate => "duplicate"@,
        AckStatus::Failed => "failed"@,
    }
}

impl AckStatus {
    /// Returns the lowercase wire name of this status.
    pub fn as_str(self) -> (name: &'static str)
        ensures
            name@ == ack_status_name(self),
    {
        match self {
            AckStatus::Received => "received",
            AckStatus::Accepted => "accepted",
            AckStatus::Persisted => "persisted",
            AckStatus::Delivered => "delivered",
            AckStatus::Processed => "processed",
            AckStatus::Rejected => "rejected",
            AckStatus::Expired => "expired",
            AckStatus::Duplicate => "duplicate",
            AckStatus::Failed => "failed",
        }
    }
}

} // verus!
