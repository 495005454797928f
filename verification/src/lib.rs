//! Client-side state and decision logic for the Rift Realtime Protocol.

pub mod ack;
pub mod backoff;
pub mod client;
pub mod decimal;
pub mod error;
pub mod external;
pub mod ids;
pub mod mode;
pub mod options;
pub mod reconnect;
pub mod subscriber;
