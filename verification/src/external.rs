use vstd::prelude::*;

verus! {

/// Message priority from the protocol crate; carried through unchanged.
#[verifier::external_type_specification]
#[verifier::external_body]
pub struct ExPriority(rifts::frame::Priority);

/// A JSON payload; carried through unchanged.
#[verifier::external_type_specification]
#[verifier::external_body]
pub struct ExJsonValue(serde_json::Value);

/// The reply to a command; carried through unchanged.
#[verifier::external_type_specification]
#[verifier::external_body]
pub struct ExReply(rifts::message::command::Reply);

} // verus!
