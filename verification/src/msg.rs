//! The request and response shapes of the greeting service.
//!
//! The host environment decodes an incoming payload into one of these values
//! before handing it to the service, and re-encodes what the service returns;
//! the wire format itself is the host's business.

use vstd::prelude::*;

verus! {

/// Asks the service to record the sender as the owner of the store.
pub struct InstantiateMsg {}

/// The mutating requests the service accepts.
pub enum ExecuteMsg {
    /// Record `greeting` under the sender's identity, overwriting any
    /// greeting the same sender left before.
    SayHello { greeting: String },
}

/// The read-only requests the service accepts.
pub enum QueryMsg {
    /// Ask for every stored greeting, in ascending key order.
    GetGreetings {},
}

/// Every stored greeting, as pairs of the raw identity-derived key bytes and
/// the greeting text. The key deliberately stays in its stored byte form
/// rather than being decoded back into an identity string.
pub struct GreetingsResponse {
    pub greetings: Vec<(Vec<u8>, String)>,
}

/// The success reply of a mutating call. This service never attaches any
/// follow-up messages.
pub struct Response {
    pub messages: Vec<String>,
}

} // verus!
