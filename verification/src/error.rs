//! The single error kind of the greeting service.

use vstd::prelude::*;

verus! {

/// Any failure of the underlying durable mapping, surfaced unchanged to the
/// caller together with a human-readable description. The service itself
/// introduces no further error kinds and never retries.
#[derive(Debug)]
pub enum ContractError {
    Storage { message: String },
}

impl ContractError {
    /// The human-readable description of the failure.
    pub fn message(&self) -> (r: &String)
        ensures
            (match self { ContractError::Storage { message } => r@ == message@ }),
    {
        match self {
            ContractError::Storage { message } => message,
        }
    }
}

} // verus!
