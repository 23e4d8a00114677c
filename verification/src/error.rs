//! Error taxonomy of the idempotency engine.

use vstd::prelude::*;

verus! {

/// Why an idempotent operation failed.
///
/// `Storage` is a backend failure, `Conflict` a concurrent-caller policy
/// violation (for instance a timeout while waiting for the first caller),
/// and `Unexpected` carries any other failure, including the wrapped
/// action's own error, unchanged.
#[derive(Clone, Debug)]
pub enum IdempotencyError {
    Storage(String),
    Conflict(String),
    Unexpected(String),
}

impl IdempotencyError {
    /// The human-readable text carried by the error.
    pub fn message(&self) -> (r: &String)
        ensures
            r@ == self.message_view(),
    {
        match self {
            IdempotencyError::Storage(s) => s,
            IdempotencyError::Conflict(s) => s,
            IdempotencyError::Unexpected(s) => s,
        }
    }

    /// The text carried by the error, as a sequence of characters.
    pub open spec fn message_view(&self) -> Seq<char> {
        match self {
            IdempotencyError::Storage(s) => s@,
            IdempotencyError::Conflict(s) => s@,
            IdempotencyError::Unexpected(s) => s@,
        }
    }
}

} // verus!
