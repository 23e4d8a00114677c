//! The contract an operation implements to be executed idempotently.

use vstd::prelude::*;
use crate::config::IdempotencyConfig;
use crate::error::IdempotencyError;

verus! {

/// A named, fallible operation the executor deduplicates.
///
/// The contract assumes nothing about purity: re-execution is avoided
/// because the engine prevents it, not because the action is pure.
pub trait IdempotentAction: Sized {
    type Input;

    type Output: Clone;

    /// The idempotency policy for this action.
    fn idempotency_config(&self) -> IdempotencyConfig;

    /// Runs the underlying operation once.
    fn execute(&self, input: Self::Input) -> Result<Self::Output, IdempotencyError>;
}

} // verus!
