//! Transaction-system integration, at its interface boundary only.

use vstd::prelude::*;
use crate::error::IdempotencyError;
use crate::key::IdempotencyKey;

verus! {

/// A fallible operation run inside a transaction.
pub trait TransactionalAction: Sized {
    type Input;

    type Output;

    /// Runs the transactional operation once.
    fn execute(&self, input: Self::Input) -> Result<Self::Output, IdempotencyError>;
}

/// Runs transactional work under an idempotency key.
pub struct TransactionManager;

impl TransactionManager {
    /// A fresh manager.
    pub fn new() -> (r: Self)
        ensures
            r == (TransactionManager),
    {
        TransactionManager
    }

    /// Runs `work` for the given transaction and hands its result back
    /// unchanged. Deduplication by `_tx_id` is the surrounding engine's
    /// business; this boundary only carries the work's own outcome.
    pub fn execute_idempotent<A, F, T>(
        &self,
        _action: &A,
        _input: A::Input,
        _tx_id: IdempotencyKey,
        work: F,
    ) -> (r: Result<T, IdempotencyError>) where
        A: TransactionalAction,
        F: FnOnce() -> Result<T, IdempotencyError>,

        requires
            work.requires(()),
        ensures
            call_ensures(work, (), r),
    {
        work()
    }
}

impl Default for TransactionManager {
    /// Same as `new`.
    fn default() -> (r: Self)
        ensures
            r == (TransactionManager),
    {
        TransactionManager::new()
    }
}

} // verus!
