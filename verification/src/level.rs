//! Granularity tags for idempotency keys.

use vstd::prelude::*;

verus! {

/// The granularity a key applies to.
///
/// The tag classifies an operation for configuration and backend selection;
/// it does not alter how the executor deduplicates.
#[derive(Clone, Copy, Debug, PartialEq, Eq, Hash)]
pub enum IdempotencyLevel {
    Action,
    Workflow,
    Request,
    Transaction,
}

} // verus!
