//! Idempotent execution and workflow checkpointing.
//!
//! The crate has two engines. The execution engine deduplicates fallible
//! operations by key: a result computed once under a key is returned to every
//! later caller of that key without re-running the operation, and a failed
//! attempt leaves no trace, so a retry runs the operation again. The
//! checkpoint engine records durable snapshots of partial workflow progress
//! and hands the latest one back so a restarted driver can resume without
//! redoing completed steps.

use vstd::prelude::*;

mod assoc;

pub mod action;
pub mod config;
pub mod error;
pub mod executor;
pub mod jsonval;
pub mod key;
pub mod level;
pub mod prelude;
pub mod request;
pub mod singleflight;
pub mod storage;
pub mod transaction;
pub mod workflow;

verus! {

/// Adds two numbers; the caller rules out overflow.
pub fn add(left: u64, right: u64) -> (r: u64)
    requires
        left + right <= u64::MAX,
    ensures
        r == left + right,
{
    left + right
}

/// Greeting used by documentation examples.
pub fn hello_core() -> (r: &'static str)
    ensures
        r@ == "Hello from nebula-core!"@,
{
    "Hello from nebula-core!"
}

/// Greeting used by documentation examples.
pub fn hello_engine() -> (r: &'static str)
    ensures
        r@ == "Hello from nebula-engine!"@,
{
    "Hello from nebula-engine!"
}

} // verus!
