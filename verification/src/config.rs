//! Policy knobs governing idempotent execution.
//!
//! Durations are carried as whole milliseconds, so that window arithmetic
//! stays in plain integers.

use vstd::prelude::*;
use crate::level::IdempotencyLevel;

verus! {

/// How the deduplication key for an operation is derived.
#[derive(Clone, Debug)]
pub enum IdempotencyKeyStrategy {
    /// The key is a hash of the operation's input.
    ContentBased,
    /// The caller supplies the key.
    UserProvided,
    /// A caller-supplied prefix combined with a content-derived suffix.
    Hybrid { user_key_prefix: bool, content_suffix: bool },
}

/// What happens when two callers race on the same unseen key.
#[derive(Clone, Debug)]
pub enum ConflictBehavior {
    /// Only one execution proceeds; the others receive its result.
    ReturnPrevious,
    /// A second caller blocks up to the timeout, then reports a conflict.
    WaitForCompletion { timeout_ms: u64 },
    /// Reserved for actions whose outputs can be combined; without a merge
    /// function supplied by the action it behaves as `ReturnPrevious`.
    Merge,
}

/// Which storage backend holds the deduplicated results.
#[derive(Clone, Debug)]
pub enum IdempotencyStorageBackend {
    TierSpecific,
    InMemory,
    Postgres,
    Redis,
    Distributed,
}

/// Whether successful results are cached for replay.
#[derive(Clone, Debug)]
pub struct ResultCachingConfig {
    pub enabled: bool,
}

impl Default for ResultCachingConfig {
    /// Caching is on by default.
    fn default() -> (r: Self)
        ensures
            r.enabled,
    {
        ResultCachingConfig { enabled: true }
    }
}

/// Per-action idempotency policy.
///
/// A configuration is attached to an action at construction and never
/// mutated afterwards.
#[derive(Clone, Debug)]
pub struct IdempotencyConfig {
    pub enabled: bool,
    pub level: IdempotencyLevel,
    pub key_strategy: IdempotencyKeyStrategy,
    /// How long a stored result remains valid for reuse, in milliseconds.
    pub deduplication_window_ms: u64,
    pub conflict_behavior: ConflictBehavior,
    pub storage_backend: IdempotencyStorageBackend,
    pub result_caching: ResultCachingConfig,
}

/// The safe defaults demanded of a fresh configuration: deduplication
/// enabled, content-based keys, first caller wins, a one-hour window,
/// the in-memory backend, and result caching on.
pub open spec fn is_default_config(c: IdempotencyConfig) -> bool {
    &&& c.enabled
    &&& c.level is Action
    &&& c.key_strategy is ContentBased
    &&& c.deduplication_window_ms == 3_600_000
    &&& c.conflict_behavior is ReturnPrevious
    &&& c.storage_backend is InMemory
    &&& c.result_caching.enabled
}

impl Default for IdempotencyConfig {
    /// The safe default policy.
    fn default() -> (r: Self)
        ensures
            is_default_config(r),
    {
        IdempotencyConfig {
            enabled: true,
            level: IdempotencyLevel::Action,
            key_strategy: IdempotencyKeyStrategy::ContentBased,
            deduplication_window_ms: 3_600_000,
            conflict_behavior: ConflictBehavior::ReturnPrevious,
            storage_backend: IdempotencyStorageBackend::InMemory,
            result_caching: ResultCachingConfig { enabled: true },
        }
    }
}

} // verus!
