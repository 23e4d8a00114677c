//! The commonly used items in one place.

pub use crate::action::IdempotentAction;
pub use crate::config::{
    ConflictBehavior, IdempotencyConfig, IdempotencyKeyStrategy, IdempotencyStorageBackend,
    ResultCachingConfig,
};
pub use crate::error::IdempotencyError;
pub use crate::executor::IdempotentExecutor;
pub use crate::key::IdempotencyKey;
pub use crate::storage::InMemoryIdempotencyStorage;
