use nebula_idempotency::add;
use nebula_idempotency::config::{
    ConflictBehavior, IdempotencyConfig, IdempotencyKeyStrategy, IdempotencyStorageBackend,
    ResultCachingConfig,
};
use nebula_idempotency::error::IdempotencyError;
use nebula_idempotency::level::IdempotencyLevel;
use nebula_idempotency::{hello_core, hello_engine};

#[test]
fn it_works() {
    let result = add(2, 2);
    assert_eq!(result, 4);
}

#[test]
fn lib_it_works() {
    let result = add(2, 2);
    assert_eq!(result, 4);
}

#[test]
fn greetings() {
    assert_eq!(hello_core(), "Hello from nebula-core!");
    assert_eq!(hello_engine(), "Hello from nebula-engine!");
}

#[test]
fn default_config_is_safe() {
    let c = IdempotencyConfig::default();
    assert!(c.enabled);
    assert_eq!(c.level, IdempotencyLevel::Action);
    assert!(matches!(c.key_strategy, IdempotencyKeyStrategy::ContentBased));
    assert_eq!(c.deduplication_window_ms, 3_600_000);
    assert!(matches!(c.conflict_behavior, ConflictBehavior::ReturnPrevious));
    assert!(matches!(c.storage_backend, IdempotencyStorageBackend::InMemory));
    assert!(c.result_caching.enabled);
    assert!(ResultCachingConfig::default().enabled);
}

#[test]
fn error_variants_carry_their_message() {
    let s = IdempotencyError::Storage("disk gone".to_string());
    let c = IdempotencyError::Conflict("timed out waiting".to_string());
    let u = IdempotencyError::Unexpected("boom".to_string());
    assert_eq!(s.message(), "disk gone");
    assert_eq!(c.message(), "timed out waiting");
    assert_eq!(u.message(), "boom");
}
