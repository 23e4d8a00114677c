use nebula_idempotency::error::IdempotencyError;
use nebula_idempotency::key::IdempotencyKey;
use nebula_idempotency::transaction::{TransactionManager, TransactionalAction};

struct Transfer;

impl TransactionalAction for Transfer {
    type Input = u64;
    type Output = u64;

    fn execute(&self, input: u64) -> Result<u64, IdempotencyError> {
        Ok(input)
    }
}

#[test]
fn work_result_is_handed_back_unchanged() {
    let manager = TransactionManager::new();
    let ok = manager
        .execute_idempotent(&Transfer, 5, IdempotencyKey::new("tx-1".to_string()), || Ok(99u64))
        .unwrap();
    assert_eq!(ok, 99);
    let err: Result<u64, IdempotencyError> = manager.execute_idempotent(
        &Transfer,
        5,
        IdempotencyKey::new("tx-2".to_string()),
        || Err(IdempotencyError::Conflict("already running".to_string())),
    );
    assert!(matches!(err, Err(IdempotencyError::Conflict(_))));
    let _ = TransactionManager::default();
}
