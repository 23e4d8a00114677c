use nebula_idempotency::config::ConflictBehavior;
use nebula_idempotency::key::IdempotencyKey;
use nebula_idempotency::singleflight::{
    resolve_in_flight_wait, BeginOutcome, InFlightRegistry, WaitDirective,
};

fn key(text: &str) -> IdempotencyKey {
    IdempotencyKey::new(text.to_string())
}

#[test]
fn only_first_caller_is_granted_execution() {
    let mut reg = InFlightRegistry::<u64>::new();
    assert!(matches!(reg.begin(&key("k")), BeginOutcome::MustExecute));
    assert!(matches!(reg.begin(&key("k")), BeginOutcome::InFlight));
    assert!(matches!(reg.begin(&key("k")), BeginOutcome::InFlight));
    reg.complete_success(&key("k"), 42);
    match reg.begin(&key("k")) {
        BeginOutcome::Cached(v) => assert_eq!(v, 42),
        _ => panic!("expected the cached result"),
    }
}

#[test]
fn failure_releases_the_key_without_caching() {
    let mut reg = InFlightRegistry::<u64>::new();
    assert!(matches!(reg.begin(&key("k")), BeginOutcome::MustExecute));
    reg.complete_failure(&key("k"));
    assert!(matches!(reg.begin(&key("k")), BeginOutcome::MustExecute));
}

#[test]
fn keys_are_coordinated_independently() {
    let mut reg = InFlightRegistry::<u64>::new();
    assert!(matches!(reg.begin(&key("a")), BeginOutcome::MustExecute));
    assert!(matches!(reg.begin(&key("b")), BeginOutcome::MustExecute));
    reg.complete_success(&key("a"), 1);
    assert!(matches!(reg.begin(&key("b")), BeginOutcome::InFlight));
    match reg.begin(&key("a")) {
        BeginOutcome::Cached(v) => assert_eq!(v, 1),
        _ => panic!("expected the cached result"),
    }
}

#[test]
fn conflict_policy_governs_waiting() {
    let previous = ConflictBehavior::ReturnPrevious;
    assert_eq!(resolve_in_flight_wait(&previous, 0), WaitDirective::KeepWaiting);
    assert_eq!(resolve_in_flight_wait(&previous, u64::MAX), WaitDirective::KeepWaiting);
    let bounded = ConflictBehavior::WaitForCompletion { timeout_ms: 500 };
    assert_eq!(resolve_in_flight_wait(&bounded, 499), WaitDirective::KeepWaiting);
    assert_eq!(resolve_in_flight_wait(&bounded, 500), WaitDirective::GiveUpWithConflict);
    assert_eq!(resolve_in_flight_wait(&bounded, 501), WaitDirective::GiveUpWithConflict);
    let merge = ConflictBehavior::Merge;
    assert_eq!(resolve_in_flight_wait(&merge, u64::MAX), WaitDirective::KeepWaiting);
}
