use nebula_idempotency::workflow::checkpoint::{
    CheckpointManager, ValueEntry, WorkflowCheckpoint,
};
use nebula_idempotency::workflow::state::WorkflowState;
use nebula_idempotency::workflow::storage::InMemoryCheckpointStorage;
use nebula_idempotency::workflow::strategies::CheckpointStrategy;
use serde_json::Value;

fn checkpoint(
    workflow: &str,
    id: &str,
    at_ms: u64,
    completed: &[&str],
    state: WorkflowState,
) -> WorkflowCheckpoint {
    WorkflowCheckpoint {
        workflow_id: workflow.to_string(),
        checkpoint_id: id.to_string(),
        created_at_ms: at_ms,
        completed_nodes: completed.iter().map(|n| n.to_string()).collect(),
        workflow_state: state,
        node_outputs: Vec::new(),
        variables: Vec::new(),
    }
}

#[test]
fn latest_follows_creation_order_and_clear_forgets() {
    let mut storage = InMemoryCheckpointStorage::new();
    storage.save(checkpoint("wf", "cp-1", 10, &["a"], WorkflowState::Running));
    storage.save(checkpoint("wf", "cp-2", 20, &["a", "b"], WorkflowState::Running));
    storage.save(checkpoint("wf", "cp-3", 30, &["a", "b", "c"], WorkflowState::Completed));
    let latest = storage.latest(&"wf".to_string()).unwrap();
    assert_eq!(latest.checkpoint_id, "cp-3");
    assert_eq!(latest.workflow_state, WorkflowState::Completed);
    storage.clear(&"wf".to_string());
    assert!(storage.latest(&"wf".to_string()).is_none());
}

#[test]
fn manager_returns_the_nth_checkpoint_after_n_creates() {
    let mut manager =
        CheckpointManager::new(InMemoryCheckpointStorage::new(), CheckpointStrategy::AfterEachNode);
    assert!(manager.find_latest_checkpoint(&"wf".to_string()).unwrap().is_none());
    for i in 1..=4u64 {
        let completed: Vec<String> = (1..=i).map(|j| format!("step-{j}")).collect();
        let cp = WorkflowCheckpoint {
            workflow_id: "wf".to_string(),
            checkpoint_id: format!("cp-{i}"),
            created_at_ms: i * 100,
            completed_nodes: completed,
            workflow_state: WorkflowState::Running,
            node_outputs: Vec::new(),
            variables: Vec::new(),
        };
        manager.create_checkpoint(cp).unwrap();
        let latest = manager.find_latest_checkpoint(&"wf".to_string()).unwrap().unwrap();
        assert_eq!(latest.checkpoint_id, format!("cp-{i}"));
    }
}

#[test]
fn regressing_checkpoint_is_rejected() {
    let mut manager =
        CheckpointManager::new(InMemoryCheckpointStorage::new(), CheckpointStrategy::AfterEachNode);
    manager
        .create_checkpoint(checkpoint("wf", "cp-1", 10, &["a", "b"], WorkflowState::Running))
        .unwrap();
    let rejected =
        manager.create_checkpoint(checkpoint("wf", "cp-2", 20, &["a"], WorkflowState::Running));
    assert!(rejected.is_err());
    let latest = manager.find_latest_checkpoint(&"wf".to_string()).unwrap().unwrap();
    assert_eq!(latest.checkpoint_id, "cp-1");
    manager
        .create_checkpoint(checkpoint("wf", "cp-3", 30, &["b", "a", "c"], WorkflowState::Running))
        .unwrap();
    let latest = manager.find_latest_checkpoint(&"wf".to_string()).unwrap().unwrap();
    assert_eq!(latest.checkpoint_id, "cp-3");
}

#[test]
fn workflows_keep_separate_histories() {
    let mut storage = InMemoryCheckpointStorage::new();
    storage.save(checkpoint("wf-1", "cp-a", 10, &["a"], WorkflowState::Running));
    storage.save(checkpoint("wf-2", "cp-b", 10, &["x"], WorkflowState::Running));
    storage.clear(&"wf-1".to_string());
    assert!(storage.latest(&"wf-1".to_string()).is_none());
    assert_eq!(storage.latest(&"wf-2".to_string()).unwrap().checkpoint_id, "cp-b");
}

#[test]
fn payloads_survive_the_round_trip() {
    let mut storage = InMemoryCheckpointStorage::new();
    let mut cp = checkpoint("wf", "cp-1", 10, &["a"], WorkflowState::Running);
    cp.node_outputs.push(ValueEntry {
        name: "a".to_string(),
        value: Value::String("output of a".to_string()),
    });
    cp.variables.push(ValueEntry { name: "retries".to_string(), value: Value::Bool(true) });
    storage.save(cp);
    let latest = storage.latest(&"wf".to_string()).unwrap();
    assert_eq!(latest.node_outputs.len(), 1);
    assert_eq!(latest.node_outputs[0].name, "a");
    assert_eq!(latest.node_outputs[0].value, Value::String("output of a".to_string()));
    assert_eq!(latest.variables[0].name, "retries");
    assert_eq!(latest.variables[0].value, Value::Bool(true));
}

#[test]
fn resume_state_mirrors_the_checkpoint() {
    let manager =
        CheckpointManager::new(InMemoryCheckpointStorage::new(), CheckpointStrategy::AfterEachNode);
    let mut cp = checkpoint("wf", "cp-9", 90, &["a", "b"], WorkflowState::Running);
    cp.variables.push(ValueEntry { name: "cursor".to_string(), value: Value::Null });
    let resume = manager.resume_from_checkpoint(cp).unwrap();
    assert_eq!(resume.completed_nodes, vec!["a".to_string(), "b".to_string()]);
    assert_eq!(resume.workflow_state, WorkflowState::Running);
    assert!(resume.node_outputs.is_empty());
    assert_eq!(resume.variables[0].name, "cursor");
    assert_eq!(resume.variables[0].value, Value::Null);
}

#[test]
fn time_based_strategy_waits_for_the_interval() {
    let strategy = CheckpointStrategy::TimeBased { interval_ms: 30_000 };
    let node = "step".to_string();
    assert!(strategy.should_checkpoint(&node, 100_000, None));
    assert!(!strategy.should_checkpoint(&node, 129_999, Some(100_000)));
    assert!(strategy.should_checkpoint(&node, 130_000, Some(100_000)));
    assert!(strategy.should_checkpoint(&node, 200_000, Some(100_000)));
    assert!(!strategy.should_checkpoint(&node, 99_000, Some(100_000)));
}

#[test]
fn strategies_decide_per_node_and_delegate() {
    let every = CheckpointStrategy::AfterEachNode;
    assert!(every.should_checkpoint(&"any".to_string(), 0, None));
    let critical = CheckpointStrategy::CriticalPointsOnly {
        critical_nodes: vec!["pay".to_string(), "ship".to_string()],
    };
    assert!(critical.should_checkpoint(&"pay".to_string(), 0, None));
    assert!(!critical.should_checkpoint(&"log".to_string(), 0, None));
    let adaptive = CheckpointStrategy::Adaptive {
        base_strategy: Box::new(critical.clone()),
        ml_optimization: true,
    };
    assert!(adaptive.should_checkpoint(&"ship".to_string(), 5, Some(1)));
    assert!(!adaptive.should_checkpoint(&"log".to_string(), 5, Some(1)));
}
