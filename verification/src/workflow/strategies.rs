//! Policies deciding when a workflow driver takes a checkpoint.
//!
//! The checkpoint manager is passive; the driver consults the strategy it
//! was configured with — "a step just completed: is a checkpoint due?" —
//! and calls `create_checkpoint` when the answer is yes.

use vstd::prelude::*;
use crate::workflow::checkpoint::NodeId;
use crate::workflow::nodes::{contains_node, node_set};

verus! {

/// Strategy for workflow checkpointing.
#[derive(Debug)]
pub enum CheckpointStrategy {
    /// Checkpoint after every completed step.
    AfterEachNode,
    /// Checkpoint only after the named critical steps.
    CriticalPointsOnly { critical_nodes: Vec<NodeId> },
    /// Checkpoint on wall-clock cadence, regardless of steps completed.
    TimeBased { interval_ms: u64 },
    /// Delegates to a nested strategy; the flag is a placeholder reserved
    /// for dynamic tuning and does not alter the decision.
    Adaptive { base_strategy: Box<CheckpointStrategy>, ml_optimization: bool },
}

impl Clone for CheckpointStrategy {
    /// A structural copy, nested strategy included.
    fn clone(&self) -> (r: Self)
        decreases self,
    {
        match self {
            CheckpointStrategy::AfterEachNode => CheckpointStrategy::AfterEachNode,
            CheckpointStrategy::CriticalPointsOnly { critical_nodes } => {
                CheckpointStrategy::CriticalPointsOnly { critical_nodes: critical_nodes.clone() }
            },
            CheckpointStrategy::TimeBased { interval_ms } => {
                CheckpointStrategy::TimeBased { interval_ms: *interval_ms }
            },
            CheckpointStrategy::Adaptive { base_strategy, ml_optimization } => {
                CheckpointStrategy::Adaptive {
                    base_strategy: Box::new((**base_strategy).clone()),
                    ml_optimization: *ml_optimization,
                }
            },
        }
    }
}

impl CheckpointStrategy {
    /// Whether a checkpoint is due just after step `node` completed, at
    /// time `now_ms`, the latest prior checkpoint of the workflow having
    /// been taken at `last_checkpoint_ms` (absent when there is none).
    ///
    /// Time-based cadence is due when no checkpoint exists yet, or when at
    /// least the configured interval has elapsed since the last one; a
    /// clock reading earlier than the last checkpoint counts as nothing
    /// elapsed.
    pub open spec fn checkpoint_due(
        &self,
        node: Seq<char>,
        now_ms: u64,
        last_checkpoint_ms: Option<u64>,
    ) -> bool
        decreases self,
    {
        match self {
            CheckpointStrategy::AfterEachNode => true,
            CheckpointStrategy::CriticalPointsOnly { critical_nodes } => node_set(
                critical_nodes@,
            ).contains(node),
            CheckpointStrategy::TimeBased { interval_ms } => match last_checkpoint_ms {
                Option::None => true,
                Option::Some(last) => last <= now_ms && now_ms - last >= *interval_ms,
            },
            CheckpointStrategy::Adaptive { base_strategy, ml_optimization } => {
                base_strategy.checkpoint_due(node, now_ms, last_checkpoint_ms)
            },
        }
    }

    /// Decides `checkpoint_due` executably.
    pub fn should_checkpoint(
        &self,
        node: &NodeId,
        now_ms: u64,
        last_checkpoint_ms: Option<u64>,
    ) -> (r: bool)
        ensures
            r == self.checkpoint_due(node@, now_ms, last_checkpoint_ms),
        decreases self,
    {
        match self {
            CheckpointStrategy::AfterEachNode => true,
            CheckpointStrategy::CriticalPointsOnly { critical_nodes } => contains_node(
                critical_nodes,
                node,
            ),
            CheckpointStrategy::TimeBased { interval_ms } => match last_checkpoint_ms {
                None => true,
                Some(last) => last <= now_ms && now_ms - last >= *interval_ms,
            },
            CheckpointStrategy::Adaptive { base_strategy, .. } => base_strategy.should_checkpoint(
                node,
                now_ms,
                last_checkpoint_ms,
            ),
        }
    }
}

} // verus!
