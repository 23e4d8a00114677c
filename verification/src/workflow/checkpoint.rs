//! Workflow checkpoints and their manager.

use vstd::prelude::*;
use vstd::string::StringExecFns;
use crate::workflow::nodes::{is_subset, node_set};
use crate::workflow::state::WorkflowState;
use crate::workflow::storage::InMemoryCheckpointStorage;
use crate::workflow::strategies::CheckpointStrategy;

verus! {

/// Unique identifier for a workflow.
pub type WorkflowId = String;

/// Unique identifier for a checkpoint.
pub type CheckpointId = String;

/// Unique identifier for a workflow step.
pub type NodeId = String;

/// One named JSON payload attached to a checkpoint.
pub struct ValueEntry {
    pub name: String,
    pub value: serde_json::Value,
}

impl Clone for ValueEntry {
    /// The copy equals the original.
    fn clone(&self) -> (r: Self)
        ensures
            r == *self,
    {
        ValueEntry { name: self.name.clone(), value: self.value.clone() }
    }
}

/// What a checkpoint says: the workflow and checkpoint identities, the
/// creation time, the set of completed steps, the workflow state, and the
/// named payloads, every piece read off the concrete record.
#[verifier::ext_equal]
pub ghost struct CheckpointView {
    pub workflow_id: Seq<char>,
    pub checkpoint_id: Seq<char>,
    pub created_at_ms: u64,
    pub completed_nodes: Set<Seq<char>>,
    pub workflow_state: WorkflowState,
    pub node_outputs: Seq<(Seq<char>, serde_json::Value)>,
    pub variables: Seq<(Seq<char>, serde_json::Value)>,
}

/// The named payloads, as pairs of name text and value.
pub open spec fn entries_view(s: Seq<ValueEntry>) -> Seq<(Seq<char>, serde_json::Value)> {
    s.map_values(|e: ValueEntry| (e.name@, e.value))
}

/// A point-in-time snapshot of partial workflow progress, immutable once
/// created. The creation time is in milliseconds since the epoch, and
/// checkpoint identities are ordered by creation.
pub struct WorkflowCheckpoint {
    pub workflow_id: WorkflowId,
    pub checkpoint_id: CheckpointId,
    pub created_at_ms: u64,
    pub completed_nodes: Vec<NodeId>,
    pub workflow_state: WorkflowState,
    pub node_outputs: Vec<ValueEntry>,
    pub variables: Vec<ValueEntry>,
}

impl View for WorkflowCheckpoint {
    type V = CheckpointView;

    open spec fn view(&self) -> CheckpointView {
        CheckpointView {
            workflow_id: self.workflow_id@,
            checkpoint_id: self.checkpoint_id@,
            created_at_ms: self.created_at_ms,
            completed_nodes: node_set(self.completed_nodes@),
            workflow_state: self.workflow_state,
            node_outputs: entries_view(self.node_outputs@),
            variables: entries_view(self.variables@),
        }
    }
}

impl Clone for WorkflowCheckpoint {
    /// The copy says exactly what the original says.
    fn clone(&self) -> (r: Self)
        ensures
            r@ == self@,
    {
        let r = WorkflowCheckpoint {
            workflow_id: self.workflow_id.clone(),
            checkpoint_id: self.checkpoint_id.clone(),
            created_at_ms: self.created_at_ms,
            completed_nodes: self.completed_nodes.clone(),
            workflow_state: self.workflow_state,
            node_outputs: self.node_outputs.clone(),
            variables: self.variables.clone(),
        };
        proof {
            assert forall|i: int| 0 <= i < self.completed_nodes@.len() implies r.completed_nodes@[i]
                == self.completed_nodes@[i] by {
                assert(cloned(self.completed_nodes@[i], r.completed_nodes@[i]));
            }
            assert(r.completed_nodes@ =~= self.completed_nodes@);
            assert forall|i: int| 0 <= i < self.node_outputs@.len() implies r.node_outputs@[i]
                == self.node_outputs@[i] by {
                assert(cloned(self.node_outputs@[i], r.node_outputs@[i]));
            }
            assert(r.node_outputs@ =~= self.node_outputs@);
            assert forall|i: int| 0 <= i < self.variables@.len() implies r.variables@[i]
                == self.variables@[i] by {
                assert(cloned(self.variables@[i], r.variables@[i]));
            }
            assert(r.variables@ =~= self.variables@);
            assert(r@ =~= self@);
        }
        r
    }
}

/// The driver state a checkpoint resumes: what was completed, in which
/// state the workflow was, and the step outputs and variables to continue
/// with.
pub struct WorkflowResumeState {
    pub completed_nodes: Vec<NodeId>,
    pub workflow_state: WorkflowState,
    pub node_outputs: Vec<ValueEntry>,
    pub variables: Vec<ValueEntry>,
}

/// Along one workflow's checkpoint sequence, the set of completed steps
/// never shrinks from one checkpoint to the next.
pub open spec fn nodes_monotone(s: Seq<WorkflowCheckpoint>) -> bool {
    forall|i: int|
        0 <= i && i + 1 < s.len() ==> (#[trigger] s[i])@.completed_nodes <= s[i
            + 1]@.completed_nodes
}

/// Pushing a checkpoint that completes at least what the latest one did
/// keeps the sequence monotone.
#[verifier::rlimit(60)]
proof fn lemma_monotone_push(s: Seq<WorkflowCheckpoint>, c: WorkflowCheckpoint)
    requires
        nodes_monotone(s),
        s.len() > 0 ==> s.last()@.completed_nodes <= c@.completed_nodes,
    ensures
        nodes_monotone(s.push(c)),
{
    let s2 = s.push(c);
    assert forall|i: int| 0 <= i && i + 1 < s2.len() implies (#[trigger] s2[i])@.completed_nodes
        <= s2[i + 1]@.completed_nodes by {
        assert(s2[i] == s[i]);
        if i + 1 < s.len() {
            assert(s2[i + 1] == s[i + 1]);
        } else {
            assert(s2[i + 1] == c);
            assert(s[i] == s.last());
        }
    }
}

/// Checkpoint monotonicity: across one workflow's checkpoint sequence,
/// ordered by creation, the completed-step sets are non-decreasing under
/// set containment — not only between neighbours but between any earlier
/// and any later checkpoint.
pub proof fn lemma_checkpoint_monotonicity(s: Seq<WorkflowCheckpoint>, i: int, j: int)
    requires
        nodes_monotone(s),
        0 <= i <= j < s.len(),
    ensures
        s[i]@.completed_nodes <= s[j]@.completed_nodes,
    decreases j - i,
{
    if i < j {
        lemma_checkpoint_monotonicity(s, i, j - 1);
        assert(s[j - 1]@.completed_nodes <= s[j]@.completed_nodes);
    }
}

/// Checkpoint retrieval: appending a checkpoint grows the sequence by one,
/// and the latest checkpoint is the one just appended; the manager's
/// `find_latest_checkpoint` returns exactly the last of the sequence.
pub proof fn lemma_checkpoint_retrieval(s: Seq<WorkflowCheckpoint>, c: WorkflowCheckpoint)
    ensures
        s.push(c).len() == s.len() + 1,
        s.push(c).last() == c,
{
}

/// Manages workflow checkpoints: appends them per workflow, serves the
/// latest one, and reconstructs resume state. The bound strategy stays for
/// the workflow's lifetime; the driver consults it to decide when to call
/// `create_checkpoint`.
pub struct CheckpointManager {
    storage: InMemoryCheckpointStorage,
    strategy: CheckpointStrategy,
}

impl CheckpointManager {
    /// The checkpoint history: workflow identity to its checkpoints, in
    /// creation order.
    pub closed spec fn checkpoints(&self) -> Map<Seq<char>, Seq<WorkflowCheckpoint>> {
        self.storage@
    }

    #[verifier::type_invariant]
    spec fn wf(&self) -> bool {
        forall|w: Seq<char>|
            self.storage@.contains_key(w) ==> nodes_monotone(#[trigger] self.storage@[w])
    }

    /// Binds a checkpoint store and a strategy. The store's histories must
    /// already honour monotonicity; a fresh store trivially does.
    pub fn new(storage: InMemoryCheckpointStorage, strategy: CheckpointStrategy) -> (r: Self)
        requires
            forall|w: Seq<char>|
                storage@.contains_key(w) ==> nodes_monotone(#[trigger] storage@[w]),
        ensures
            r.checkpoints() == storage@,
    {
        CheckpointManager { storage, strategy }
    }

    /// Appends `checkpoint` to its workflow's history — unless it would
    /// un-complete a step the latest checkpoint reports done, which is
    /// rejected and changes nothing.
    #[verifier::rlimit(60)]
    pub fn create_checkpoint(&mut self, checkpoint: WorkflowCheckpoint) -> (r: Result<
        (),
        String,
    >)
        ensures
            ({
                let w = checkpoint.workflow_id@;
                let history0 = old(self).checkpoints();
                let prior = if history0.contains_key(w) {
                    history0[w]
                } else {
                    Seq::<WorkflowCheckpoint>::empty()
                };
                match r {
                    Ok(u) => (prior.len() > 0 ==> prior.last()@.completed_nodes
                        <= checkpoint@.completed_nodes) && final(self).checkpoints()
                        == history0.insert(w, prior.push(checkpoint)),
                    Err(e) => prior.len() > 0 && !(prior.last()@.completed_nodes
                        <= checkpoint@.completed_nodes) && final(self).checkpoints() == history0,
                }
            }),
    {
        proof {
            use_type_invariant(&*self);
        }
        let prev = self.storage.latest(&checkpoint.workflow_id);
        if let Some(last_cp) = prev {
            if !is_subset(&last_cp.completed_nodes, &checkpoint.completed_nodes) {
                return Err(String::from_str("checkpoint regresses completed steps"));
            }
        }
        let ghost w = checkpoint.workflow_id@;
        let ghost prior = if self.storage@.contains_key(w) {
            self.storage@[w]
        } else {
            Seq::<WorkflowCheckpoint>::empty()
        };
        proof {
            lemma_monotone_push(prior, checkpoint);
        }
        let mut store = InMemoryCheckpointStorage::new();
        core::mem::swap(&mut store, &mut self.storage);
        store.save(checkpoint);
        self.storage = store;
        Ok(())
    }

    /// The most recently appended checkpoint of the workflow, or absent
    /// when it has none.
    pub fn find_latest_checkpoint(&self, workflow_id: &WorkflowId) -> (r: Result<
        Option<WorkflowCheckpoint>,
        String,
    >)
        ensures
            ({
                let w = workflow_id@;
                let history = self.checkpoints();
                match r {
                    Ok(found) => match found {
                        Some(cp) => history.contains_key(w) && history[w].len() > 0 && cp@
                            == history[w].last()@,
                        None => !history.contains_key(w) || history[w].len() == 0,
                    },
                    Err(e) => false,
                }
            }),
    {
        Ok(self.storage.latest(workflow_id))
    }

    /// Reconstructs the driver state recorded in `checkpoint`: the
    /// completed steps, the workflow state, the step outputs and the
    /// variables. Re-entering execution is the external driver's business;
    /// this contract ends at a consistent snapshot to resume from.
    pub fn resume_from_checkpoint(&self, checkpoint: WorkflowCheckpoint) -> (r: Result<
        WorkflowResumeState,
        String,
    >)
        ensures
            match r {
                Ok(st) => node_set(st.completed_nodes@) == checkpoint@.completed_nodes
                    && st.workflow_state == checkpoint@.workflow_state && entries_view(
                    st.node_outputs@,
                ) == checkpoint@.node_outputs && entries_view(st.variables@)
                    == checkpoint@.variables,
                Err(e) => false,
            },
    {
        Ok(
            WorkflowResumeState {
                completed_nodes: checkpoint.completed_nodes,
                workflow_state: checkpoint.workflow_state,
                node_outputs: checkpoint.node_outputs,
                variables: checkpoint.variables,
            },
        )
    }
}

} // verus!
