//! In-memory store of workflow checkpoints.

use vstd::prelude::*;
use crate::assoc::AssocList;
use crate::workflow::checkpoint::{WorkflowCheckpoint, WorkflowId};

verus! {

/// Holds each workflow's checkpoints in creation order. Retained until
/// explicitly cleared; there is no implicit expiry.
pub struct InMemoryCheckpointStorage {
    entries: AssocList<Vec<WorkflowCheckpoint>>,
}

impl View for InMemoryCheckpointStorage {
    type V = Map<Seq<char>, Seq<WorkflowCheckpoint>>;

    /// The map from workflow identity to its checkpoint sequence.
    closed spec fn view(&self) -> Map<Seq<char>, Seq<WorkflowCheckpoint>> {
        self.entries@.map_values(|v: Vec<WorkflowCheckpoint>| v@)
    }
}

impl InMemoryCheckpointStorage {
    /// An empty store.
    pub fn new() -> (r: Self)
        ensures
            r@ == Map::<Seq<char>, Seq<WorkflowCheckpoint>>::empty(),
    {
        let r = InMemoryCheckpointStorage { entries: AssocList::new() };
        proof {
            assert(r@ =~= Map::<Seq<char>, Seq<WorkflowCheckpoint>>::empty());
        }
        r
    }

    /// Appends a checkpoint to its workflow's sequence.
    pub fn save(&mut self, checkpoint: WorkflowCheckpoint)
        ensures
            ({
                let w = checkpoint.workflow_id@;
                let prior = if old(self)@.contains_key(w) {
                    old(self)@[w]
                } else {
                    Seq::<WorkflowCheckpoint>::empty()
                };
                final(self)@ == old(self)@.insert(w, prior.push(checkpoint))
            }),
    {
        let key = checkpoint.workflow_id.clone();
        let taken = self.entries.take(&key);
        let mut list = match taken {
            Some(l) => l,
            None => Vec::new(),
        };
        list.push(checkpoint);
        self.entries.insert(key, list);
        proof {
            assert(self@ =~= old(self)@.insert(
                checkpoint.workflow_id@,
                (if old(self)@.contains_key(checkpoint.workflow_id@) {
                    old(self)@[checkpoint.workflow_id@]
                } else {
                    Seq::<WorkflowCheckpoint>::empty()
                }).push(checkpoint),
            ));
        }
    }

    /// The last checkpoint of the workflow's sequence, or absent when the
    /// workflow has none.
    pub fn latest(&self, workflow_id: &WorkflowId) -> (r: Option<WorkflowCheckpoint>)
        ensures
            ({
                let w = workflow_id@;
                match r {
                    Some(cp) => self@.contains_key(w) && self@[w].len() > 0 && cp@
                        == self@[w].last()@,
                    None => !self@.contains_key(w) || self@[w].len() == 0,
                }
            }),
    {
        match self.entries.get(workflow_id) {
            Some(list) => {
                if list.len() == 0 {
                    None
                } else {
                    Some(list[list.len() - 1].clone())
                }
            },
            None => None,
        }
    }

    /// Forgets all checkpoints of the workflow; a later `latest` for it
    /// returns absent.
    pub fn clear(&mut self, workflow_id: &WorkflowId)
        ensures
            final(self)@ == old(self)@.remove(workflow_id@),
    {
        let taken = self.entries.take(workflow_id);
        proof {
            assert(self@ =~= old(self)@.remove(workflow_id@));
        }
        let _ = taken;
    }
}

impl Default for InMemoryCheckpointStorage {
    /// Same as `new`: an empty store.
    fn default() -> (r: Self)
        ensures
            r@ == Map::<Seq<char>, Seq<WorkflowCheckpoint>>::empty(),
    {
        InMemoryCheckpointStorage::new()
    }
}

} // verus!
