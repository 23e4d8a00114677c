//! The coarse state a workflow execution is in.

use vstd::prelude::*;

verus! {

/// State of a workflow execution.
#[derive(Clone, Copy, Debug, PartialEq, Eq, Structural)]
pub enum WorkflowState {
    Running,
    Completed,
    Failed,
}

} // verus!
