//! The workflow checkpoint engine: durable snapshots of partial workflow
//! progress, the policy that says when to take them, and the store and
//! manager that keep and serve them.

pub mod checkpoint;
pub mod nodes;
pub mod state;
pub mod storage;
pub mod strategies;
