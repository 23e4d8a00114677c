//! Opaque JSON payloads carried through checkpoints.
//!
//! Step outputs and workflow variables are JSON values. The engine stores
//! and hands them back but never reads inside one, so the type is declared
//! opaquely.

use vstd::prelude::*;

verus! {

/// `serde_json::Value`, declared so that checkpoints can carry JSON
/// payloads; the engine treats a value as opaque.
#[verifier::external_type_specification]
#[verifier::external_body]
pub struct ExValue(serde_json::Value);

/// Relies on `serde_json::Value::clone`, the derived clone of a plain data
/// enum: the copy equals the original.
pub assume_specification[ <serde_json::Value as Clone>::clone ](v: &serde_json::Value) -> (r:
    serde_json::Value)
    ensures
        r == *v,
;

} // verus!
