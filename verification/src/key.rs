//! Identity of a deduplicated operation.

use vstd::prelude::*;

verus! {

/// An opaque, immutable identity for one logical operation instance.
///
/// Two keys denote the same operation exactly when their character
/// sequences are equal; the engine never reads anything else out of a key.
#[derive(Clone, Debug, PartialEq, Eq, Hash)]
pub struct IdempotencyKey(pub String);

impl View for IdempotencyKey {
    type V = Seq<char>;

    open spec fn view(&self) -> Seq<char> {
        self.0@
    }
}

impl IdempotencyKey {
    /// Builds a key from its textual form.
    pub fn new(text: String) -> (r: Self)
        ensures
            r@ == text@,
    {
        IdempotencyKey(text)
    }

    /// Compares two keys; equal exactly when their texts are equal.
    pub fn same_as(&self, other: &IdempotencyKey) -> (r: bool)
        ensures
            r == (self@ == other@),
    {
        self.0 == other.0
    }
}

} // verus!
