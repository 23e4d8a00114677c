//! The storage contract for deduplicated results, and its in-memory
//! reference implementation.

use vstd::prelude::*;
use crate::assoc::AssocList;
use crate::error::IdempotencyError;
use crate::key::IdempotencyKey;

verus! {

/// A backend holding results keyed by idempotency key.
///
/// `contents` is the mathematical content of the store: the map from key
/// text to stored value. Every operation may fail with a `Storage` error;
/// a failed operation leaves the content unchanged (each call is atomic).
pub trait IdempotencyStorage: Sized {
    type Value: Clone;

    /// The map from key text to stored value.
    spec fn contents(&self) -> Map<Seq<char>, Self::Value>;

    /// Looks a key up. A `Some` result is a clone of the stored value;
    /// `None` means the key is absent.
    fn get(&self, key: &IdempotencyKey) -> (r: Result<Option<Self::Value>, IdempotencyError>)
        ensures
            match r {
                Ok(found) => match found {
                    Some(v) => self.contents().contains_key(key@) && cloned(
                        self.contents()[key@],
                        v,
                    ),
                    None => !self.contents().contains_key(key@),
                },
                Err(e) => e is Storage,
            },
    ;

    /// Binds a key to a value, overwriting any earlier binding.
    fn set(&mut self, key: IdempotencyKey, value: Self::Value) -> (r: Result<
        (),
        IdempotencyError,
    >)
        ensures
            match r {
                Ok(u) => final(self).contents() == old(self).contents().insert(key@, value),
                Err(e) => final(self).contents() == old(self).contents() && e is Storage,
            },
    ;

    /// Unbinds a key; a later `get` for it returns absent.
    fn remove(&mut self, key: &IdempotencyKey) -> (r: Result<(), IdempotencyError>)
        ensures
            match r {
                Ok(u) => final(self).contents() == old(self).contents().remove(key@),
                Err(e) => final(self).contents() == old(self).contents() && e is Storage,
            },
    ;
}

/// The reference backend: an owned in-memory map. Its operations never fail.
pub struct InMemoryIdempotencyStorage<V> {
    entries: AssocList<V>,
}

impl<V: Clone> InMemoryIdempotencyStorage<V> {
    /// An empty store.
    pub fn new() -> (r: Self)
        ensures
            r.contents() == Map::<Seq<char>, V>::empty(),
    {
        InMemoryIdempotencyStorage { entries: AssocList::new() }
    }
}

impl<V: Clone> Default for InMemoryIdempotencyStorage<V> {
    /// Same as `new`: an empty store.
    fn default() -> (r: Self)
        ensures
            r.contents() == Map::<Seq<char>, V>::empty(),
    {
        InMemoryIdempotencyStorage::new()
    }
}

impl<V: Clone> IdempotencyStorage for InMemoryIdempotencyStorage<V> {
    type Value = V;

    closed spec fn contents(&self) -> Map<Seq<char>, V> {
        self.entries@
    }

    /// In-memory lookup; never fails.
    fn get(&self, key: &IdempotencyKey) -> (r: Result<Option<V>, IdempotencyError>)
        ensures
            r is Ok,
    {
        match self.entries.get(&key.0) {
            Some(v) => Ok(Some(v.clone())),
            None => Ok(None),
        }
    }

    /// In-memory insert; never fails.
    fn set(&mut self, key: IdempotencyKey, value: V) -> (r: Result<(), IdempotencyError>)
        ensures
            r is Ok,
    {
        self.entries.insert(key.0, value);
        Ok(())
    }

    /// In-memory removal; never fails.
    fn remove(&mut self, key: &IdempotencyKey) -> (r: Result<(), IdempotencyError>)
        ensures
            r is Ok,
    {
        let taken = self.entries.take(&key.0);
        proof {
            if !old(self).contents().contains_key(key@) {
                assert(self.contents() =~= old(self).contents().remove(key@));
            }
        }
        let _ = taken;
        Ok(())
    }
}

} // verus!
