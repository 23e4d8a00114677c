//! Request-scoped deduplication: the executor's hit/miss/persist protocol
//! for ad hoc work supplied per call, without a named action type.

use vstd::prelude::*;
use crate::assoc::AssocList;
use crate::error::IdempotencyError;
use crate::key::IdempotencyKey;

verus! {

/// Deduplicates caller-supplied units of work over a single key space.
pub struct RequestIdempotencyManager<V> {
    cache: AssocList<V>,
}

impl<V: Clone> View for RequestIdempotencyManager<V> {
    type V = Map<Seq<char>, V>;

    /// The map from key text to cached result.
    closed spec fn view(&self) -> Map<Seq<char>, V> {
        self.cache@
    }
}

impl<V: Clone> RequestIdempotencyManager<V> {
    /// A manager with an empty cache.
    pub fn new() -> (r: Self)
        ensures
            r@ == Map::<Seq<char>, V>::empty(),
    {
        RequestIdempotencyManager { cache: AssocList::new() }
    }

    /// Runs `work` under `key`, or returns the value already cached under
    /// it.
    ///
    /// On a hit, `work` never runs, the cache is untouched, and the cached
    /// value comes back. On a miss, `work` runs once and its result is
    /// returned as it came: a success is cached under `key` first, a
    /// failure leaves the cache unchanged, so a retry re-attempts the work.
    pub fn execute_request<F: FnOnce() -> Result<V, IdempotencyError>>(
        &mut self,
        key: IdempotencyKey,
        work: F,
    ) -> (r: Result<V, IdempotencyError>)
        requires
            work.requires(()),
        ensures
            old(self)@.contains_key(key@) ==> final(self)@ == old(self)@ && (r matches Ok(v)
                && cloned(old(self)@[key@], v)),
            !old(self)@.contains_key(key@) ==> call_ensures(work, (), r) && (match r {
                Ok(v) => final(self)@.contains_key(key@) && final(self)@ == old(self)@.insert(
                    key@,
                    final(self)@[key@],
                ) && cloned(v, final(self)@[key@]),
                Err(e) => final(self)@ == old(self)@,
            }),
    {
        match self.cache.get(&key.0) {
            Some(v) => Ok(v.clone()),
            None => {
                match work() {
                    Err(e) => Err(e),
                    Ok(out) => {
                        let stored = out.clone();
                        self.cache.insert(key.0, stored);
                        Ok(out)
                    },
                }
            },
        }
    }
}

impl<V: Clone> Default for RequestIdempotencyManager<V> {
    /// Same as `new`: a manager with an empty cache.
    fn default() -> (r: Self)
        ensures
            r@ == Map::<Seq<char>, V>::empty(),
    {
        RequestIdempotencyManager::new()
    }
}

} // verus!
