//! Per-key single-flight coordination.
//!
//! A bare check-then-execute-then-store sequence lets two callers racing on
//! the same unseen key both miss the cache and both run the action. This
//! registry closes that gap: a caller first asks `begin`, and execution is
//! granted only to the one caller that finds the key neither cached nor
//! already running. Every other concurrent caller is told the key is in
//! flight and either awaits the winner's result or retries after the
//! winner's `complete_success` has cached it. A driver that performs the
//! actual (possibly suspending) work runs the loop around this state
//! machine; the decisions themselves all live here.

use vstd::prelude::*;
use crate::assoc::AssocList;
use crate::config::ConflictBehavior;
use crate::key::IdempotencyKey;

verus! {

/// What a caller that found its key in flight does next.
#[derive(Clone, Copy, Debug, PartialEq, Eq, Structural)]
pub enum WaitDirective {
    /// Keep waiting for the in-flight execution's result.
    KeepWaiting,
    /// Stop waiting and report a conflict; the in-flight execution
    /// continues unaffected and its result is still persisted.
    GiveUpWithConflict,
}

/// The conflict policy's answer for a caller that has been waiting
/// `waited_ms` on an in-flight key: under `ReturnPrevious` it waits for the
/// winner's result; under `WaitForCompletion` it waits until the timeout
/// and then reports a conflict; `Merge`, having no engine-level merge
/// function, behaves as `ReturnPrevious`.
pub open spec fn wait_directive(behavior: &ConflictBehavior, waited_ms: u64) -> WaitDirective {
    match behavior {
        ConflictBehavior::ReturnPrevious => WaitDirective::KeepWaiting,
        ConflictBehavior::WaitForCompletion { timeout_ms } => if waited_ms >= *timeout_ms {
            WaitDirective::GiveUpWithConflict
        } else {
            WaitDirective::KeepWaiting
        },
        ConflictBehavior::Merge => WaitDirective::KeepWaiting,
    }
}

/// Decides `wait_directive` executably.
pub fn resolve_in_flight_wait(behavior: &ConflictBehavior, waited_ms: u64) -> (r: WaitDirective)
    ensures
        r == wait_directive(behavior, waited_ms),
{
    match behavior {
        ConflictBehavior::ReturnPrevious => WaitDirective::KeepWaiting,
        ConflictBehavior::WaitForCompletion { timeout_ms } => {
            if waited_ms >= *timeout_ms {
                WaitDirective::GiveUpWithConflict
            } else {
                WaitDirective::KeepWaiting
            }
        },
        ConflictBehavior::Merge => WaitDirective::KeepWaiting,
    }
}

/// What a caller is told when it asks to execute under a key.
pub enum BeginOutcome<V> {
    /// A result is already cached; here is a copy of it.
    Cached(V),
    /// The key is unseen and now marked running: this caller alone executes.
    MustExecute,
    /// Another caller is executing the key right now.
    InFlight,
}

/// Execution is granted exactly when the key is neither cached nor running.
pub open spec fn begin_grants_execution<V>(
    cache: Map<Seq<char>, V>,
    running: Set<Seq<char>>,
    k: Seq<char>,
) -> bool {
    !cache.contains_key(k) && !running.contains(k)
}

/// The cache of finished results and the set of keys being executed.
pub struct InFlightRegistry<V> {
    cache: AssocList<V>,
    running: AssocList<()>,
}

impl<V: Clone> InFlightRegistry<V> {
    /// The map from key text to cached result.
    pub closed spec fn cached(&self) -> Map<Seq<char>, V> {
        self.cache@
    }

    /// The set of key texts currently being executed.
    pub closed spec fn in_flight(&self) -> Set<Seq<char>> {
        self.running@.dom()
    }

    /// An empty registry: nothing cached, nothing running.
    pub fn new() -> (r: Self)
        ensures
            r.cached() == Map::<Seq<char>, V>::empty(),
            r.in_flight() == Set::<Seq<char>>::empty(),
    {
        let r = InFlightRegistry { cache: AssocList::new(), running: AssocList::new() };
        proof {
            assert(r.in_flight() =~= Set::<Seq<char>>::empty());
        }
        r
    }

    /// Asks to execute under `key`. Exactly one of three answers comes back:
    /// a copy of the cached result; the grant to execute, which marks the
    /// key running; or the news that the key is already in flight.
    pub fn begin(&mut self, key: &IdempotencyKey) -> (r: BeginOutcome<V>)
        ensures
            ({
                let cache0 = old(self).cached();
                let running0 = old(self).in_flight();
                let cache1 = final(self).cached();
                let running1 = final(self).in_flight();
                match r {
                    BeginOutcome::Cached(v) => cache0.contains_key(key@) && cloned(
                        cache0[key@],
                        v,
                    ) && cache1 == cache0 && running1 == running0,
                    BeginOutcome::MustExecute => begin_grants_execution(cache0, running0, key@)
                        && cache1 == cache0 && running1 == running0.insert(key@),
                    BeginOutcome::InFlight => !cache0.contains_key(key@) && running0.contains(key@)
                        && cache1 == cache0 && running1 == running0,
                }
            }),
    {
        match self.cache.get(&key.0) {
            Some(v) => BeginOutcome::Cached(v.clone()),
            None => {
                match self.running.get(&key.0) {
                    Some(u) => BeginOutcome::InFlight,
                    None => {
                        self.running.insert(key.0.clone(), ());
                        proof {
                            assert(self.in_flight() =~= old(self).in_flight().insert(key@));
                        }
                        BeginOutcome::MustExecute
                    },
                }
            },
        }
    }

    /// Reports that the granted execution finished with `value`: the result
    /// is cached for every later and every waiting caller, and the key is no
    /// longer in flight.
    pub fn complete_success(&mut self, key: &IdempotencyKey, value: V)
        ensures
            final(self).cached() == old(self).cached().insert(key@, value),
            final(self).in_flight() == old(self).in_flight().remove(key@),
    {
        self.cache.insert(key.0.clone(), value);
        let cleared = self.running.take(&key.0);
        proof {
            assert(self.in_flight() =~= old(self).in_flight().remove(key@));
        }
        let _ = cleared;
    }

    /// Reports that the granted execution failed: nothing is cached, and the
    /// key is no longer in flight, so a retry re-attempts the work.
    pub fn complete_failure(&mut self, key: &IdempotencyKey)
        ensures
            final(self).cached() == old(self).cached(),
            final(self).in_flight() == old(self).in_flight().remove(key@),
    {
        let cleared = self.running.take(&key.0);
        proof {
            assert(self.in_flight() =~= old(self).in_flight().remove(key@));
        }
        let _ = cleared;
    }
}

/// Single flight: for a key that is neither cached nor running, execution is
/// granted, and the grant marks the key running; from then on, as long as
/// the key stays in flight, no further caller is granted execution for it —
/// whatever else is cached or running — so at most one execution per key is
/// ever in flight at a time. The mark falls only with a completion, whose
/// caching (on success) sends every later caller down the cached path.
pub proof fn lemma_single_flight<V>(cache: Map<Seq<char>, V>, running: Set<Seq<char>>, k: Seq<
    char,
>)
    requires
        begin_grants_execution(cache, running, k),
    ensures
        !begin_grants_execution(cache, running.insert(k), k),
        forall|cache2: Map<Seq<char>, V>, running2: Set<Seq<char>>|
            running2.contains(k) ==> !begin_grants_execution(cache2, running2, k),
{
}

} // verus!
