//! The executor: check the store, run the action on a miss, persist the
//! result, and hand every caller of a key one consistent value.

use vstd::prelude::*;
use crate::action::IdempotentAction;
use crate::error::IdempotencyError;
use crate::key::IdempotencyKey;
use crate::storage::IdempotencyStorage;

verus! {

/// Executes an action at most once per idempotency key.
pub struct IdempotentExecutor<A, S> where
    A: IdempotentAction,
    S: IdempotencyStorage<Value = A::Output>,
 {
    pub storage: S,
    pub action: A,
}

impl<A, S> IdempotentExecutor<A, S> where
    A: IdempotentAction,
    S: IdempotencyStorage<Value = A::Output>,
 {
    /// Binds an action to a storage backend.
    pub fn new(action: A, storage: S) -> (r: Self)
        ensures
            r.action == action,
            r.storage == storage,
    {
        IdempotentExecutor { action, storage }
    }

    /// Executes the action under `key`, or returns the value already stored
    /// under it.
    ///
    /// On a hit the store is untouched and the stored value comes back; the
    /// action is never invoked. On a miss the action runs once, on `input`:
    /// a success, as the action's own contract describes it, is persisted
    /// under `key` before it is returned; a failure — the action's own, or
    /// a storage failure — is propagated with nothing persisted, so a retry
    /// with the same key re-attempts the action.
    pub fn execute(&mut self, key: IdempotencyKey, input: A::Input) -> (r: Result<
        A::Output,
        IdempotencyError,
    >)
        ensures
            final(self).action == old(self).action,
            match r {
                Ok(v) => ({
                    let m0 = old(self).storage.contents();
                    let m1 = final(self).storage.contents();
                    if m0.contains_key(key@) {
                        m1 == m0 && cloned(m0[key@], v)
                    } else {
                        m1.contains_key(key@) && m1 == m0.insert(key@, m1[key@]) && cloned(
                            v,
                            m1[key@],
                        ) && call_ensures(A::execute, (&old(self).action, input), Ok(v))
                    }
                }),
                Err(e) => ({
                    let m0 = old(self).storage.contents();
                    final(self).storage.contents() == m0 && (m0.contains_key(key@)
                        ==> e is Storage) && (!m0.contains_key(key@) ==> (e is Storage
                        || call_ensures(A::execute, (&old(self).action, input), Err(e))))
                }),
            },
    {
        match self.storage.get(&key) {
            Err(e) => Err(e),
            Ok(Some(cached)) => Ok(cached),
            Ok(None) => {
                match self.action.execute(input) {
                    Err(e) => Err(e),
                    Ok(out) => {
                        let stored = out.clone();
                        match self.storage.set(key, stored) {
                            Err(e) => Err(e),
                            Ok(u) => Ok(out),
                        }
                    },
                }
            },
        }
    }
}

/// Idempotence: once a miss has persisted a value under a key, the key is
/// bound to exactly that value, so by the executor's contract any repeated
/// execution with the same key is a hit: it leaves the store unchanged and
/// returns that same stored value, and the action does not run again.
pub proof fn lemma_idempotence<V>(m0: Map<Seq<char>, V>, k: Seq<char>, w: V)
    ensures
        m0.insert(k, w).contains_key(k),
        m0.insert(k, w)[k] == w,
{
}

/// No poison on failure: a failed attempt leaves the store as it was, so a
/// key that was unseen before the failure is unseen after it, and by the
/// executor's contract a retry with that key takes the miss path and
/// re-attempts the action.
pub proof fn lemma_no_poison_on_failure<V>(m0: Map<Seq<char>, V>, m1: Map<Seq<char>, V>, k: Seq<
    char,
>)
    requires
        !m0.contains_key(k),
        m1 == m0,
    ensures
        !m1.contains_key(k),
{
}

/// Key isolation: persisting a result under one key neither adds, removes,
/// nor alters what is stored under any other key, so executions under
/// distinct keys never share cached results, whatever their inputs.
pub proof fn lemma_key_isolation<V>(m0: Map<Seq<char>, V>, k1: Seq<char>, k2: Seq<char>, w: V)
    requires
        k1 != k2,
    ensures
        m0.insert(k1, w).contains_key(k2) == m0.contains_key(k2),
        m0.contains_key(k2) ==> m0.insert(k1, w)[k2] == m0[k2],
{
}

} // verus!
