//! Association list with unique string keys, the backbone of the in-memory
//! stores. Its view is the finite map from key text to stored value.

use vstd::prelude::*;

verus! {

/// True when some entry of `s` carries the key text `k`.
pub(crate) open spec fn has_key<V>(s: Seq<(String, V)>, k: Seq<char>) -> bool {
    exists|i: int| 0 <= i < s.len() && (#[trigger] s[i]).0@ == k
}

/// The index of the entry carrying the key text `k`.
pub(crate) open spec fn idx_of<V>(s: Seq<(String, V)>, k: Seq<char>) -> int {
    choose|i: int| 0 <= i < s.len() && (#[trigger] s[i]).0@ == k
}

/// The finite map an entry sequence denotes.
pub(crate) open spec fn assoc_view<V>(s: Seq<(String, V)>) -> Map<Seq<char>, V> {
    Map::new(|k: Seq<char>| has_key(s, k), |k: Seq<char>| s[idx_of(s, k)].1)
}

/// No two entries carry the same key text.
pub(crate) open spec fn unique_keys<V>(s: Seq<(String, V)>) -> bool {
    forall|i: int, j: int|
        0 <= i < j < s.len() ==> (#[trigger] s[i]).0@ != (#[trigger] s[j]).0@
}

/// With unique keys, the entry at `i` is the one its own key text leads to.
proof fn lemma_idx_pins<V>(s: Seq<(String, V)>, i: int)
    requires
        unique_keys(s),
        0 <= i < s.len(),
    ensures
        has_key(s, s[i].0@),
        idx_of(s, s[i].0@) == i,
        assoc_view(s).contains_key(s[i].0@),
        assoc_view(s)[s[i].0@] == s[i].1,
{
    assert(has_key(s, s[i].0@));
    let j = idx_of::<V>(s, s[i].0@);
    assert(0 <= j < s.len() && s[j].0@ == s[i].0@);
    if i < j {
        assert(false);
    }
    if j < i {
        assert(false);
    }
}

/// Overwriting the entry at `i` with the same key text updates the view at
/// that key alone.
proof fn lemma_update_view<V>(s: Seq<(String, V)>, i: int, key: String, value: V)
    requires
        unique_keys(s),
        0 <= i < s.len(),
        s[i].0@ == key@,
    ensures
        unique_keys(s.update(i, (key, value))),
        assoc_view(s.update(i, (key, value))) == assoc_view(s).insert(key@, value),
{
    let s2 = s.update(i, (key, value));
    assert forall|a: int, b: int| 0 <= a < b < s2.len() implies (#[trigger] s2[a]).0@ != (
    #[trigger] s2[b]).0@ by {
        assert(s2[a].0@ == s[a].0@);
        assert(s2[b].0@ == s[b].0@);
    }
    assert forall|k: Seq<char>| #![auto] has_key(s2, k) == has_key(s, k) by {
        if has_key(s2, k) {
            let j = choose|j: int| 0 <= j < s2.len() && (#[trigger] s2[j]).0@ == k;
            assert(s[j].0@ == s2[j].0@);
            assert(has_key(s, k));
        }
        if has_key(s, k) {
            let j = choose|j: int| 0 <= j < s.len() && (#[trigger] s[j]).0@ == k;
            assert(s2[j].0@ == s[j].0@);
            assert(has_key(s2, k));
        }
    }
    assert(assoc_view(s2) =~= assoc_view(s).insert(key@, value)) by {
        assert forall|k: Seq<char>| #![auto] has_key(s2, k) implies assoc_view(s2)[k]
            == assoc_view(s).insert(key@, value)[k] by {
            let j2 = idx_of::<V>(s2, k);
            assert(0 <= j2 < s2.len() && s2[j2].0@ == k);
            lemma_idx_pins(s2, j2);
            if k == key@ {
                lemma_idx_pins(s2, i);
                assert(j2 == i);
            } else {
                assert(j2 != i);
                assert(s2[j2] == s[j2]);
                lemma_idx_pins(s, j2);
            }
        }
        assert(has_key(s2, key@)) by {
            assert(s2[i].0@ == key@);
        }
    }
}

/// Appending an entry whose key text is absent inserts it into the view.
proof fn lemma_push_view<V>(s: Seq<(String, V)>, key: String, value: V)
    requires
        unique_keys(s),
        !has_key(s, key@),
    ensures
        unique_keys(s.push((key, value))),
        assoc_view(s.push((key, value))) == assoc_view(s).insert(key@, value),
{
    let s2 = s.push((key, value));
    let n = s.len() as int;
    assert forall|a: int, b: int| 0 <= a < b < s2.len() implies (#[trigger] s2[a]).0@ != (
    #[trigger] s2[b]).0@ by {
        if b < n {
            assert(s2[a] == s[a]);
            assert(s2[b] == s[b]);
        } else {
            assert(s2[a] == s[a]);
            assert(s2[b].0@ == key@);
            assert(s[a].0@ != key@);
        }
    }
    assert forall|k: Seq<char>| #![auto] has_key(s2, k) == (has_key(s, k) || k == key@) by {
        if has_key(s2, k) {
            let j = choose|j: int| 0 <= j < s2.len() && (#[trigger] s2[j]).0@ == k;
            if j < n {
                assert(s[j].0@ == k);
                assert(has_key(s, k));
            } else {
                assert(k == key@);
            }
        }
        if has_key(s, k) {
            let j = choose|j: int| 0 <= j < s.len() && (#[trigger] s[j]).0@ == k;
            assert(s2[j].0@ == k);
            assert(has_key(s2, k));
        }
        if k == key@ {
            assert(s2[n].0@ == k);
            assert(has_key(s2, k));
        }
    }
    assert(assoc_view(s2) =~= assoc_view(s).insert(key@, value)) by {
        assert forall|k: Seq<char>| #![auto] has_key(s2, k) implies assoc_view(s2)[k]
            == assoc_view(s).insert(key@, value)[k] by {
            let j2 = idx_of::<V>(s2, k);
            assert(0 <= j2 < s2.len() && s2[j2].0@ == k);
            lemma_idx_pins(s2, j2);
            if k == key@ {
                lemma_idx_pins(s2, n);
                assert(j2 == n);
            } else {
                assert(j2 != n);
                assert(s2[j2] == s[j2]);
                lemma_idx_pins(s, j2);
            }
        }
    }
}

/// Removing the entry at `i` removes exactly its key from the view.
proof fn lemma_remove_view<V>(s: Seq<(String, V)>, i: int)
    requires
        unique_keys(s),
        0 <= i < s.len(),
    ensures
        unique_keys(s.remove(i)),
        assoc_view(s.remove(i)) == assoc_view(s).remove(s[i].0@),
{
    let s2 = s.remove(i);
    let k0 = s[i].0@;
    assert forall|a: int, b: int| 0 <= a < b < s2.len() implies (#[trigger] s2[a]).0@ != (
    #[trigger] s2[b]).0@ by {
        let a1: int = if a < i { a } else { a + 1 };
        let b1: int = if b < i { b } else { b + 1 };
        assert(s2[a] == s[a1]);
        assert(s2[b] == s[b1]);
    }
    assert forall|k: Seq<char>| #![auto] has_key(s2, k) == (has_key(s, k) && k != k0) by {
        if has_key(s2, k) {
            let j = choose|j: int| 0 <= j < s2.len() && (#[trigger] s2[j]).0@ == k;
            let j1: int = if j < i { j } else { j + 1 };
            assert(s[j1].0@ == s2[j].0@);
            assert(has_key(s, k));
            assert(j1 != i);
            assert(s[j1].0@ != s[i].0@);
        }
        if has_key(s, k) && k != k0 {
            let j = choose|j: int| 0 <= j < s.len() && (#[trigger] s[j]).0@ == k;
            assert(j != i);
            let j2: int = if j < i { j } else { j - 1 };
            assert(s2[j2] == s[j]);
            assert(has_key(s2, k));
        }
    }
    assert(assoc_view(s2) =~= assoc_view(s).remove(k0)) by {
        assert forall|k: Seq<char>| #![auto] has_key(s2, k) implies assoc_view(s2)[k]
            == assoc_view(s).remove(k0)[k] by {
            let j2 = idx_of::<V>(s2, k);
            assert(0 <= j2 < s2.len() && s2[j2].0@ == k);
            lemma_idx_pins(s2, j2);
            let j1: int = if j2 < i { j2 } else { j2 + 1 };
            assert(s2[j2] == s[j1]);
            lemma_idx_pins(s, j1);
        }
    }
}

/// An association list from string keys to values; each key occurs at most
/// once, and the view is the corresponding finite map.
pub(crate) struct AssocList<V> {
    entries: Vec<(String, V)>,
}

impl<V> View for AssocList<V> {
    type V = Map<Seq<char>, V>;

    closed spec fn view(&self) -> Map<Seq<char>, V> {
        assoc_view(self.entries@)
    }
}

impl<V> AssocList<V> {
    #[verifier::type_invariant]
    spec fn wf(&self) -> bool {
        unique_keys(self.entries@)
    }

    /// An empty list.
    pub(crate) fn new() -> (r: Self)
        ensures
            r@ == Map::<Seq<char>, V>::empty(),
    {
        let r = AssocList { entries: Vec::new() };
        proof {
            assert(r@ =~= Map::<Seq<char>, V>::empty());
        }
        r
    }

    /// The index of the entry carrying `key`, if any.
    fn index_of_key(&self, key: &String) -> (r: Option<usize>)
        ensures
            match r {
                Some(i) => i < self.entries@.len() && self.entries@[i as int].0@ == key@,
                None => !has_key(self.entries@, key@),
            },
    {
        let n = self.entries.len();
        let mut i: usize = 0;
        while i < n
            invariant
                n == self.entries@.len(),
                i <= n,
                forall|j: int| 0 <= j < i ==> (#[trigger] self.entries@[j]).0@ != key@,
            decreases n - i,
        {
            if self.entries[i].0 == *key {
                return Some(i);
            }
            i += 1;
        }
        None
    }

    /// Looks `key` up; returns the stored value exactly when the view holds it.
    pub(crate) fn get(&self, key: &String) -> (r: Option<&V>)
        ensures
            match r {
                Some(v) => self@.contains_key(key@) && *v == self@[key@],
                None => !self@.contains_key(key@),
            },
    {
        proof {
            use_type_invariant(&*self);
        }
        match self.index_of_key(key) {
            Some(i) => {
                proof {
                    lemma_idx_pins(self.entries@, i as int);
                }
                Some(&self.entries[i].1)
            },
            None => None,
        }
    }

    /// Binds `key` to `value`, overwriting any earlier binding.
    pub(crate) fn insert(&mut self, key: String, value: V)
        ensures
            final(self)@ == old(self)@.insert(key@, value),
    {
        proof {
            use_type_invariant(&*self);
        }
        let idx = self.index_of_key(&key);
        let mut entries: Vec<(String, V)> = Vec::new();
        core::mem::swap(&mut entries, &mut self.entries);
        match idx {
            Some(i) => {
                proof {
                    lemma_update_view(entries@, i as int, key, value);
                }
                entries[i] = (key, value);
            },
            None => {
                proof {
                    lemma_push_view(entries@, key, value);
                }
                entries.push((key, value));
            },
        }
        self.entries = entries;
    }

    /// Unbinds `key`, handing back the value it was bound to, if any.
    pub(crate) fn take(&mut self, key: &String) -> (r: Option<V>)
        ensures
            match r {
                Some(v) => old(self)@.contains_key(key@) && v == old(self)@[key@] && final(self)@
                    == old(self)@.remove(key@),
                None => !old(self)@.contains_key(key@) && final(self)@ == old(self)@,
            },
    {
        proof {
            use_type_invariant(&*self);
        }
        let idx = self.index_of_key(key);
        match idx {
            Some(i) => {
                let mut entries: Vec<(String, V)> = Vec::new();
                core::mem::swap(&mut entries, &mut self.entries);
                proof {
                    lemma_idx_pins(entries@, i as int);
                    lemma_remove_view(entries@, i as int);
                }
                let entry = entries.remove(i);
                self.entries = entries;
                Some(entry.1)
            },
            None => None,
        }
    }
}

} // verus!
