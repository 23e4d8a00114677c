//! Sets of workflow step identities, as carried in checkpoints.

use vstd::prelude::*;

verus! {

/// The set of step identities a list of step names denotes.
pub open spec fn node_set(nodes: Seq<String>) -> Set<Seq<char>> {
    Set::new(
        |k: Seq<char>| exists|i: int| 0 <= i < nodes.len() && (#[trigger] nodes[i])@ == k,
    )
}

/// Whether `node` is among `nodes`.
pub(crate) fn contains_node(nodes: &Vec<String>, node: &String) -> (r: bool)
    ensures
        r == node_set(nodes@).contains(node@),
{
    let n = nodes.len();
    let mut i: usize = 0;
    while i < n
        invariant
            n == nodes@.len(),
            i <= n,
            forall|j: int| 0 <= j < i ==> (#[trigger] nodes@[j])@ != node@,
        decreases n - i,
    {
        if nodes[i] == *node {
            return true;
        }
        i += 1;
    }
    false
}

/// Whether every step named in `sub` is also named in `sup`.
pub(crate) fn is_subset(sub: &Vec<String>, sup: &Vec<String>) -> (r: bool)
    ensures
        r == (node_set(sub@) <= node_set(sup@)),
{
    let n = sub.len();
    let mut i: usize = 0;
    while i < n
        invariant
            n == sub@.len(),
            i <= n,
            forall|j: int| 0 <= j < i ==> node_set(sup@).contains((#[trigger] sub@[j])@),
        decreases n - i,
    {
        if !contains_node(sup, &sub[i]) {
            proof {
                assert(node_set(sub@).contains(sub@[i as int]@));
            }
            return false;
        }
        i += 1;
    }
    proof {
        assert forall|k: Seq<char>| node_set(sub@).contains(k) implies node_set(
            sup@,
        ).contains(k) by {
            let j = choose|j: int| 0 <= j < sub@.len() && (#[trigger] sub@[j])@ == k;
            assert(node_set(sup@).contains(sub@[j]@));
        }
    }
    true
}

} // verus!
