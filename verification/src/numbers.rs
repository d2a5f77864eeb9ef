//! A set of partition numbers kept in a `BTreeSet`.
use vstd::prelude::*;
use std::collections::BTreeSet;

verus! {

/// Whether `n` is in the set.
pub fn has_number(used: &BTreeSet<u64>, n: u64) -> (r: bool)
    ensures
        r == used@.contains(n),
{
    broadcast use vstd::std_specs::btree::group_btree_axioms, vstd::laws_cmp::group_laws_cmp;

    used.contains(&n)
}

/// Adds `n` to the set.
pub fn add_number(used: &mut BTreeSet<u64>, n: u64)
    ensures
        final(used)@ == old(used)@.insert(n),
{
    broadcast use vstd::std_specs::btree::group_btree_axioms, vstd::laws_cmp::group_laws_cmp;

    used.insert(n);
}

} // verus!
