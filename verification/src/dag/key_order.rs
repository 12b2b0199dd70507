//! The order in which a `BTreeMap` with `u64` keys hands out its keys.
use vstd::prelude::*;
use vstd::std_specs::btree::increasing_seq;
use vstd::std_specs::cmp::OrdSpec;

verus! {

/// Whether `a` comes before `b` in the order of `K`.
spec fn ordered_before<K: Ord>(a: K, b: K) -> bool {
    a.cmp_spec(&b) is Less
}

/// Keys that a `BTreeMap` walks in increasing order strictly increase.
pub(crate) proof fn lemma_keys_increasing(s: Seq<&u64>)
    requires
        increasing_seq(s),
    ensures
        forall|i: int, j: int| 0 <= i < j < s.len() ==> *s[i] < *s[j],
{
    broadcast use {vstd::laws_cmp::group_laws_cmp, vstd::std_specs::btree::axiom_increasing_seq_meaning};

    assert(vstd::laws_cmp::obeys_cmp::<u64>());
    assert(vstd::laws_cmp::obeys_cmp::<&u64>());
    vstd::std_specs::btree::axiom_increasing_seq_meaning::<&u64>(s);
    assert forall|i: int, j: int| 0 <= i < j < s.len() implies *s[i] < *s[j] by {
        assert(ordered_before(s[i], s[j]));
    }
}

} // verus!
