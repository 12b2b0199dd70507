//! How the number of stored nodes changes when one round gains a node.
use vstd::prelude::*;
use vstd::seq_lib::{commutative_foldl, lemma_fold_left_permutation};

use crate::dag::store::{all_stored_nodes, increasing, nodes_in_rounds, round_nodes, sorted_rounds, StoredNodeStatus};

verus! {

/// The number of nodes stored in round `k`.
spec fn round_size<N>(rounds: Map<u64, Seq<Option<StoredNodeStatus<N>>>>, k: u64) -> nat {
    round_nodes(rounds, k).len()
}

/// Adds the size of a round to a running count.
spec fn size_adder<N>(rounds: Map<u64, Seq<Option<StoredNodeStatus<N>>>>) -> spec_fn(nat, u64) -> nat {
    |acc: nat, k: u64| acc + round_size(rounds, k)
}

proof fn lemma_count_is_fold<N>(rounds: Map<u64, Seq<Option<StoredNodeStatus<N>>>>, ks: Seq<u64>)
    ensures
        nodes_in_rounds(rounds, ks).len() == ks.fold_left(0nat, size_adder(rounds)),
    decreases ks.len(),
{
    if ks.len() > 0 {
        lemma_count_is_fold(rounds, ks.drop_last());
    }
}

proof fn lemma_fold_one_round_more<N>(
    a: Map<u64, Seq<Option<StoredNodeStatus<N>>>>,
    b: Map<u64, Seq<Option<StoredNodeStatus<N>>>>,
    r: u64,
    ks: Seq<u64>,
)
    requires
        ks.no_duplicates(),
        forall|k: u64| k != r ==> #[trigger] round_size(a, k) == round_size(b, k),
        round_size(a, r) == round_size(b, r) + 1,
    ensures
        ks.fold_left(0nat, size_adder(a)) == ks.fold_left(0nat, size_adder(b)) + if ks.contains(r) {
            1nat
        } else {
            0nat
        },
    decreases ks.len(),
{
    if ks.len() > 0 {
        let pre = ks.drop_last();
        let last = ks.last();
        assert(pre.no_duplicates());
        lemma_fold_one_round_more(a, b, r, pre);
        assert(ks =~= pre.push(last));
        if last == r {
            assert(!pre.contains(r)) by {
                if pre.contains(r) {
                    let j = choose|j: int| 0 <= j < pre.len() && pre[j] == r;
                    assert(ks[j] == ks[ks.len() - 1]);
                }
            }
            assert(ks.contains(r)) by {
                assert(ks[ks.len() - 1] == r);
            }
        } else {
            assert(ks.contains(r) == pre.contains(r)) by {
                if ks.contains(r) {
                    let j = choose|j: int| 0 <= j < ks.len() && ks[j] == r;
                    assert(pre[j] == r);
                }
                if pre.contains(r) {
                    let j = choose|j: int| 0 <= j < pre.len() && pre[j] == r;
                    assert(ks[j] == r);
                }
            }
        }
    }
}

proof fn lemma_same_set_same_multiset(s1: Seq<u64>, s2: Seq<u64>)
    requires
        s1.no_duplicates(),
        s2.no_duplicates(),
        s1.to_set() == s2.to_set(),
    ensures
        s1.to_multiset() == s2.to_multiset(),
{
    broadcast use vstd::seq_lib::group_to_multiset_ensures;

    s1.lemma_multiset_has_no_duplicates();
    s2.lemma_multiset_has_no_duplicates();
    assert forall|x: u64| s1.to_multiset().count(x) == s2.to_multiset().count(x) by {
        assert(s1.to_set().contains(x) == s1.contains(x));
        assert(s2.to_set().contains(x) == s2.contains(x));
    }
    assert(s1.to_multiset() =~= s2.to_multiset());
}

/// A finite set of rounds has an increasing enumeration.
pub(crate) proof fn lemma_sorted_exists(d: Set<u64>)
    requires
        d.finite(),
    ensures
        increasing(sorted_rounds(d)),
        sorted_rounds(d).to_set() == d,
    decreases d.len(),
{
    if d.len() == 0 {
        assert(Seq::<u64>::empty().to_set() =~= d);
        assert(increasing(Seq::<u64>::empty()));
    } else {
        let leq = |a: u64, b: u64| a <= b;
        assert(vstd::relations::total_ordering(leq));
        d.find_unique_maximal_ensures(leq);
        let m = d.find_unique_maximal(leq);
        assert forall|x: u64| d.contains(x) implies x <= m by {
            assert(leq(m, x) ==> leq(x, m));
        }
        let rest = d.remove(m);
        lemma_sorted_exists(rest);
        let s = sorted_rounds(rest);
        let t = s.push(m);
        assert forall|a: int, b: int| 0 <= a < b < t.len() implies t[a] < t[b] by {
            if b < t.len() - 1 {
                assert(t[a] == s[a] && t[b] == s[b]);
            } else {
                assert(s.to_set().contains(s[a]));
                assert(t[a] == s[a]);
            }
        }
        assert forall|x: u64| t.to_set().contains(x) <==> d.contains(x) by {
            if t.contains(x) {
                let j = choose|j: int| 0 <= j < t.len() && t[j] == x;
                if j < s.len() {
                    assert(s[j] == x);
                    assert(s.to_set().contains(x));
                }
            }
            if d.contains(x) {
                if x == m {
                    assert(t[t.len() - 1] == x);
                } else {
                    assert(rest.contains(x));
                    assert(s.to_set().contains(x));
                    let j = choose|j: int| 0 <= j < s.len() && s[j] == x;
                    assert(t[j] == x);
                }
            }
        }
        assert(t.to_set() =~= d);
    }
}

proof fn lemma_increasing_distinct(s: Seq<u64>)
    requires
        increasing(s),
    ensures
        s.no_duplicates(),
{
    assert forall|a: int, b: int| 0 <= a < s.len() && 0 <= b < s.len() && a != b implies s[a] != s[b] by {
        if a < b {
            assert(s[a] < s[b]);
        } else {
            assert(s[b] < s[a]);
        }
    }
}

/// When round `r` gains one node and every other round keeps its nodes, the
/// DAG holds one node more.
pub(crate) proof fn lemma_count_grows<N>(
    after: Map<u64, Seq<Option<StoredNodeStatus<N>>>>,
    before: Map<u64, Seq<Option<StoredNodeStatus<N>>>>,
    r: u64,
)
    requires
        before.dom().finite(),
        after.dom() == before.dom().insert(r),
        forall|k: u64| k != r ==> #[trigger] round_nodes(after, k).len() == round_nodes(before, k).len(),
        round_nodes(after, r).len() == round_nodes(before, r).len() + 1,
    ensures
        all_stored_nodes(after).len() == all_stored_nodes(before).len() + 1,
{
    assert forall|k: u64| k != r implies #[trigger] round_size(after, k) == round_size(before, k) by {
        assert(round_nodes(after, k).len() == round_nodes(before, k).len());
    }
    lemma_sorted_exists(before.dom());
    lemma_sorted_exists(after.dom());
    let kb = sorted_rounds(before.dom());
    let ka = sorted_rounds(after.dom());
    lemma_increasing_distinct(kb);
    lemma_increasing_distinct(ka);
    lemma_count_is_fold(after, ka);
    lemma_count_is_fold(before, kb);
    lemma_fold_one_round_more(after, before, r, kb);
    if before.dom().contains(r) {
        assert(after.dom() =~= before.dom());
        assert(kb.to_set().contains(r));
    } else {
        assert(!kb.contains(r)) by {
            if kb.contains(r) {
                assert(kb.to_set().contains(r));
            }
        }
        let kp = kb.push(r);
        assert(kp.no_duplicates()) by {
            assert forall|a: int, b: int| 0 <= a < kp.len() && 0 <= b < kp.len() && a != b implies kp[a]
                != kp[b] by {
                if a < kb.len() && b < kb.len() {
                    assert(kp[a] == kb[a] && kp[b] == kb[b]);
                } else if a < kb.len() {
                    assert(kb.contains(kp[a]));
                } else {
                    assert(kb.contains(kp[b]));
                }
            }
        }
        assert(kp.to_set() =~= after.dom()) by {
            assert forall|x: u64| kp.to_set().contains(x) <==> after.dom().contains(x) by {
                if kp.contains(x) {
                    let j = choose|j: int| 0 <= j < kp.len() && kp[j] == x;
                    if j < kb.len() {
                        assert(kb[j] == x);
                        assert(kb.to_set().contains(x));
                    }
                }
                if after.dom().contains(x) && x != r {
                    assert(kb.to_set().contains(x));
                    let j = choose|j: int| 0 <= j < kb.len() && kb[j] == x;
                    assert(kp[j] == x);
                }
                if x == r {
                    assert(kp[kp.len() - 1] == x);
                }
            }
        }
        lemma_same_set_same_multiset(ka, kp);
        let f = size_adder(after);
        assert(commutative_foldl(f)) by {
            assert forall|x: u64, y: u64, v: nat| #[trigger] f(f(v, x), y) == f(f(v, y), x) by {}
        }
        lemma_fold_left_permutation(ka, kp, f, 0nat);
        assert(kp.drop_last() =~= kb);
        assert(round_nodes(before, r).len() == 0);
    }
}

} // verus!
