//! A stable descending order of items by integer keys: the order in which
//! the players tab lists a team, best first, keeping roster order on ties.

use vstd::prelude::*;
use vstd::set_lib::{lemma_int_range, lemma_subset_equality, set_int_range};

verus! {

/// `order` lists every index below `n` exactly once.
pub open spec fn is_index_permutation(order: Seq<usize>, n: nat) -> bool {
    &&& order.len() == n
    &&& forall|a: int| 0 <= a < order.len() ==> #[trigger] order[a] < n
    &&& forall|a: int, b: int| 0 <= a < b < order.len() ==> order[a] != order[b]
}

/// `order` lists the indices of `keys` by descending key, and indices with
/// equal keys in ascending index order (a stable sort).
pub open spec fn is_stable_descending(keys: Seq<i64>, order: Seq<usize>) -> bool {
    &&& is_index_permutation(order, keys.len())
    &&& forall|a: int, b: int| 0 <= a < b < order.len() ==> keys[order[a] as int] >= keys[order[b] as int]
    &&& forall|a: int, b: int|
        0 <= a < b < order.len() && keys[order[a] as int] == keys[order[b] as int] ==> order[a] < order[b]
}

/// The indices of `keys` sorted by descending key, ties kept in index order.
pub fn stable_descending_order(keys: &Vec<i64>) -> (order: Vec<usize>)
    ensures
        is_stable_descending(keys@, order@),
{
    let n = keys.len();
    let mut order: Vec<usize> = Vec::new();
    let mut i: usize = 0;
    while i < n
        invariant
            n == keys@.len(),
            i <= n,
            is_stable_descending(keys@.subrange(0, i as int), order@),
            forall|a: int| 0 <= a < order@.len() ==> #[trigger] order@[a] < i,
        decreases n - i,
    {
        let k = keys[i];
        let mut pos: usize = 0;
        while pos < order.len() && keys[order[pos]] >= k
            invariant
                n == keys@.len(),
                i < n,
                k == keys@[i as int],
                pos <= order@.len(),
                order@.len() == i,
                forall|a: int| 0 <= a < order@.len() ==> #[trigger] order@[a] < i,
                forall|a: int| 0 <= a < pos ==> keys@[#[trigger] order@[a] as int] >= k,
            decreases order.len() - pos,
        {
            pos = pos + 1;
        }
        let ghost prev = order@;
        let ghost prefix = keys@.subrange(0, i as int);
        let ghost next = keys@.subrange(0, i + 1);
        proof {
            assert forall|a: int| 0 <= a < prev.len() implies prefix[prev[a] as int] == keys@[prev[a] as int] by {
            }
            assert forall|a: int| pos <= a < prev.len() implies keys@[prev[a] as int] < k by {
                assert(keys@[prev[pos as int] as int] < k);
                assert(prefix[prev[pos as int] as int] >= prefix[prev[a] as int]);
            }
        }
        order.insert(pos, i);
        proof {
            let cur = order@;
            assert(cur.len() == i + 1);
            assert forall|a: int| 0 <= a < cur.len() implies #[trigger] cur[a] < i + 1 && next[cur[a] as int] == keys@[cur[a] as int] by {
                if a < pos {
                    assert(cur[a] == prev[a]);
                } else if a > pos {
                    assert(cur[a] == prev[a - 1]);
                }
            }
            assert forall|a: int, b: int| 0 <= a < b < cur.len() implies cur[a] != cur[b]
                && next[cur[a] as int] >= next[cur[b] as int]
                && (next[cur[a] as int] == next[cur[b] as int] ==> cur[a] < cur[b]) by {
                if b < pos {
                    assert(cur[a] == prev[a] && cur[b] == prev[b]);
                } else if b == pos {
                    assert(cur[a] == prev[a]);
                } else if a < pos {
                    assert(cur[a] == prev[a] && cur[b] == prev[b - 1]);
                } else if a == pos {
                    assert(cur[b] == prev[b - 1]);
                } else {
                    assert(cur[a] == prev[a - 1] && cur[b] == prev[b - 1]);
                }
            }
        }
        i = i + 1;
    }
    assert(keys@.subrange(0, n as int) =~= keys@);
    order
}

/// An index permutation lists every index below `n`.
pub proof fn lemma_permutation_covers(order: Seq<usize>, n: nat, v: int)
    requires
        is_index_permutation(order, n),
        0 <= v < n,
    ensures
        exists|b: int| 0 <= b < n && order[b] == v,
{
    let ints = order.map_values(|x: usize| x as int);
    assert(ints.no_duplicates()) by {
        assert forall|i: int, j: int| 0 <= i < ints.len() && 0 <= j < ints.len() && i != j implies ints[i] != ints[j] by {
            if i < j {
                assert(order[i] != order[j]);
            } else {
                assert(order[j] != order[i]);
            }
        }
    }
    ints.unique_seq_to_set();
    lemma_int_range(0, n as int);
    assert(ints.to_set().subset_of(set_int_range(0, n as int))) by {
        assert forall|x: int| ints.to_set().contains(x) implies set_int_range(0, n as int).contains(x) by {
            let i = choose|i: int| 0 <= i < ints.len() && ints[i] == x;
            assert(order[i] < n);
        }
    }
    ints.lemma_cardinality_of_set();
    lemma_subset_equality(ints.to_set(), set_int_range(0, n as int));
    assert(set_int_range(0, n as int).contains(v));
    assert(ints.to_set().contains(v));
    let b = choose|b: int| 0 <= b < ints.len() && ints[b] == v;
    assert(order[b] == v);
}

proof fn lemma_stable_prefix_equal(keys: Seq<i64>, o1: Seq<usize>, o2: Seq<usize>, k: int)
    requires
        is_stable_descending(keys, o1),
        is_stable_descending(keys, o2),
        0 <= k <= keys.len(),
    ensures
        forall|a: int| 0 <= a < k ==> o1[a] == o2[a],
    decreases k,
{
    if k > 0 {
        lemma_stable_prefix_equal(keys, o1, o2, k - 1);
        let a = k - 1;
        let n = keys.len();
        let p = o1[a];
        let q = o2[a];
        if p != q {
            lemma_permutation_covers(o1, n, q as int);
            lemma_permutation_covers(o2, n, p as int);
            let b = choose|b: int| 0 <= b < n && o1[b] == q;
            let c = choose|c: int| 0 <= c < n && o2[c] == p;
            if b < a {
                assert(o2[b] == q);
            }
            if c < a {
                assert(o1[c] == p);
            }
            assert(b > a && c > a);
            assert(keys[p as int] >= keys[q as int]);
            assert(keys[q as int] >= keys[p as int]);
            assert(p < q);
            assert(q < p);
        }
    }
}

/// There is exactly one stable descending order of a list of keys.
pub proof fn law_stable_descending_unique(keys: Seq<i64>, o1: Seq<usize>, o2: Seq<usize>)
    requires
        is_stable_descending(keys, o1),
        is_stable_descending(keys, o2),
    ensures
        o1 == o2,
{
    lemma_stable_prefix_equal(keys, o1, o2, keys.len() as int);
    assert(o1 =~= o2);
}

} // verus!
