//! Sorting by a two-part key, which every listing of the dashboard is ordered with.

use vstd::prelude::*;

verus! {

/// What an entry of a listing is ordered by.
#[derive(Clone, Copy, Debug, PartialEq, Eq)]
pub struct SortKey {
    /// Compared first, smaller first.
    pub major: u64,
    /// Compared where the major parts are equal, smaller first.
    pub minor: u64,
}

/// Whether `a` may stand before `b`.
pub open spec fn key_le(a: SortKey, b: SortKey) -> bool {
    a.major < b.major || (a.major == b.major && a.minor <= b.minor)
}

/// Whether `a` must stand before `b`.
pub open spec fn key_lt(a: SortKey, b: SortKey) -> bool {
    a.major < b.major || (a.major == b.major && a.minor < b.minor)
}

/// Whether the entry at position `a` stands before the entry at position `b` once the
/// entries are sorted: the lesser key first and, of two entries with one key, the one that
/// stood first before.
pub open spec fn placed_before(keys: Seq<SortKey>, a: int, b: int) -> bool {
    key_lt(keys[a], keys[b]) || (keys[a] == keys[b] && a < b)
}

/// Whether `order` lists every position below `len` exactly once.
pub open spec fn is_permutation(order: Seq<usize>, len: nat) -> bool {
    &&& order.len() == len
    &&& order.no_duplicates()
    &&& forall|i: int| 0 <= i < order.len() ==> (#[trigger] order[i]) < len
}

/// Whether `order` lists the positions of `keys` in sorted order.
pub open spec fn is_sorted_order(keys: Seq<SortKey>, order: Seq<usize>) -> bool {
    &&& is_permutation(order, keys.len())
    &&& forall|i: int, j: int|
        0 <= i < j < order.len() ==> placed_before(keys, order[i] as int, order[j] as int)
}

fn may_precede(a: SortKey, b: SortKey) -> (r: bool)
    ensures
        r == key_le(a, b),
{
    a.major < b.major || (a.major == b.major && a.minor <= b.minor)
}

/// Sorts entries by their keys and says where each stood before: the position of the
/// entry with the least key comes first, and entries with equal keys keep their order.
pub fn sorted_positions(keys: &Vec<SortKey>) -> (order: Vec<usize>)
    ensures
        is_sorted_order(keys@, order@),
{
    let mut order: Vec<usize> = Vec::new();
    let mut k: usize = 0;
    while k < keys.len()
        invariant
            k <= keys.len(),
            order@.len() == k,
            order@.no_duplicates(),
            forall|i: int| 0 <= i < order@.len() ==> (#[trigger] order@[i]) < k,
            forall|i: int, j: int|
                0 <= i < j < order@.len() ==> placed_before(
                    keys@,
                    order@[i] as int,
                    order@[j] as int,
                ),
        decreases keys.len() - k,
    {
        let item = keys[k];
        let mut p: usize = 0;
        while p < order.len() && may_precede(keys[order[p]], item)
            invariant
                p <= order@.len(),
                order@.len() == k,
                k < keys@.len(),
                item == keys@[k as int],
                forall|i: int| 0 <= i < order@.len() ==> (#[trigger] order@[i]) < k,
                forall|i: int| 0 <= i < p ==> key_le(keys@[order@[i] as int], item),
            decreases order@.len() - p,
        {
            p += 1;
        }
        let ghost before = order@;
        order.insert(p, k);
        proof {
            assert forall|i: int| 0 <= i < order@.len() implies (#[trigger] order@[i]) < k + 1 by {
                if i < p {
                    assert(order@[i] == before[i]);
                } else if i > p {
                    assert(order@[i] == before[i - 1]);
                }
            }
            assert forall|i: int, j: int|
                0 <= i < order@.len() && 0 <= j < order@.len() && i != j implies order@[i]
                != order@[j] by {
                let x = if i < p {
                    i
                } else {
                    i - 1
                };
                let y = if j < p {
                    j
                } else {
                    j - 1
                };
                if i != p && j != p {
                    assert(order@[i] == before[x] && order@[j] == before[y]);
                } else if i == p {
                    assert(order@[j] == before[y]);
                    assert(before[y] < k);
                } else {
                    assert(order@[i] == before[x]);
                    assert(before[x] < k);
                }
            }
            assert forall|i: int, j: int| 0 <= i < j < order@.len() implies placed_before(
                keys@,
                order@[i] as int,
                order@[j] as int,
            ) by {
                if j < p {
                    assert(order@[i] == before[i] && order@[j] == before[j]);
                } else if j == p {
                    assert(order@[i] == before[i]);
                    assert(before[i] < k);
                    assert(key_le(keys@[before[i] as int], item));
                } else if i < p {
                    assert(order@[i] == before[i] && order@[j] == before[j - 1]);
                } else if i == p {
                    assert(order@[j] == before[j - 1]);
                    assert(!key_le(keys@[before[p as int] as int], item));
                    assert(p as int == j - 1 || placed_before(
                        keys@,
                        before[p as int] as int,
                        before[j - 1] as int,
                    ));
                } else {
                    assert(order@[i] == before[i - 1] && order@[j] == before[j - 1]);
                }
            }
        }
        k += 1;
    }
    order
}

/// Lemma: the sorted order of given keys is determined by the keys: there is only one.
pub proof fn lemma_sorted_order_is_unique(keys: Seq<SortKey>, a: Seq<usize>, b: Seq<usize>)
    requires
        is_sorted_order(keys, a),
        is_sorted_order(keys, b),
    ensures
        a == b,
{
    assert forall|x: usize| a.contains(x) <==> b.contains(x) by {
        if a.contains(x) {
            let t = choose|t: int| 0 <= t < a.len() && a[t] == x;
            assert(a[t] < keys.len());
        }
        if b.contains(x) {
            let t = choose|t: int| 0 <= t < b.len() && b[t] == x;
            assert(b[t] < keys.len());
        }
        if x < keys.len() {
            lemma_permutation_hits(a, x);
            lemma_permutation_hits(b, x);
        }
    }
    lemma_sorted_lists_agree(|x: usize, y: usize| placed_before(keys, x as int, y as int), a, b);
}

/// Lemma: a sequence that lists every position below its length exactly once lists each
/// of them somewhere.
pub proof fn lemma_permutation_hits(order: Seq<usize>, position: usize)
    requires
        is_permutation(order, order.len()),
        position < order.len(),
    ensures
        exists|t: int| 0 <= t < order.len() && order[t] == position,
{
    let bound: nat = if order.len() <= usize::MAX {
        order.len()
    } else {
        (usize::MAX + 1) as nat
    };
    let targets = Set::new(|p: usize| p < bound);
    let hit = order.to_set();
    assert(hit.subset_of(targets)) by {
        assert forall|p: usize| hit.contains(p) implies targets.contains(p) by {
            let t = choose|t: int| 0 <= t < order.len() && order[t] == p;
            assert(order[t] < order.len());
        }
    }
    lemma_below_is_finite(bound);
    order.unique_seq_to_set();
    vstd::set_lib::lemma_len_subset(hit, targets);
    vstd::set_lib::lemma_subset_equality(hit, targets);
    assert(targets.contains(position));
    assert(hit.contains(position));
}

/// Lemma: there are exactly `n` positions below `n`, as far as positions go.
pub proof fn lemma_below_is_finite(n: nat)
    requires
        n <= usize::MAX + 1,
    ensures
        Set::new(|p: usize| p < n).finite(),
        Set::new(|p: usize| p < n).len() == n,
    decreases n,
{
    let below = Set::new(|p: usize| p < n);
    if n == 0 {
        assert(below =~= Set::<usize>::empty());
    } else {
        let rest = Set::new(|p: usize| p < (n - 1) as nat);
        lemma_below_is_finite((n - 1) as nat);
        assert(below =~= rest.insert((n - 1) as usize));
    }
}

/// Whether `list` holds nothing twice and everything in it stands before all that follows.
pub open spec fn strictly_ordered<T>(before: spec_fn(T, T) -> bool, list: Seq<T>) -> bool {
    &&& list.no_duplicates()
    &&& forall|i: int, j: int| 0 <= i < j < list.len() ==> before(list[i], list[j])
}

/// Lemma: two lists of the same things, each in the same strict order, are one and the
/// same list. The order need only be such that no two things stand before each other.
pub proof fn lemma_sorted_lists_agree<T>(before: spec_fn(T, T) -> bool, a: Seq<T>, b: Seq<T>)
    requires
        forall|x: T, y: T| #[trigger] before(x, y) ==> !before(y, x),
        strictly_ordered(before, a),
        strictly_ordered(before, b),
        forall|x: T| a.contains(x) <==> b.contains(x),
    ensures
        a == b,
    decreases a.len(),
{
    if a.len() == 0 {
        if b.len() > 0 {
            assert(b.contains(b[0]));
            assert(a.contains(b[0]));
        }
        assert(a =~= b);
    } else {
        assert(a.contains(a[0]));
        assert(b.contains(a[0]));
        let j = choose|j: int| 0 <= j < b.len() && b[j] == a[0];
        assert(b.contains(b[0]));
        assert(a.contains(b[0]));
        let k = choose|k: int| 0 <= k < a.len() && a[k] == b[0];
        if j > 0 {
            assert(before(b[0], b[j]));
            if k > 0 {
                assert(before(a[0], a[k]));
            }
            assert(false);
        }
        let rest_a = a.drop_first();
        let rest_b = b.drop_first();
        assert forall|x: T| rest_a.contains(x) <==> rest_b.contains(x) by {
            if rest_a.contains(x) {
                let t = choose|t: int| 0 <= t < rest_a.len() && rest_a[t] == x;
                assert(a[t + 1] == x);
                assert(a.contains(x));
                assert(x != a[0]);
                let u = choose|u: int| 0 <= u < b.len() && b[u] == x;
                assert(rest_b[u - 1] == x);
            }
            if rest_b.contains(x) {
                let t = choose|t: int| 0 <= t < rest_b.len() && rest_b[t] == x;
                assert(b[t + 1] == x);
                assert(b.contains(x));
                assert(x != b[0]);
                let u = choose|u: int| 0 <= u < a.len() && a[u] == x;
                assert(rest_a[u - 1] == x);
            }
        }
        assert(strictly_ordered(before, rest_a)) by {
            assert forall|i: int, j: int|
                0 <= i < rest_a.len() && 0 <= j < rest_a.len() && i != j implies rest_a[i]
                != rest_a[j] by {
                assert(a[i + 1] != a[j + 1]);
            }
            assert forall|i: int, j: int| 0 <= i < j < rest_a.len() implies before(
                rest_a[i],
                rest_a[j],
            ) by {
                assert(before(a[i + 1], a[j + 1]));
            }
        }
        assert(strictly_ordered(before, rest_b)) by {
            assert forall|i: int, j: int|
                0 <= i < rest_b.len() && 0 <= j < rest_b.len() && i != j implies rest_b[i]
                != rest_b[j] by {
                assert(b[i + 1] != b[j + 1]);
            }
            assert forall|i: int, j: int| 0 <= i < j < rest_b.len() implies before(
                rest_b[i],
                rest_b[j],
            ) by {
                assert(before(b[i + 1], b[j + 1]));
            }
        }
        lemma_sorted_lists_agree(before, rest_a, rest_b);
        assert(a =~= seq![a[0]] + rest_a);
        assert(b =~= seq![b[0]] + rest_b);
    }
}

} // verus!
