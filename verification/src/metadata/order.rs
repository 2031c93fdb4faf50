//! Ordering by key, where equal keys keep their places.

use vstd::prelude::*;

verus! {

/// Whether position `a` comes before position `b`: by key, then by position.
pub open spec fn comes_before(keys: Seq<u64>, a: int, b: int) -> bool {
    keys[a] < keys[b] || (keys[a] == keys[b] && a < b)
}

/// Whether `idx` lists every position of `keys`, ordered by key and, among equal
/// keys, by position.
pub open spec fn is_stable_order(idx: Seq<int>, keys: Seq<u64>) -> bool {
    &&& idx.len() == keys.len()
    &&& forall|i: int| 0 <= i < idx.len() ==> 0 <= #[trigger] idx[i] < keys.len()
    &&& forall|i: int, j: int|
        0 <= i < j < idx.len() ==> comes_before(keys, #[trigger] idx[i], #[trigger] idx[j])
}

/// The positions of `keys` in stable order.
pub open spec fn stable_order(keys: Seq<u64>) -> Seq<int> {
    choose|idx: Seq<int>| is_stable_order(idx, keys)
}

/// The items at the given positions.
pub open spec fn picked<T>(items: Seq<T>, idx: Seq<int>) -> Seq<T> {
    Seq::new(idx.len(), |i: int| items[idx[i]])
}

/// A stable order leaves no position out.
proof fn lemma_covers(idx: Seq<int>, keys: Seq<u64>, p: int)
    requires
        is_stable_order(idx, keys),
        0 <= p < keys.len(),
    ensures
        idx.contains(p),
{
    let n = keys.len() as int;
    assert(idx.no_duplicates());
    idx.unique_seq_to_set();
    let all = vstd::set_lib::set_int_range(0, n);
    vstd::set_lib::lemma_int_range(0, n);
    assert(idx.to_set().subset_of(all)) by {
        assert forall|x: int| idx.to_set().contains(x) implies all.contains(x) by {
            assert(idx.contains(x));
        }
    }
    vstd::set_lib::lemma_subset_equality(idx.to_set(), all);
    assert(all.contains(p));
    assert(idx.to_set().contains(p));
}

proof fn lemma_orders_agree(a: Seq<int>, b: Seq<int>, keys: Seq<u64>, p: int)
    requires
        is_stable_order(a, keys),
        is_stable_order(b, keys),
        0 <= p <= a.len(),
    ensures
        forall|i: int| 0 <= i < p ==> a[i] == b[i],
    decreases p,
{
    if p > 0 {
        let k = p - 1;
        lemma_orders_agree(a, b, keys, k);
        lemma_covers(b, keys, a[k]);
        lemma_covers(a, keys, b[k]);
        let q = choose|q: int| 0 <= q < b.len() && b[q] == a[k];
        let r = choose|r: int| 0 <= r < a.len() && a[r] == b[k];
        if q < k {
            assert(a[q] == b[q]);
            assert(comes_before(keys, a[q], a[k]));
        } else if q > k {
            assert(comes_before(keys, b[k], b[q]));
            if r < k {
                assert(a[r] == b[r]);
                assert(comes_before(keys, b[r], b[k]));
            } else if r > k {
                assert(comes_before(keys, a[k], a[r]));
            }
        }
    }
}

/// There is one stable order.
pub proof fn law_stable_order_is_unique(idx: Seq<int>, keys: Seq<u64>)
    requires
        is_stable_order(idx, keys),
    ensures
        idx == stable_order(keys),
{
    let other = stable_order(keys);
    assert(is_stable_order(other, keys));
    lemma_orders_agree(idx, other, keys, idx.len() as int);
    assert(idx =~= other);
}

/// Sorts items by their keys; items with equal keys keep their places.
pub fn stable_sort<T>(items: &mut Vec<T>, keys: &Vec<u64>)
    requires
        old(items)@.len() == keys@.len(),
    ensures
        is_stable_order(stable_order(keys@), keys@),
        final(items)@ == picked(old(items)@, stable_order(keys@)),
{
    let n: usize = items.len();
    let ghost before = items@;
    let ghost mut idx: Seq<int> = Seq::new(n as nat, |i: int| i);
    let mut sorted: Vec<u64> = Vec::new();
    assert(items@ =~= picked(before, idx));
    for i in 0..n
        invariant
            n == before.len() == keys@.len() == items@.len() == idx.len(),
            items@ == picked(before, idx),
            sorted@.len() == i,
            forall|k: int| 0 <= k < i ==> 0 <= #[trigger] idx[k] < i && sorted@[k] == keys@[idx[k]],
            forall|k: int| i <= k < n ==> #[trigger] idx[k] == k,
            forall|j: int, k: int|
                0 <= j < k < i ==> comes_before(keys@, #[trigger] idx[j], #[trigger] idx[k]),
    {
        let key: u64 = keys[i];
        let mut p: usize = 0;
        while p < i && sorted[p] <= key
            invariant
                p <= i < n,
                sorted@.len() == i,
                forall|k: int| 0 <= k < p ==> #[trigger] sorted@[k] <= key,
            ensures
                p <= i,
                forall|k: int| 0 <= k < p ==> #[trigger] sorted@[k] <= key,
                p < i ==> sorted@[p as int] > key,
            decreases i - p,
        {
            p = p + 1;
        }
        let ghost was = idx;
        let item = items.remove(i);
        items.insert(p, item);
        sorted.insert(p, key);
        proof {
            idx = idx.remove(i as int).insert(p as int, i as int);
            assert forall|k: int| 0 <= k < n implies #[trigger] items@[k] == before[idx[k]] by {
                if k < p {
                    assert(idx[k] == was[k]);
                } else if k == p {
                    assert(was[i as int] == i);
                } else if k <= i {
                    assert(idx[k] == was[k - 1]);
                } else {
                    assert(idx[k] == was[k]);
                }
            }
            assert(items@ =~= picked(before, idx));
            assert forall|k: int| 0 <= k < i + 1 implies 0 <= #[trigger] idx[k] < i + 1
                && sorted@[k] == keys@[idx[k]] by {
                if k < p {
                    assert(idx[k] == was[k]);
                } else if k > p {
                    assert(idx[k] == was[k - 1]);
                }
            }
            assert forall|k: int| i + 1 <= k < n implies #[trigger] idx[k] == k by {
                assert(idx[k] == was[k]);
            }
            assert forall|j: int, k: int| 0 <= j < k < i + 1 implies comes_before(
                keys@,
                #[trigger] idx[j],
                #[trigger] idx[k],
            ) by {
                if k < p {
                    assert(idx[j] == was[j] && idx[k] == was[k]);
                } else if k == p {
                    assert(idx[j] == was[j]);
                    assert(0 <= was[j] < i);
                } else {
                    assert(idx[k] == was[k - 1]);
                    if j < p {
                        assert(idx[j] == was[j]);
                    } else if j == p {
                        assert(0 <= was[k - 1] < i);
                        if p < k - 1 {
                            assert(comes_before(keys@, was[p as int], was[k - 1]));
                        }
                        assert(keys@[was[p as int]] > key);
                    } else {
                        assert(idx[j] == was[j - 1]);
                    }
                }
            }
        }
    }
    assert(is_stable_order(idx, keys@));
    proof {
        law_stable_order_is_unique(idx, keys@);
    }
}

/// Every sequence of keys has a stable order.
pub proof fn lemma_stable_order_exists(keys: Seq<u64>)
    ensures
        is_stable_order(stable_order(keys), keys),
{
    let leq = |a: int, b: int| keys[a] < keys[b] || (keys[a] == keys[b] && a <= b);
    let s = Seq::new(keys.len(), |i: int| i);
    assert(vstd::relations::total_ordering(leq));
    s.lemma_sort_by_ensures(leq);
    let t = s.sort_by(leq);
    s.to_multiset_ensures();
    t.to_multiset_ensures();
    s.lemma_multiset_has_no_duplicates();
    t.lemma_multiset_has_no_duplicates_conv();
    assert forall|i: int| 0 <= i < t.len() implies 0 <= #[trigger] t[i] < keys.len() by {
        assert(t.contains(t[i]));
        assert(s.contains(t[i]));
    }
    assert forall|i: int, j: int| 0 <= i < j < t.len() implies comes_before(
        keys,
        #[trigger] t[i],
        #[trigger] t[j],
    ) by {
        assert(leq(t[i], t[j]));
    }
    assert(is_stable_order(t, keys));
}

/// Whether `out` holds the items of `items`, each once, by ascending key, items of
/// equal key in the order they had: `from` tells for each where it stood.
pub open spec fn sorted_from<T>(out: Seq<T>, items: Seq<T>, keys: Seq<u64>, from: Seq<int>) -> bool {
    &&& out.len() == items.len() && from.len() == items.len()
    &&& from.no_duplicates()
    &&& forall|i: int|
        0 <= i < out.len() ==> 0 <= #[trigger] from[i] < items.len() && out[i] == items[from[i]]
    &&& forall|i: int, j: int|
        0 <= i < j < out.len() ==> keys[#[trigger] from[i]] <= keys[#[trigger] from[j]] && (
        keys[from[i]] == keys[from[j]] ==> from[i] < from[j])
}

/// Sorting loses no item and adds none, puts smaller keys first, and leaves items
/// of equal key in the order they had.
pub proof fn law_sorting_is_stable<T>(items: Seq<T>, keys: Seq<u64>)
    requires
        items.len() == keys.len(),
    ensures
        exists|from: Seq<int>| sorted_from(picked(items, stable_order(keys)), items, keys, from),
        forall|x: T| items.contains(x) <==> #[trigger] picked(items, stable_order(keys)).contains(x),
{
    lemma_stable_order_exists(keys);
    let idx = stable_order(keys);
    let out = picked(items, idx);
    assert forall|i: int, j: int| 0 <= i < j < out.len() implies keys[#[trigger] idx[i]]
        <= keys[#[trigger] idx[j]] && (keys[idx[i]] == keys[idx[j]] ==> idx[i] < idx[j]) by {
        assert(comes_before(keys, idx[i], idx[j]));
    }
    assert forall|i: int, j: int| 0 <= i < idx.len() && 0 <= j < idx.len() && i != j implies idx[i]
        != idx[j] by {
        if i < j {
            assert(comes_before(keys, idx[i], idx[j]));
        } else {
            assert(comes_before(keys, idx[j], idx[i]));
        }
    }
    assert(sorted_from(out, items, keys, idx));
    assert forall|x: T| items.contains(x) implies #[trigger] out.contains(x) by {
        let p = choose|p: int| 0 <= p < items.len() && items[p] == x;
        lemma_covers(idx, keys, p);
        let q = choose|q: int| 0 <= q < idx.len() && idx[q] == p;
        assert(out[q] == x);
    }
    assert forall|x: T| #[trigger] out.contains(x) implies items.contains(x) by {
        let q = choose|q: int| 0 <= q < out.len() && out[q] == x;
        assert(items[idx[q]] == x);
    }
}

} // verus!
