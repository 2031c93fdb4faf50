//! Order statistics over jitter samples.

use vstd::prelude::*;

verus! {

/// How many values of `s` are at most `v`.
pub open spec fn count_upto(s: Seq<u64>, v: int) -> nat
    decreases s.len(),
{
    if s.len() == 0 {
        0
    } else {
        count_upto(s.drop_last(), v) + if s.last() <= v {
            1nat
        } else {
            0nat
        }
    }
}

/// Whether `v` stands at position `k` of `s` in ascending order: at most `k`
/// values lie below it, and more than `k` do not lie above it.
pub open spec fn is_kth_smallest(s: Seq<u64>, k: nat, v: u64) -> bool {
    count_upto(s, v - 1) <= k < count_upto(s, v as int)
}

/// The value at position `k` of `s` in ascending order.
pub open spec fn kth_smallest_of(s: Seq<u64>, k: nat) -> u64 {
    choose|v: u64| is_kth_smallest(s, k, v)
}

proof fn lemma_count_monotone(s: Seq<u64>, v: int, w: int)
    requires
        v <= w,
    ensures
        count_upto(s, v) <= count_upto(s, w) <= s.len(),
    decreases s.len(),
{
    if s.len() > 0 {
        lemma_count_monotone(s.drop_last(), v, w);
    }
}

/// At most one value stands at position `k`.
pub proof fn lemma_kth_unique(s: Seq<u64>, k: nat, v: u64, w: u64)
    requires
        is_kth_smallest(s, k, v),
        is_kth_smallest(s, k, w),
    ensures
        v == w,
{
    if v < w {
        lemma_count_monotone(s, v as int, w - 1);
    } else if w < v {
        lemma_count_monotone(s, w as int, v - 1);
    }
}

fn count_at_most(s: &Vec<u64>, v: u64) -> (r: usize)
    ensures
        r == count_upto(s@, v as int),
{
    let mut r: usize = 0;
    let n: usize = s.len();
    for i in 0..n
        invariant
            n == s@.len(),
            r == count_upto(s@.take(i as int), v as int),
            r <= i,
    {
        assert(s@.take(i + 1).drop_last() =~= s@.take(i as int));
        if s[i] <= v {
            r = r + 1;
        }
    }
    assert(s@.take(n as int) =~= s@);
    r
}

proof fn lemma_count_none(s: Seq<u64>)
    ensures
        count_upto(s, -1) == 0,
    decreases s.len(),
{
    if s.len() > 0 {
        lemma_count_none(s.drop_last());
    }
}

proof fn lemma_count_all(s: Seq<u64>, v: int)
    requires
        forall|i: int| 0 <= i < s.len() ==> s[i] <= v,
    ensures
        count_upto(s, v) == s.len(),
    decreases s.len(),
{
    if s.len() > 0 {
        lemma_count_all(s.drop_last(), v);
    }
}

fn largest(s: &Vec<u64>) -> (r: u64)
    ensures
        forall|i: int| 0 <= i < s@.len() ==> s@[i] <= r,
{
    let mut r: u64 = 0;
    let n: usize = s.len();
    for i in 0..n
        invariant
            n == s@.len(),
            forall|j: int| 0 <= j < i ==> s@[j] <= r,
    {
        if s[i] > r {
            r = s[i];
        }
    }
    r
}

/// Selects the value at position `k` of `s` in ascending order, by bisection of
/// the value range.
pub fn kth_smallest(s: &Vec<u64>, k: usize) -> (r: u64)
    requires
        k < s@.len(),
    ensures
        is_kth_smallest(s@, k as nat, r),
        r == kth_smallest_of(s@, k as nat),
{
    let mut lo: u64 = 0;
    let mut hi: u64 = largest(s);
    proof {
        lemma_count_none(s@);
        lemma_count_all(s@, hi as int);
    }
    while lo < hi
        invariant
            lo <= hi,
            count_upto(s@, lo - 1) <= k < count_upto(s@, hi as int),
        decreases hi - lo,
    {
        let mid: u64 = lo + (hi - lo) / 2;
        if count_at_most(s, mid) > k {
            hi = mid;
        } else {
            lo = mid + 1;
        }
    }
    assert(is_kth_smallest(s@, k as nat, lo));
    proof {
        lemma_kth_unique(s@, k as nat, lo, kth_smallest_of(s@, k as nat));
    }
    lo
}

/// Position of the 95th percentile among `n` samples in ascending order.
pub open spec fn p95_index(n: nat) -> nat {
    n * 95 / 100
}

/// Computes [`p95_index`].
pub fn p95_position(n: usize) -> (r: usize)
    requires
        n > 0,
    ensures
        r == p95_index(n as nat),
        r < n,
{
    let whole: usize = (n / 100) * 95;
    let part: usize = ((n % 100) * 95) / 100;
    assert(n * 95 / 100 == whole + part) by {
        assert(n == (n / 100) * 100 + n % 100);
        assert(n * 95 == ((n / 100) * 95) * 100 + (n % 100) * 95);
    }
    whole + part
}

proof fn lemma_count_is_of_multiset(s: Seq<u64>, v: int)
    ensures
        count_upto(s, v) == s.to_multiset().filter(|x: u64| x <= v).len(),
    decreases s.len(),
{
    broadcast use vstd::multiset::group_multiset_axioms;

    let keep = |x: u64| x <= v;
    s.to_multiset_ensures();
    if s.len() == 0 {
        assert(s.to_multiset() =~= vstd::multiset::Multiset::empty());
        assert(s.to_multiset().filter(keep) =~= vstd::multiset::Multiset::empty());
    } else {
        let front = s.drop_last();
        lemma_count_is_of_multiset(front, v);
        front.to_multiset_ensures();
        assert(front.push(s.last()) =~= s);
        let kept = front.to_multiset().filter(keep);
        if keep(s.last()) {
            assert(s.to_multiset().filter(keep) =~= kept.insert(s.last()));
        } else {
            assert(s.to_multiset().filter(keep) =~= kept);
        }
    }
}

/// The value selected at position `k` is the one that stands there when the
/// values are sorted.
pub proof fn law_positions_are_those_of_the_sorted(s: Seq<u64>, sorted: Seq<u64>, k: nat)
    requires
        sorted.to_multiset() == s.to_multiset(),
        forall|i: int, j: int| 0 <= i <= j < sorted.len() ==> sorted[i] <= sorted[j],
        k < sorted.len(),
    ensures
        kth_smallest_of(s, k) == sorted[k as int],
{
    let v = sorted[k as int];
    lemma_count_is_of_multiset(s, v as int);
    lemma_count_is_of_multiset(sorted, v as int);
    lemma_count_is_of_multiset(s, v - 1);
    lemma_count_is_of_multiset(sorted, v - 1);
    lemma_bound_below(sorted, v as int, k as int + 1);
    lemma_bound_above(sorted, v - 1, k as int);
    assert(is_kth_smallest(s, k, v));
    lemma_kth_unique(s, k, v, kth_smallest_of(s, k));
}

proof fn lemma_bound_below(t: Seq<u64>, v: int, n: int)
    requires
        0 <= n <= t.len(),
        forall|i: int| 0 <= i < n ==> t[i] <= v,
    ensures
        count_upto(t, v) >= n,
    decreases t.len(),
{
    if t.len() > 0 {
        lemma_bound_below(
            t.drop_last(),
            v,
            if n < t.len() {
                n
            } else {
                n - 1
            },
        );
    }
}

proof fn lemma_bound_above(t: Seq<u64>, v: int, n: int)
    requires
        0 <= n <= t.len(),
        forall|i: int| n <= i < t.len() ==> t[i] > v,
    ensures
        count_upto(t, v) <= n,
    decreases t.len(),
{
    if t.len() > 0 {
        lemma_bound_above(
            t.drop_last(),
            v,
            if n < t.len() {
                n
            } else {
                n - 1
            },
        );
    }
}

/// At the percentile's position at most a twentieth of the values stands above it,
/// and one position further would leave too few above.
pub proof fn law_a_twentieth_stands_above(n: nat)
    ensures
        p95_index(n) * 20 <= n * 19 < (p95_index(n) + 1) * 20,
        n > 0 ==> p95_index(n) < n,
{
}

} // verus!
