//! Verified ascending insertion sort for price series.

use vstd::prelude::*;
use vstd::pervasive::VecAdditionalExecFns;
use vstd::relations::sorted_by;
use vstd::seq_lib::lemma_sorted_unique;
use crate::model::sorted_i64;

verus! {

/// The ascending order on `i64` used by the pipeline's sorts.
pub open spec fn le_i64() -> spec_fn(i64, i64) -> bool {
    |x: i64, y: i64| x <= y
}

/// The ascending sort of a series.
pub open spec fn sort_i64(s: Seq<i64>) -> Seq<i64> {
    s.sort_by(le_i64())
}

/// `sorted_i64` coincides with vstd's `sorted_by` under the ascending order.
pub proof fn lemma_sorted_i64_is_sorted_by(s: Seq<i64>)
    ensures
        sorted_i64(s) == sorted_by(s, le_i64()),
{
    if sorted_i64(s) {
        assert forall|i: int, j: int| 0 <= i < j < s.len() implies le_i64()(s[i], s[j]) by {
            assert(s[i] <= s[j]);
        }
    }
    if sorted_by(s, le_i64()) {
        assert forall|i: int, j: int| 0 <= i <= j < s.len() implies s[i] <= s[j] by {
            if i < j {
                assert(le_i64()(s[i], s[j]));
            }
        }
    }
}

/// What `sort_i64` guarantees: an ascending permutation of the input.
pub proof fn lemma_sort_i64_ensures(s: Seq<i64>)
    ensures
        sort_i64(s).len() == s.len(),
        sort_i64(s).to_multiset() == s.to_multiset(),
        sorted_i64(sort_i64(s)),
{
    s.lemma_sort_by_ensures(le_i64());
    lemma_sorted_i64_is_sorted_by(sort_i64(s));
    broadcast use vstd::seq_lib::to_multiset_len;

    assert(s.to_multiset() =~= sort_i64(s).to_multiset());
    assert(s.to_multiset().len() == s.len());
    assert(sort_i64(s).to_multiset().len() == sort_i64(s).len());
}

/// A sorted permutation of `s` is exactly `sort_i64(s)`.
pub proof fn lemma_sorted_permutation_is_sort(s: Seq<i64>, t: Seq<i64>)
    requires
        t.to_multiset() == s.to_multiset(),
        sorted_i64(t),
    ensures
        t == sort_i64(s),
{
    s.lemma_sort_by_ensures(le_i64());
    lemma_sorted_i64_is_sorted_by(t);
    lemma_sorted_i64_is_sorted_by(sort_i64(s));
    lemma_sorted_unique(t, sort_i64(s), le_i64());
}

/// Swapping two positions of a sequence preserves its multiset of elements.
proof fn lemma_swap_preserves_multiset(s: Seq<i64>, i: int, j: int)
    requires
        0 <= i < j < s.len(),
    ensures
        s.update(i, s[j]).update(j, s[i]).to_multiset() == s.to_multiset(),
{
    broadcast use vstd::seq_lib::to_multiset_update;
    broadcast use vstd::seq_lib::to_multiset_contains;
    broadcast use vstd::multiset::group_multiset_axioms;

    let x = s[i];
    let y = s[j];
    let s1 = s.update(i, y);
    let s2 = s1.update(j, x);
    assert(s1[j] == y);
    assert(s1.to_multiset() == s.to_multiset().insert(y).remove(x));
    assert(s2.to_multiset() == s1.to_multiset().insert(x).remove(y));
    assert(s.contains(x));
    assert(s.to_multiset().count(x) > 0);
    assert(s2.to_multiset() =~= s.to_multiset());
}

/// Sorts a series ascending, in place.
pub fn sort_vec(v: &mut Vec<i64>)
    ensures
        final(v)@ == sort_i64(old(v)@),
{
    let ghost orig: Seq<i64> = v@;
    let n: usize = v.len();
    let mut i: usize = 1;
    while i < n
        invariant
            n == v@.len(),
            1 <= i || n == 0,
            i <= n || n == 0,
            v@.to_multiset() == orig.to_multiset(),
            forall|a: int, b: int| 0 <= a <= b < i ==> v@[a] <= v@[b],
        decreases n - i,
    {
        let mut j: usize = i;
        while j > 0 && v[j - 1] > v[j]
            invariant
                n == v@.len(),
                0 <= j <= i < n,
                v@.to_multiset() == orig.to_multiset(),
                forall|a: int, b: int|
                    0 <= a <= b <= i && a != j && b != j ==> v@[a] <= v@[b],
                forall|b: int| j < b <= i ==> v@[j as int] <= v@[b],
            decreases j,
        {
            let ghost before: Seq<i64> = v@;
            let x: i64 = v[j - 1];
            let y: i64 = v[j];
            v.set(j - 1, y);
            v.set(j, x);
            proof {
                lemma_swap_preserves_multiset(before, j - 1, j as int);
            }
            j = j - 1;
        }
        assert(forall|a: int, b: int| 0 <= a <= b <= i ==> v@[a] <= v@[b]) by {
            assert forall|a: int, b: int| 0 <= a <= b <= i implies v@[a] <= v@[b] by {
                if a == b {
                } else if b == j as int {
                    if a < j - 1 {
                        assert(v@[a] <= v@[j - 1]);
                    }
                    assert(v@[j - 1] <= v@[j as int]);
                    if a < j as int {
                        assert(v@[a] <= v@[j as int]);
                    }
                } else if a == j as int {
                } else {
                }
            }
        }
        i = i + 1;
    }
    proof {
        if n == 0 {
            assert(v@ =~= orig);
            lemma_sort_i64_ensures(orig);
            assert(sort_i64(orig).len() == 0);
            assert(v@ =~= sort_i64(orig));
        } else {
            assert(sorted_i64(v@));
            lemma_sorted_permutation_is_sort(orig, v@);
        }
    }
}

} // verus!
