//! Nearest-rank percentile estimator over an ascending-sorted series.

use vstd::prelude::*;
use crate::model::sorted_i64;

verus! {

/// Index selected by the nearest-rank estimator for the `pct`-th percentile
/// of a series of `len` points: `(len - 1) * pct / 100`, rounded to the
/// nearest integer half away from zero.
pub open spec fn pct_index(len: int, pct: int) -> int {
    ((len - 1) * pct + 50) / 100
}

/// The `pct`-th percentile (`pct` in percent, `0..=100`) of an
/// ascending-sorted series; 0 for an empty series.
pub open spec fn percentile_spec(s: Seq<i64>, pct: int) -> i64 {
    if s.len() == 0 {
        0i64
    } else {
        s[pct_index(s.len() as int, pct)]
    }
}

/// The selected index is always in range.
pub proof fn lemma_pct_index_in_range(len: int, pct: int)
    requires
        len >= 1,
        0 <= pct <= 100,
    ensures
        0 <= pct_index(len, pct) <= len - 1,
{
    assert(0 <= (len - 1) * pct <= (len - 1) * 100) by (nonlinear_arith)
        requires
            len >= 1,
            0 <= pct <= 100,
    ;
    vstd::arithmetic::div_mod::lemma_div_pos_is_pos((len - 1) * pct + 50, 100);
    vstd::arithmetic::div_mod::lemma_div_is_ordered(
        (len - 1) * pct + 50,
        100 * (len - 1) + 50,
        100,
    );
    vstd::arithmetic::div_mod::lemma_div_multiples_vanish_fancy(len - 1, 50, 100);
}

/// On a sorted series, a higher percentile never yields a smaller value.
pub proof fn lemma_percentile_monotone(s: Seq<i64>, p1: int, p2: int)
    requires
        sorted_i64(s),
        0 <= p1 <= p2 <= 100,
    ensures
        percentile_spec(s, p1) <= percentile_spec(s, p2),
{
    if s.len() > 0 {
        let len = s.len() as int;
        lemma_pct_index_in_range(len, p1);
        lemma_pct_index_in_range(len, p2);
        assert((len - 1) * p1 <= (len - 1) * p2) by (nonlinear_arith)
            requires
                len >= 1,
                0 <= p1 <= p2,
        ;
        vstd::arithmetic::div_mod::lemma_div_is_ordered(
            (len - 1) * p1 + 50,
            (len - 1) * p2 + 50,
            100,
        );
    }
}

/// Nearest-rank percentile of an ascending-sorted series.
///
/// The series must already be sorted; this function does not sort.
pub fn percentile(sorted_values: &Vec<i64>, pct: u64) -> (r: i64)
    requires
        sorted_i64(sorted_values@),
        pct <= 100,
    ensures
        r == percentile_spec(sorted_values@, pct as int),
        crate::model::elems_i32(sorted_values@) ==> -0x8000_0000 <= r <= 0x7fff_ffff,
{
    if sorted_values.len() == 0 {
        return 0;
    }
    proof {
        lemma_pct_index_in_range(sorted_values@.len() as int, pct as int);
    }
    let idx: u128 = (((sorted_values.len() - 1) as u128) * (pct as u128) + 50) / 100;
    sorted_values[idx as usize]
}

} // verus!
