//! Library-wide laws: properties of the pipeline that hold for all inputs,
//! stated over the same spec functions that the executable contracts use.

use vstd::prelude::*;
use crate::arith::sat_add_i32_spec;
use crate::flips::{
    analyze_spec, buy_price_spec, net_profit_spec, price_crashed_spec, price_spiked_spec,
    roi_score_spec, score_spec, sell_price_spec, use_recent_spec, working_series_spec,
};
use crate::model::{Rat, StatsModel, Tier};
use crate::percentile::percentile_spec;
use crate::stats::{
    idx_sq_sum, idx_sum, outliers_removed_count, remove_outliers_kept, sum_of, trend_spec,
    wsum_of,
};

verus! {

/// The percentile of an empty series is 0, whatever percentile is asked.
pub proof fn lemma_percentile_empty(pct: int)
    ensures
        percentile_spec(Seq::<i64>::empty(), pct) == 0,
{
}

/// Outlier removal is a no-op on fewer than 10 points: the series is kept
/// unchanged and nothing is counted as removed.
pub proof fn lemma_outlier_removal_noop_when_short(s: Seq<i64>)
    requires
        s.len() < 10,
    ensures
        remove_outliers_kept(s) == s,
        outliers_removed_count(s) == 0,
{
}

/// Outlier removal never keeps less than 70% of the points: whenever the
/// filter would, it reverts to the full series. The removed count is always
/// exactly the number of dropped points.
pub proof fn lemma_outlier_removal_retention(s: Seq<i64>)
    ensures
        10 * remove_outliers_kept(s).len() >= 7 * s.len(),
        remove_outliers_kept(s).len() + outliers_removed_count(s) == s.len()
            || remove_outliers_kept(s) == s,
{
}

/// On a constant series the sum is the count times the constant.
proof fn lemma_sum_constant(s: Seq<i64>, c: i64)
    requires
        forall|i: int| 0 <= i < s.len() ==> s[i] == c,
    ensures
        sum_of(s) == s.len() * c,
    decreases s.len(),
{
    if s.len() > 0 {
        lemma_sum_constant(s.drop_last(), c);
        assert(s.len() * c == (s.len() - 1) * c + c) by (nonlinear_arith);
    }
}

/// On a constant series the index-weighted sum is the index sum times the
/// constant.
proof fn lemma_wsum_constant(s: Seq<i64>, c: i64)
    requires
        forall|i: int| 0 <= i < s.len() ==> s[i] == c,
    ensures
        wsum_of(s) == idx_sum(s.len() as int) * c,
    decreases s.len(),
{
    if s.len() > 0 {
        lemma_wsum_constant(s.drop_last(), c);
        assert(idx_sum(s.len() as int) * c
            == idx_sum(s.len() - 1) * c + (s.len() - 1) * c) by (nonlinear_arith)
            requires
                idx_sum(s.len() as int) == idx_sum(s.len() - 1) + (s.len() - 1),
        ;
    }
}

/// The least-squares trend of a constant series is zero.
pub proof fn lemma_trend_constant_is_zero(s: Seq<i64>, c: i64)
    requires
        forall|i: int| 0 <= i < s.len() ==> s[i] == c,
    ensures
        trend_spec(s).num == 0,
{
    let n = s.len() as int;
    if n >= 2 {
        lemma_sum_constant(s, c);
        lemma_wsum_constant(s, c);
        assert(n * (idx_sum(n) * c) == idx_sum(n) * (n * c)) by (nonlinear_arith);
    }
}

/// Twice the index sum is `n * (n - 1)`.
proof fn lemma_idx_sum_closed(n: int)
    requires
        n >= 0,
    ensures
        2 * idx_sum(n) == n * (n - 1),
    decreases n,
{
    if n > 0 {
        lemma_idx_sum_closed(n - 1);
        assert(idx_sum(n) == idx_sum(n - 1) + (n - 1));
        assert(2 * (idx_sum(n - 1) + (n - 1)) == n * (n - 1)) by (nonlinear_arith)
            requires
                2 * idx_sum(n - 1) == (n - 1) * (n - 2),
        ;
        assert(2 * idx_sum(n) == n * (n - 1));
    } else {
        assert(n == 0);
        assert(idx_sum(0) == 0);
    }
}

/// The trend denominator `n * sum(i^2) - sum(i)^2` is positive for any
/// series of at least two points: the guard against a degenerate
/// denominator never fires there.
proof fn lemma_trend_den_positive(n: int)
    requires
        n >= 2,
    ensures
        n * idx_sq_sum(n) - idx_sum(n) * idx_sum(n) > 0,
    decreases n,
{
    if n == 2 {
        reveal_with_fuel(idx_sum, 3);
        reveal_with_fuel(idx_sq_sum, 3);
        assert(idx_sum(2) == 1);
        assert(idx_sq_sum(2) == 1);
    } else {
        lemma_trend_den_positive(n - 1);
        lemma_idx_sum_closed(n - 1);
        crate::stats::lemma_idx_sq_sum_bound(n - 1);
        assert(n * idx_sq_sum(n) - idx_sum(n) * idx_sum(n)
            == ((n - 1) * idx_sq_sum(n - 1) - idx_sum(n - 1) * idx_sum(n - 1))
                + idx_sq_sum(n - 1) + (n - 1) * (n - 1)) by (nonlinear_arith)
            requires
                idx_sq_sum(n) == idx_sq_sum(n - 1) + (n - 1) * (n - 1),
                idx_sum(n) == idx_sum(n - 1) + (n - 1),
                2 * idx_sum(n - 1) == (n - 1) * (n - 2),
        ;
    }
}

/// Sum of an affine series `s[i] = a + d * i`.
proof fn lemma_sum_affine(s: Seq<i64>, a: int, d: int)
    requires
        forall|i: int| 0 <= i < s.len() ==> s[i] == a + d * i,
    ensures
        sum_of(s) == s.len() * a + d * idx_sum(s.len() as int),
    decreases s.len(),
{
    if s.len() > 0 {
        let t = s.drop_last();
        let n = s.len() as int;
        assert(forall|i: int| 0 <= i < t.len() ==> t[i] == #[trigger] s[i]);
        lemma_sum_affine(t, a, d);
        assert(s.last() == a + d * (n - 1));
        assert((n - 1) * a + d * idx_sum(n - 1) + (a + d * (n - 1))
            == n * a + d * idx_sum(n)) by (nonlinear_arith)
            requires
                idx_sum(n) == idx_sum(n - 1) + (n - 1),
        ;
    }
}

/// Index-weighted sum of an affine series `s[i] = a + d * i`.
proof fn lemma_wsum_affine(s: Seq<i64>, a: int, d: int)
    requires
        forall|i: int| 0 <= i < s.len() ==> s[i] == a + d * i,
    ensures
        wsum_of(s) == a * idx_sum(s.len() as int) + d * idx_sq_sum(s.len() as int),
    decreases s.len(),
{
    if s.len() > 0 {
        let t = s.drop_last();
        let n = s.len() as int;
        assert(forall|i: int| 0 <= i < t.len() ==> t[i] == #[trigger] s[i]);
        lemma_wsum_affine(t, a, d);
        assert(s.last() == a + d * (n - 1));
        assert(a * idx_sum(n - 1) + d * idx_sq_sum(n - 1) + (n - 1) * (a + d * (n - 1))
            == a * idx_sum(n) + d * idx_sq_sum(n)) by (nonlinear_arith)
            requires
                idx_sum(n) == idx_sum(n - 1) + (n - 1),
                idx_sq_sum(n) == idx_sq_sum(n - 1) + (n - 1) * (n - 1),
        ;
    }
}

/// The least-squares trend of a perfectly linear series is exactly its
/// step: on `a, a + d, a + 2d, ...` (at least two points) the slope is `d`.
pub proof fn lemma_trend_of_linear_is_step(s: Seq<i64>, a: int, d: int)
    requires
        s.len() >= 2,
        forall|i: int| 0 <= i < s.len() ==> s[i] == a + d * i,
    ensures
        trend_spec(s).den >= 1,
        trend_spec(s).num == d * trend_spec(s).den,
{
    let n = s.len() as int;
    lemma_sum_affine(s, a, d);
    lemma_wsum_affine(s, a, d);
    lemma_trend_den_positive(n);
    let s1 = idx_sum(n);
    let s2 = idx_sq_sum(n);
    assert(n * (a * s1 + d * s2) - s1 * (n * a + d * s1)
        == d * (n * s2 - s1 * s1)) by (nonlinear_arith);
}

/// Without a crash or spike signal the scorer always prices from the wide
/// 10th/90th percentile band of the working series, never the tight
/// 15th/85th band of the recent window.
pub proof fn lemma_no_signal_uses_wide_band(s: StatsModel, tax: Rat)
    requires
        s.prices.len() > 0,
        !price_crashed_spec(s),
        !price_spiked_spec(s),
    ensures
        !use_recent_spec(s),
        analyze_spec(s, tax).buy == percentile_spec(working_series_spec(s), 10),
        analyze_spec(s, tax).sell == percentile_spec(working_series_spec(s), 90),
{
}

/// A negative net profit always classifies as the crash tier, whatever the
/// other inputs contribute.
pub proof fn lemma_negative_net_is_crash(s: StatsModel, tax: Rat)
    requires
        s.prices.len() > 0,
        net_profit_spec(s, tax).num < 0,
    ensures
        analyze_spec(s, tax).tier == Tier::Crash,
{
}

/// The ROI sub-score is clamped into `i32` range for every rational input,
/// however extreme.
pub proof fn lemma_roi_score_clamped(roi: Rat)
    ensures
        -0x8000_0000 <= roi_score_spec(roi) <= 0x7fff_ffff,
{
}

/// The composite score is always a valid `i32`: the saturating sum can
/// neither overflow nor wrap.
pub proof fn lemma_score_in_i32_range(s: StatsModel, tax: Rat)
    ensures
        -0x8000_0000 <= score_spec(s, tax) <= 0x7fff_ffff,
{
}

/// When every sub-score lies within `[-100, 100]`, the saturating sum
/// never actually saturates: it equals the plain sum, which stays within
/// `[-900, 900]`.
pub proof fn lemma_sat_sum_of_small_terms(
    s1: int, s2: int, s3: int, s4: int, s5: int, s6: int, s7: int, s8: int, s9: int,
)
    requires
        -100 <= s1 <= 100,
        -100 <= s2 <= 100,
        -100 <= s3 <= 100,
        -100 <= s4 <= 100,
        -100 <= s5 <= 100,
        -100 <= s6 <= 100,
        -100 <= s7 <= 100,
        -100 <= s8 <= 100,
        -100 <= s9 <= 100,
    ensures
        sat_add_i32_spec(
            sat_add_i32_spec(
                sat_add_i32_spec(
                    sat_add_i32_spec(
                        sat_add_i32_spec(
                            sat_add_i32_spec(
                                sat_add_i32_spec(sat_add_i32_spec(s1, s2), s3),
                                s4,
                            ),
                            s5,
                        ),
                        s6,
                    ),
                    s7,
                ),
                s8,
            ),
            s9,
        ) == s1 + s2 + s3 + s4 + s5 + s6 + s7 + s8 + s9,
        -900 <= s1 + s2 + s3 + s4 + s5 + s6 + s7 + s8 + s9 <= 900,
{
}

/// Analysis is a pure function of the statistics record and the tax rate:
/// equal inputs give equal recommendations, bit for bit (the executable
/// `analyze` promises its result equals `analyze_spec` of its inputs).
pub proof fn lemma_analyze_deterministic(s1: StatsModel, s2: StatsModel, t1: Rat, t2: Rat)
    requires
        s1 == s2,
        t1 == t2,
    ensures
        analyze_spec(s1, t1) == analyze_spec(s2, t2),
{
}

/// The buy price never exceeds the sell price: both come from percentiles
/// of the same sorted working series, with the buy percentile below the
/// sell percentile.
pub proof fn lemma_buy_at_most_sell(s: StatsModel, tax: Rat)
    requires
        s.wf(),
        s.prices.len() > 0,
    ensures
        analyze_spec(s, tax).buy <= analyze_spec(s, tax).sell,
{
    if use_recent_spec(s) {
        crate::percentile::lemma_percentile_monotone(working_series_spec(s), 15, 85);
    } else {
        crate::percentile::lemma_percentile_monotone(working_series_spec(s), 10, 90);
    }
    assert(buy_price_spec(s) <= sell_price_spec(s));
}

} // verus!
