//! Statistics aggregation: grouping raw snapshots by item, sorting and
//! summarizing the price series, IQR outlier filtering, and least-squares
//! trend estimation.

use vstd::prelude::*;
use crate::arith::lemma_mul_bound;
use crate::model::{elems_i32, rat_zero, sorted_i64, ItemSnapshot, ItemStats, Rat, Ratio, StatsModel};
use crate::percentile::{percentile, percentile_spec};
use crate::sorting::{lemma_sort_i64_ensures, sort_i64, sort_vec};

verus! {

/// Sum of a series.
pub open spec fn sum_of(s: Seq<i64>) -> int
    decreases s.len(),
{
    if s.len() == 0 {
        0
    } else {
        sum_of(s.drop_last()) + s.last()
    }
}

/// Index-weighted sum of a series: the sum of `i * s[i]`.
pub open spec fn wsum_of(s: Seq<i64>) -> int
    decreases s.len(),
{
    if s.len() == 0 {
        0
    } else {
        wsum_of(s.drop_last()) + (s.len() - 1) * s.last()
    }
}

/// Sum of the indices `0 + 1 + ... + (n-1)`.
pub open spec fn idx_sum(n: int) -> int
    decreases n,
{
    if n <= 0 {
        0
    } else {
        idx_sum(n - 1) + (n - 1)
    }
}

/// Sum of the squared indices `0 + 1 + ... + (n-1)^2`.
pub open spec fn idx_sq_sum(n: int) -> int
    decreases n,
{
    if n <= 0 {
        0
    } else {
        idx_sq_sum(n - 1) + (n - 1) * (n - 1)
    }
}

/// Sums are bounded by the number of points times the largest magnitude.
pub proof fn lemma_sum_bound(s: Seq<i64>)
    requires
        elems_i32(s),
    ensures
        -(s.len() * 0x8000_0000) <= sum_of(s) <= s.len() * 0x8000_0000,
    decreases s.len(),
{
    if s.len() > 0 {
        assert(elems_i32(s.drop_last())) by {
            assert(forall|i: int|
                0 <= i < s.len() - 1 ==> s.drop_last()[i] == #[trigger] s[i]);
        }
        lemma_sum_bound(s.drop_last());
    }
}

/// The index-weighted sum is bounded by `len^2` times the largest magnitude.
pub proof fn lemma_wsum_bound(s: Seq<i64>)
    requires
        elems_i32(s),
    ensures
        -(s.len() * s.len() * 0x8000_0000) <= wsum_of(s)
            <= s.len() * s.len() * 0x8000_0000,
    decreases s.len(),
{
    if s.len() > 0 {
        let t = s.drop_last();
        assert(elems_i32(t)) by {
            assert(forall|i: int| 0 <= i < s.len() - 1 ==> t[i] == #[trigger] s[i]);
        }
        lemma_wsum_bound(t);
        let n = s.len() as int;
        assert(-(n * 0x8000_0000) <= (n - 1) * s.last() <= n * 0x8000_0000)
            by (nonlinear_arith)
            requires
                n >= 1,
                -0x8000_0000 <= s.last() <= 0x7fff_ffff,
        ;
        assert((n - 1) * (n - 1) * 0x8000_0000 + n * 0x8000_0000 <= n * n * 0x8000_0000)
            by (nonlinear_arith)
            requires
                n >= 1,
        ;
    }
}

/// `idx_sum(n)` lies between 0 and `n^2`.
pub proof fn lemma_idx_sum_bound(n: int)
    ensures
        0 <= idx_sum(n),
        n >= 0 ==> idx_sum(n) <= n * n,
    decreases (if n > 0 { n } else { 0 }),
{
    if n > 0 {
        lemma_idx_sum_bound(n - 1);
        assert((n - 1) * (n - 1) + (n - 1) <= n * n) by (nonlinear_arith)
            requires
                n >= 1,
        ;
    }
}

/// `idx_sq_sum(n)` lies between 0 and `n^3`.
pub proof fn lemma_idx_sq_sum_bound(n: int)
    ensures
        0 <= idx_sq_sum(n),
        n >= 0 ==> idx_sq_sum(n) <= n * n * n,
    decreases (if n > 0 { n } else { 0 }),
{
    if n > 0 {
        lemma_idx_sq_sum_bound(n - 1);
        assert((n - 1) * (n - 1) * (n - 1) + (n - 1) * (n - 1) <= n * n * n)
            by (nonlinear_arith)
            requires
                n >= 1,
        ;
    }
}

/// Twice the lower IQR outlier bound: `2 * (q1 - 1.5 * (q3 - q1))`.
pub open spec fn iqr_lower2(q1: int, q3: int) -> int {
    5 * q1 - 3 * q3
}

/// Twice the upper IQR outlier bound: `2 * (q3 + 1.5 * (q3 - q1))`.
pub open spec fn iqr_upper2(q1: int, q3: int) -> int {
    5 * q3 - 3 * q1
}

/// A price lies within the IQR outlier bounds (compared at twice the scale,
/// so the half-unit bounds stay integral).
pub open spec fn within_iqr(p: i64, q1: int, q3: int) -> bool {
    iqr_lower2(q1, q3) <= 2 * p && 2 * p <= iqr_upper2(q1, q3)
}

/// The subsequence of prices within the IQR outlier bounds.
pub open spec fn iqr_filter(s: Seq<i64>, q1: int, q3: int) -> Seq<i64>
    decreases s.len(),
{
    if s.len() == 0 {
        Seq::<i64>::empty()
    } else {
        let rest = iqr_filter(s.drop_last(), q1, q3);
        if within_iqr(s.last(), q1, q3) {
            rest.push(s.last())
        } else {
            rest
        }
    }
}

/// Filtering keeps a sorted series sorted, keeps only elements of the
/// original, and never grows it.
pub proof fn lemma_iqr_filter_props(s: Seq<i64>, q1: int, q3: int)
    requires
        sorted_i64(s),
    ensures
        iqr_filter(s, q1, q3).len() <= s.len(),
        sorted_i64(iqr_filter(s, q1, q3)),
        forall|c: i64| iqr_filter(s, q1, q3).contains(c) ==> s.contains(c),
    decreases s.len(),
{
    if s.len() > 0 {
        let t = s.drop_last();
        assert(sorted_i64(t)) by {
            assert(forall|i: int| 0 <= i < s.len() - 1 ==> t[i] == #[trigger] s[i]);
        }
        lemma_iqr_filter_props(t, q1, q3);
        let f = iqr_filter(s, q1, q3);
        let fr = iqr_filter(t, q1, q3);
        assert forall|c: i64| fr.contains(c) implies s.contains(c) by {
            assert(t.contains(c));
            let j = choose|j: int| 0 <= j < t.len() && t[j] == c;
            assert(s[j] == c);
        }
        if within_iqr(s.last(), q1, q3) {
            assert(f =~= fr.push(s.last()));
            assert forall|i: int, j: int| 0 <= i <= j < f.len() implies f[i] <= f[j] by {
                if j < f.len() - 1 {
                    assert(fr[i] <= fr[j]);
                } else if i < f.len() - 1 {
                    assert(f[i] == fr[i]);
                    assert(fr.contains(fr[i]));
                    assert(t.contains(fr[i]));
                    let m = choose|m: int| 0 <= m < t.len() && t[m] == fr[i];
                    assert(s[m] == fr[i]);
                    assert(s[m] <= s.last());
                }
            }
            assert forall|c: i64| f.contains(c) implies s.contains(c) by {
                let j = choose|j: int| 0 <= j < f.len() && f[j] == c;
                if j < f.len() - 1 {
                    assert(fr.contains(c));
                } else {
                    assert(c == s.last());
                    assert(s.contains(c)) by {
                        assert(s[s.len() - 1] == s.last());
                    }
                }
            }
        } else {
            assert forall|c: i64| f.contains(c) implies s.contains(c) by {
                assert(fr.contains(c));
            }
        }
    }
}

/// The series kept by outlier removal: prices within `1.5 * IQR` of the
/// quartiles, unless fewer than 10 points exist or the filter would retain
/// less than 70% of them, in which case the full series is kept.
pub open spec fn remove_outliers_kept(s: Seq<i64>) -> Seq<i64> {
    if s.len() < 10 {
        s
    } else {
        let f = iqr_filter(s, percentile_spec(s, 25) as int, percentile_spec(s, 75) as int);
        if 10 * f.len() < 7 * s.len() {
            s
        } else {
            f
        }
    }
}

/// How many points outlier removal excluded.
pub open spec fn outliers_removed_count(s: Seq<i64>) -> int {
    if s.len() < 10 {
        0
    } else {
        let f = iqr_filter(s, percentile_spec(s, 25) as int, percentile_spec(s, 75) as int);
        if 10 * f.len() < 7 * s.len() {
            0
        } else {
            s.len() - f.len()
        }
    }
}

/// Copies a price series.
pub fn copy_prices(v: &Vec<i64>) -> (r: Vec<i64>)
    ensures
        r@ == v@,
{
    let mut out: Vec<i64> = Vec::new();
    let mut i: usize = 0;
    while i < v.len()
        invariant
            i <= v@.len(),
            out@ == v@.take(i as int),
        decreases v@.len() - i,
    {
        out.push(v[i]);
        assert(out@ =~= v@.take(i + 1));
        i = i + 1;
    }
    assert(out@ =~= v@);
    out
}

/// Removes IQR outliers from an ascending-sorted price series.
///
/// Returns the kept series and the number of removed points. Filtering is
/// only attempted on at least 10 points, and is discarded (keeping the full
/// series, zero removed) when it would retain less than 70% of the points.
pub fn remove_outliers(prices: &Vec<i64>) -> (r: (Vec<i64>, usize))
    requires
        sorted_i64(prices@),
        elems_i32(prices@),
        prices@.len() <= 0x4000_0000,
    ensures
        r.0@ == remove_outliers_kept(prices@),
        r.1 == outliers_removed_count(prices@),
        sorted_i64(r.0@),
        elems_i32(r.0@),
        r.0@.len() + r.1 == prices@.len(),
{
    let n: usize = prices.len();
    if n < 10 {
        return (copy_prices(prices), 0);
    }
    let q1: i64 = percentile(prices, 25);
    let q3: i64 = percentile(prices, 75);
    let lower2: i64 = 5 * q1 - 3 * q3;
    let upper2: i64 = 5 * q3 - 3 * q1;
    let mut kept: Vec<i64> = Vec::new();
    let mut i: usize = 0;
    while i < n
        invariant
            n == prices@.len(),
            i <= n,
            elems_i32(prices@),
            lower2 == iqr_lower2(q1 as int, q3 as int),
            upper2 == iqr_upper2(q1 as int, q3 as int),
            kept@ == iqr_filter(prices@.take(i as int), q1 as int, q3 as int),
        decreases n - i,
    {
        let p: i64 = prices[i];
        assert(prices@.take(i + 1).drop_last() =~= prices@.take(i as int));
        assert(prices@.take(i + 1).last() == p);
        if lower2 <= 2 * p && 2 * p <= upper2 {
            kept.push(p);
        }
        i = i + 1;
    }
    assert(prices@.take(n as int) =~= prices@);
    proof {
        lemma_iqr_filter_props(prices@, q1 as int, q3 as int);
        assert forall|j: int| 0 <= j < kept@.len() implies
            -0x8000_0000 <= #[trigger] kept@[j] <= 0x7fff_ffff by {
            assert(kept@.contains(kept@[j]));
            assert(prices@.contains(kept@[j]));
            let m = choose|m: int| 0 <= m < prices@.len() && prices@[m] == kept@[j];
            assert(prices@[m] == kept@[j]);
        }
    }
    proof {
        assert(kept@ == iqr_filter(prices@, q1 as int, q3 as int));
        assert(kept@.len() <= prices@.len());
    }
    let removed: usize = n - kept.len();
    if 10 * (kept.len() as u64) < 7 * (n as u64) {
        (copy_prices(prices), 0)
    } else {
        (kept, removed)
    }
}

/// Ordinary-least-squares slope of a price series regressed on its 0-based
/// index, as an exact rational: both the numerator and the denominator of
/// `sum((x - mean(x)) * (y - mean(y))) / sum((x - mean(x))^2)` are scaled by
/// the point count, giving `(n * sum(i * y) - sum(i) * sum(y))` over
/// `(n * sum(i^2) - sum(i)^2)`. Fewer than 2 points yield a zero slope.
pub open spec fn trend_spec(s: Seq<i64>) -> Rat {
    let n = s.len() as int;
    if n < 2 {
        rat_zero()
    } else {
        let num = n * wsum_of(s) - idx_sum(n) * sum_of(s);
        let den = n * idx_sq_sum(n) - idx_sum(n) * idx_sum(n);
        if den <= 0 {
            rat_zero()
        } else {
            Rat { num, den }
        }
    }
}

/// Least-squares slope of a price series against its index.
pub fn calculate_trend(prices: &Vec<i64>) -> (r: Ratio)
    requires
        elems_i32(prices@),
        prices@.len() <= 0x4000_0000,
    ensures
        r@ == trend_spec(prices@),
        r@.wf(),
        r@.bounded(
            0x4000000_00000000_00000000_00000000,
            0x1000000_00000000_00000000_00000000,
        ),
{
    let n: usize = prices.len();
    if n < 2 {
        return Ratio::zero();
    }
    let mut price_sum: i128 = 0;
    let mut weighted_sum: i128 = 0;
    let mut index_sum: i128 = 0;
    let mut index_sq_sum: i128 = 0;
    let mut i: usize = 0;
    while i < n
        invariant
            n == prices@.len(),
            n <= 0x4000_0000,
            i <= n,
            elems_i32(prices@),
            price_sum == sum_of(prices@.take(i as int)),
            weighted_sum == wsum_of(prices@.take(i as int)),
            index_sum == idx_sum(i as int),
            index_sq_sum == idx_sq_sum(i as int),
        decreases n - i,
    {
        let p: i64 = prices[i];
        proof {
            lemma_sum_bound(prices@.take(i as int));
            lemma_wsum_bound(prices@.take(i as int));
            lemma_idx_sum_bound(i as int);
            lemma_idx_sq_sum_bound(i as int);
            lemma_mul_bound(i as int, p as int, 0x4000_0000, 0x8000_0000);
            lemma_mul_bound(i as int, i as int, 0x4000_0000, 0x4000_0000);
            lemma_mul_bound(
                (i as int) * (i as int),
                i as int,
                0x1000_0000_0000_0000,
                0x4000_0000,
            );
            assert(prices@.take(i + 1).drop_last() =~= prices@.take(i as int));
            assert(prices@.take(i + 1).last() == p);
        }
        price_sum = price_sum + p as i128;
        weighted_sum = weighted_sum + (i as i128) * (p as i128);
        index_sum = index_sum + i as i128;
        index_sq_sum = index_sq_sum + (i as i128) * (i as i128);
        i = i + 1;
    }
    proof {
        assert(prices@.take(n as int) =~= prices@);
        lemma_sum_bound(prices@);
        lemma_wsum_bound(prices@);
        lemma_idx_sum_bound(n as int);
        lemma_idx_sq_sum_bound(n as int);
        lemma_mul_bound(n as int, n as int, 0x4000_0000, 0x4000_0000);
        lemma_mul_bound(
            (n as int) * (n as int),
            n as int,
            0x1000_0000_0000_0000,
            0x4000_0000,
        );
        lemma_mul_bound(
            n as int,
            wsum_of(prices@),
            0x4000_0000,
            0x8000000_00000000_00000000,
        );
        lemma_mul_bound(
            idx_sum(n as int),
            sum_of(prices@),
            0x1000_0000_0000_0000,
            0x2000_0000_0000_0000,
        );
        lemma_mul_bound(
            n as int,
            idx_sq_sum(n as int),
            0x4000_0000,
            0x4000000_00000000_00000000,
        );
        lemma_mul_bound(
            idx_sum(n as int),
            idx_sum(n as int),
            0x1000_0000_0000_0000,
            0x1000_0000_0000_0000,
        );
    }
    let num: i128 = (n as i128) * weighted_sum - index_sum * price_sum;
    let den: i128 = (n as i128) * index_sq_sum - index_sum * index_sum;
    if den <= 0 {
        Ratio::zero()
    } else {
        Ratio { num, den }
    }
}

/// The distinct item ids of a snapshot sequence, in order of first
/// occurrence.
pub open spec fn first_ids(s: Seq<ItemSnapshot>) -> Seq<i32>
    decreases s.len(),
{
    if s.len() == 0 {
        Seq::<i32>::empty()
    } else {
        let rest = first_ids(s.drop_last());
        if rest.contains(s.last().item_id) {
            rest
        } else {
            rest.push(s.last().item_id)
        }
    }
}

/// The snapshots of one item, in their original order.
pub open spec fn group_of(s: Seq<ItemSnapshot>, id: i32) -> Seq<ItemSnapshot>
    decreases s.len(),
{
    if s.len() == 0 {
        Seq::<ItemSnapshot>::empty()
    } else {
        let rest = group_of(s.drop_last(), id);
        if s.last().item_id == id {
            rest.push(s.last())
        } else {
            rest
        }
    }
}

/// The price series of a snapshot group, in order.
pub open spec fn prices_of(g: Seq<ItemSnapshot>) -> Seq<i64>
    decreases g.len(),
{
    if g.len() == 0 {
        Seq::<i64>::empty()
    } else {
        prices_of(g.drop_last()).push(g.last().price as i64)
    }
}

/// The total traded volume of a snapshot group.
pub open spec fn volume_sum(g: Seq<ItemSnapshot>) -> int
    decreases g.len(),
{
    if g.len() == 0 {
        0
    } else {
        volume_sum(g.drop_last()) + g.last().volume
    }
}

/// Every id listed by `first_ids` has a nonempty group.
pub proof fn lemma_first_ids_group_nonempty(s: Seq<ItemSnapshot>, id: i32)
    requires
        first_ids(s).contains(id),
    ensures
        group_of(s, id).len() >= 1,
    decreases s.len(),
{
    if s.len() > 0 {
        let t = s.drop_last();
        if s.last().item_id == id {
        } else {
            let rest = first_ids(t);
            assert(rest.contains(id)) by {
                if !rest.contains(s.last().item_id) {
                    let j = choose|j: int|
                        0 <= j < rest.push(s.last().item_id).len()
                            && rest.push(s.last().item_id)[j] == id;
                    assert(rest[j] == id);
                }
            }
            lemma_first_ids_group_nonempty(t, id);
        }
    }
}

/// The price series of a group is as long as the group, and its entries fit
/// the raw `i32` columns.
pub proof fn lemma_prices_of_props(g: Seq<ItemSnapshot>)
    ensures
        prices_of(g).len() == g.len(),
        elems_i32(prices_of(g)),
    decreases g.len(),
{
    if g.len() > 0 {
        lemma_prices_of_props(g.drop_last());
    }
}

/// The total volume is bounded by the group size times the largest single
/// volume magnitude.
pub proof fn lemma_volume_sum_bound(g: Seq<ItemSnapshot>)
    ensures
        -(g.len() * 0x8000_0000) <= volume_sum(g) <= g.len() * 0x8000_0000,
    decreases g.len(),
{
    if g.len() > 0 {
        lemma_volume_sum_bound(g.drop_last());
    }
}

/// Sorting keeps every element within the raw `i32` range.
pub proof fn lemma_sort_preserves_elems(s: Seq<i64>)
    requires
        elems_i32(s),
    ensures
        elems_i32(sort_i64(s)),
{
    broadcast use vstd::seq_lib::to_multiset_contains;

    lemma_sort_i64_ensures(s);
    assert forall|i: int| 0 <= i < sort_i64(s).len() implies
        -0x8000_0000 <= #[trigger] sort_i64(s)[i] <= 0x7fff_ffff by {
        assert(sort_i64(s).contains(sort_i64(s)[i]));
        assert(sort_i64(s).to_multiset().count(sort_i64(s)[i]) > 0);
        assert(s.contains(sort_i64(s)[i]));
        let j = choose|j: int| 0 <= j < s.len() && s[j] == sort_i64(s)[i];
        assert(s[j] == sort_i64(s)[i]);
    }
}

/// The statistics record for one snapshot group (`g` nonempty,
/// chronological): the sorted price distribution, the recency window of the
/// last (up to) 14 prices, IQR outlier filtering, the least-squares trend of
/// the filtered series (or the full one when the filtered series has fewer
/// than 3 points), and the mean volume.
pub open spec fn item_stats_model(g: Seq<ItemSnapshot>) -> StatsModel {
    let chrono = prices_of(g);
    let sorted_prices = sort_i64(chrono);
    let n = g.len() as int;
    let start = if n >= 14 { n - 14 } else { 0 };
    let rpc = chrono.skip(start);
    let kept = remove_outliers_kept(sorted_prices);
    StatsModel {
        item_id: g.last().item_id as int,
        name: g.last().name@,
        ge_limit: g.last().ge_limit as int,
        current_price: chrono.last() as int,
        prev_price: if n > 1 { chrono[n - 2] as int } else { chrono.last() as int },
        avg_volume: Rat { num: volume_sum(g), den: n },
        data_points: n,
        prices: sorted_prices,
        price_trend: if kept.len() >= 3 {
            trend_spec(kept)
        } else if sorted_prices.len() >= 3 {
            trend_spec(sorted_prices)
        } else {
            rat_zero()
        },
        filtered_prices: kept,
        outliers_removed: outliers_removed_count(sorted_prices),
        recent_prices: sort_i64(rpc),
        recent_prices_chrono: rpc,
    }
}

/// Builds the statistics record for the item `id` from the full snapshot
/// sequence.
pub fn stats_for_id(data: &Vec<ItemSnapshot>, id: i32) -> (r: ItemStats)
    requires
        data@.len() <= 0x4000_0000,
        group_of(data@, id).len() >= 1,
    ensures
        r@ == item_stats_model(group_of(data@, id)),
        r.wf(),
{
    let ghost g: Seq<ItemSnapshot> = group_of(data@, id);
    let mut chrono: Vec<i64> = Vec::new();
    let mut vol_total: i128 = 0;
    let mut count: usize = 0;
    let mut last_idx: usize = 0;
    let mut j: usize = 0;
    while j < data.len()
        invariant
            j <= data@.len(),
            data@.len() <= 0x4000_0000,
            chrono@ == prices_of(group_of(data@.take(j as int), id)),
            vol_total == volume_sum(group_of(data@.take(j as int), id)),
            count == group_of(data@.take(j as int), id).len(),
            count <= j,
            count >= 1 ==> last_idx < j
                && data@[last_idx as int] == group_of(data@.take(j as int), id).last(),
            -(count * 0x8000_0000) <= vol_total <= count * 0x8000_0000,
        decreases data@.len() - j,
    {
        let ghost prefix: Seq<ItemSnapshot> = data@.take(j as int);
        let ghost next: Seq<ItemSnapshot> = data@.take(j + 1);
        proof {
            assert(next.drop_last() =~= prefix);
            assert(next.last() == data@[j as int]);
        }
        if data[j].item_id == id {
            proof {
                let gp = group_of(prefix, id);
                let gn = group_of(next, id);
                assert(gn == gp.push(data@[j as int]));
                assert(gn.drop_last() =~= gp);
                assert(gn.last() == data@[j as int]);
            }
            chrono.push(data[j].price as i64);
            vol_total = vol_total + data[j].volume as i128;
            count = count + 1;
            last_idx = j;
        }
        j = j + 1;
    }
    proof {
        assert(data@.take(data@.len() as int) =~= data@);
        lemma_prices_of_props(g);
    }
    let n: usize = count;
    let mut sorted_prices: Vec<i64> = copy_prices(&chrono);
    sort_vec(&mut sorted_prices);
    let start: usize = if n >= 14 {
        n - 14
    } else {
        0
    };
    let mut rpc: Vec<i64> = Vec::new();
    let mut m: usize = start;
    while m < n
        invariant
            start <= m <= n,
            n == chrono@.len(),
            rpc@ == chrono@.subrange(start as int, m as int),
        decreases n - m,
    {
        rpc.push(chrono[m]);
        assert(rpc@ =~= chrono@.subrange(start as int, m + 1));
        m = m + 1;
    }
    assert(rpc@ =~= prices_of(g).skip(start as int));
    let mut recent_sorted: Vec<i64> = copy_prices(&rpc);
    sort_vec(&mut recent_sorted);
    proof {
        lemma_sort_preserves_elems(chrono@);
        assert(elems_i32(rpc@)) by {
            assert(forall|t: int| 0 <= t < rpc@.len()
                ==> rpc@[t] == #[trigger] chrono@[start + t]);
        }
        lemma_sort_preserves_elems(rpc@);
        lemma_sort_i64_ensures(chrono@);
        lemma_sort_i64_ensures(rpc@);
    }
    let pair: (Vec<i64>, usize) = remove_outliers(&sorted_prices);
    let filtered: Vec<i64> = pair.0;
    let removed: usize = pair.1;
    let price_trend: Ratio = if filtered.len() >= 3 {
        calculate_trend(&filtered)
    } else if sorted_prices.len() >= 3 {
        calculate_trend(&sorted_prices)
    } else {
        Ratio::zero()
    };
    let current_price: i64 = chrono[n - 1];
    let prev_price: i64 = if n > 1 {
        chrono[n - 2]
    } else {
        current_price
    };
    let r = ItemStats {
        item_id: data[last_idx].item_id,
        name: data[last_idx].name.clone(),
        ge_limit: data[last_idx].ge_limit,
        current_price,
        prev_price,
        avg_volume: Ratio { num: vol_total, den: n as i128 },
        data_points: n,
        prices: sorted_prices,
        price_trend,
        filtered_prices: filtered,
        outliers_removed: removed,
        recent_prices: recent_sorted,
        recent_prices_chrono: rpc,
    };
    proof {
        assert(chrono@.last() == prices_of(g).last());
        assert(r@ =~= item_stats_model(g));
    }
    r
}

/// Groups the snapshot sequence by item id and produces one statistics
/// record per distinct item, in order of first occurrence.
pub fn build_stats(data: &Vec<ItemSnapshot>) -> (r: Vec<ItemStats>)
    requires
        data@.len() <= 0x4000_0000,
    ensures
        r@.len() == first_ids(data@).len(),
        forall|k: int| 0 <= k < r@.len()
            ==> #[trigger] r@[k]@ == item_stats_model(group_of(data@, first_ids(data@)[k])),
        forall|k: int| 0 <= k < r@.len() ==> (#[trigger] r@[k]).wf(),
{
    let mut ids: Vec<i32> = Vec::new();
    let mut i: usize = 0;
    while i < data.len()
        invariant
            i <= data@.len(),
            ids@ == first_ids(data@.take(i as int)),
        decreases data@.len() - i,
    {
        let ghost prefix: Seq<ItemSnapshot> = data@.take(i as int);
        let ghost next: Seq<ItemSnapshot> = data@.take(i + 1);
        proof {
            assert(next.drop_last() =~= prefix);
            assert(next.last() == data@[i as int]);
        }
        let id: i32 = data[i].item_id;
        let mut found: bool = false;
        let mut m: usize = 0;
        while m < ids.len()
            invariant
                m <= ids@.len(),
                found <==> exists|t: int| 0 <= t < m && ids@[t] == id,
            decreases ids@.len() - m,
        {
            if ids[m] == id {
                found = true;
            }
            m = m + 1;
        }
        assert(found == ids@.contains(id));
        if !found {
            ids.push(id);
        }
        i = i + 1;
    }
    assert(data@.take(data@.len() as int) =~= data@);
    let mut out: Vec<ItemStats> = Vec::new();
    let mut k: usize = 0;
    while k < ids.len()
        invariant
            k <= ids@.len(),
            out@.len() == k,
            ids@ == first_ids(data@),
            data@.len() <= 0x4000_0000,
            forall|t: int| 0 <= t < k
                ==> #[trigger] out@[t]@ == item_stats_model(group_of(data@, ids@[t])),
            forall|t: int| 0 <= t < k ==> (#[trigger] out@[t]).wf(),
        decreases ids@.len() - k,
    {
        proof {
            assert(ids@.contains(ids@[k as int]));
            lemma_first_ids_group_nonempty(data@, ids@[k as int]);
        }
        let s: ItemStats = stats_for_id(data, ids[k]);
        out.push(s);
        k = k + 1;
    }
    out
}

} // verus!
