//! Flip scoring: crash/spike detection, adaptive window selection, pricing
//! and profitability, tier classification, and the composite score.
//!
//! Rounding is pinned here once for the whole scorer: percentile indices and
//! displayed quantities round half away from zero, fractional sub-scores
//! truncate toward zero, and every fractional threshold of the heuristic
//! (80%, 65%, 125%, 82%, 90%, 2%, `1.5 * IQR`) is decided exactly by
//! cross-multiplication over integers.

use vstd::prelude::*;
use vstd::string::StringExecFns;
use crate::arith::{
    clamp_spec, clamp_to_i32, div_trunc, div_trunc_spec, lemma_div_trunc_bounds,
    round_half_away, round_half_away_spec, sat_add_i32, sat_add_i32_spec,
};
use crate::model::{
    elems_i32, empty_flip_model, rat_zero, FlipModel, FlipResult, ItemSnapshot, ItemStats, Rat, Ratio,
    StatsModel, Tier,
};
use crate::percentile::{lemma_percentile_monotone, percentile, percentile_spec};
use crate::stats::{build_stats, first_ids, group_of, item_stats_model, sum_of};
use crate::text::{dec_int, i64_to_string};

verus! {

/// Tax rate bounds accepted by the scorer: a nonnegative fraction with
/// numerator and denominator at most `2^32`, so that every tax
/// cross-multiplication fits in `i128`.
pub open spec fn tax_rate_wf(t: Rat) -> bool {
    &&& 0 <= t.num <= 0x1_0000_0000
    &&& 1 <= t.den <= 0x1_0000_0000
}

/// Median of the recent window, falling back to the overall median when the
/// recent window is empty.
pub open spec fn recent_median_spec(s: StatsModel) -> int {
    if s.recent_prices.len() > 0 {
        percentile_spec(s.recent_prices, 50) as int
    } else {
        percentile_spec(s.prices, 50) as int
    }
}

/// The price crashed: the recent median sits below 80% of the overall
/// median, or below 65% of the overall upper quartile (which also catches
/// items that fell from a high price while the overall median is mid-range).
pub open spec fn price_crashed_spec(s: StatsModel) -> bool {
    let m = recent_median_spec(s);
    let overall = percentile_spec(s.prices, 50) as int;
    let q75 = percentile_spec(s.prices, 75) as int;
    100 * m < 80 * overall || 100 * m < 65 * q75
}

/// The price spiked: the recent median sits above 125% of the overall
/// median.
pub open spec fn price_spiked_spec(s: StatsModel) -> bool {
    100 * recent_median_spec(s) > 125 * (percentile_spec(s.prices, 50) as int)
}

/// Mean of the chronological recent window, falling back to the recent
/// median when that window is empty.
pub open spec fn recent_avg_spec(s: StatsModel) -> Rat {
    if s.recent_prices_chrono.len() > 0 {
        Rat {
            num: sum_of(s.recent_prices_chrono),
            den: s.recent_prices_chrono.len() as int,
        }
    } else {
        Rat { num: recent_median_spec(s), den: 1 }
    }
}

/// The item peaked and now trades well below its peak: the recent mean sits
/// below 82% of the overall upper quartile.
pub open spec fn post_spike_crash_spec(s: StatsModel) -> bool {
    let avg = recent_avg_spec(s);
    let q75 = percentile_spec(s.prices, 75) as int;
    100 * avg.num < 82 * q75 * avg.den
}

/// Within a recent window of at least 6 points, the mean of the second half
/// sits below 90% of the mean of the first half (the first half holds
/// `len / 2` points, floor division).
pub open spec fn recent_downtrend_spec(s: StatsModel) -> bool {
    let c = s.recent_prices_chrono;
    if c.len() < 6 {
        false
    } else {
        let mid = c.len() as int / 2;
        let first_sum = sum_of(c.take(mid));
        let second_sum = sum_of(c.skip(mid));
        10 * second_sum * mid < 9 * first_sum * (c.len() - mid)
    }
}

/// A very recent crash within the window: post-spike crash or an in-window
/// downtrend.
pub open spec fn recent_trend_crash_spec(s: StatsModel) -> bool {
    post_spike_crash_spec(s) || recent_downtrend_spec(s)
}

/// The scorer trusts the recent window when the market moved (crash or
/// spike) and the window holds at least 10 points.
pub open spec fn use_recent_spec(s: StatsModel) -> bool {
    (price_crashed_spec(s) || price_spiked_spec(s)) && s.recent_prices.len() >= 10
}

/// Otherwise the outlier-filtered series is trusted when filtering actually
/// removed something.
pub open spec fn use_filtered_spec(s: StatsModel) -> bool {
    !use_recent_spec(s) && s.filtered_prices.len() > 0 && s.outliers_removed > 0
}

/// The working price series of the scorer. All three candidates are already
/// ascending-sorted under the statistics invariant, so no further sort is
/// needed.
pub open spec fn working_series_spec(s: StatsModel) -> Seq<i64> {
    if use_recent_spec(s) {
        s.recent_prices
    } else if use_filtered_spec(s) {
        s.filtered_prices
    } else {
        s.prices
    }
}

/// Suggested buy price: the 15th percentile of the working series when the
/// recent window is trusted (a tighter band avoids stale extremes), else the
/// 10th.
pub open spec fn buy_price_spec(s: StatsModel) -> int {
    if use_recent_spec(s) {
        percentile_spec(working_series_spec(s), 15) as int
    } else {
        percentile_spec(working_series_spec(s), 10) as int
    }
}

/// Suggested sell price: the 85th percentile of the working series when the
/// recent window is trusted, else the 90th.
pub open spec fn sell_price_spec(s: StatsModel) -> int {
    if use_recent_spec(s) {
        percentile_spec(working_series_spec(s), 85) as int
    } else {
        percentile_spec(working_series_spec(s), 90) as int
    }
}

/// Net profit per unit after tax, as an exact rational: the gross spread
/// minus the sell-side tax `sell * tax`.
pub open spec fn net_profit_spec(s: StatsModel, tax: Rat) -> Rat {
    Rat {
        num: (sell_price_spec(s) - buy_price_spec(s)) * tax.den
            - sell_price_spec(s) * tax.num,
        den: tax.den,
    }
}

/// Return on investment in percent: `100 * net / buy`, or zero when the buy
/// price is not positive.
pub open spec fn roi_spec(s: StatsModel, tax: Rat) -> Rat {
    if buy_price_spec(s) > 0 {
        Rat {
            num: 100 * net_profit_spec(s, tax).num,
            den: buy_price_spec(s) * tax.den,
        }
    } else {
        rat_zero()
    }
}

/// Relative spread of the working series, `100 * (P90 - P10) / P50`, or
/// zero when the median is not positive.
pub open spec fn volatility_spec(s: StatsModel) -> Rat {
    let w = working_series_spec(s);
    let q10 = percentile_spec(w, 10) as int;
    let q50 = percentile_spec(w, 50) as int;
    let q90 = percentile_spec(w, 90) as int;
    if q50 > 0 {
        Rat { num: 100 * (q90 - q10), den: q50 }
    } else {
        rat_zero()
    }
}

/// Exact rational comparison `r > k` (for a positive denominator).
pub open spec fn rat_gt_int(r: Rat, k: int) -> bool {
    r.num > k * r.den
}

/// Tier classification, first match wins: negative net profit is a crash;
/// then ROI above 35 / 20 / 8 percent or net profit above 5,000,000 /
/// 1,000,000 / 200,000 yield diamond / gold / green; anything else is
/// normal.
pub open spec fn tier_spec(net: Rat, roi: Rat) -> Tier {
    if net.num < 0 {
        Tier::Crash
    } else if rat_gt_int(roi, 35) || rat_gt_int(net, 5_000_000) {
        Tier::Diamond
    } else if rat_gt_int(roi, 20) || rat_gt_int(net, 1_000_000) {
        Tier::Gold
    } else if rat_gt_int(roi, 8) || rat_gt_int(net, 200_000) {
        Tier::Green
    } else {
        Tier::Normal
    }
}

/// ROI sub-score: twice the ROI percentage, truncated, clamped to `i32`
/// range.
pub open spec fn roi_score_spec(roi: Rat) -> int {
    clamp_spec(div_trunc_spec(2 * roi.num, roi.den), -0x8000_0000, 0x7fff_ffff)
}

/// Pinned fixed-point table: `10^(r/15)` scaled by `10^9` and rounded, for
/// `r` in `0..15`. Together with `pow10_spec` it pins the thresholds at
/// which the volume sub-score steps.
pub open spec fn log_step_table(r: int) -> int {
    if r == 0 {
        1_000_000_000
    } else if r == 1 {
        1_165_914_401
    } else if r == 2 {
        1_359_356_391
    } else if r == 3 {
        1_584_893_192
    } else if r == 4 {
        1_847_849_797
    } else if r == 5 {
        2_154_434_690
    } else if r == 6 {
        2_511_886_432
    } else if r == 7 {
        2_928_644_565
    } else if r == 8 {
        3_414_548_874
    } else if r == 9 {
        3_981_071_706
    } else if r == 10 {
        4_641_588_834
    } else if r == 11 {
        5_411_695_265
    } else if r == 12 {
        6_309_573_445
    } else if r == 13 {
        7_356_422_545
    } else {
        8_576_958_986
    }
}

/// `10^q` for small nonnegative `q`.
pub open spec fn pow10_spec(q: int) -> int
    decreases q,
{
    if q <= 0 {
        1
    } else {
        10 * pow10_spec(q - 1)
    }
}

/// Fixed-point threshold for volume score `k`: about `10^(k/15) * 10^9`.
pub open spec fn vol_threshold(k: int) -> int {
    pow10_spec(k / 15) * log_step_table(k % 15)
}

/// The largest score in `0..=k` whose threshold the mean `num / den`
/// reaches, or 0 when none is reached.
pub open spec fn vol_score_upto(num: int, den: int, k: int) -> int
    decreases k,
{
    if k <= 0 {
        0
    } else if num * 1_000_000_000 >= vol_threshold(k) * den {
        k
    } else {
        vol_score_upto(num, den, k - 1)
    }
}

/// Volume sub-score: `15 * log10(mean volume)` truncated and clamped to
/// `[0, 100]`, evaluated exactly against the pinned threshold table; zero
/// for a nonpositive mean.
pub open spec fn volume_score_spec(avg: Rat) -> int {
    if avg.num > 0 {
        vol_score_upto(avg.num, avg.den, 100)
    } else {
        0
    }
}

/// Profit sub-score: the net profit in units of 100,000, truncated, limited
/// to 50 in magnitude on both sides.
pub open spec fn profit_score_spec(net: Rat) -> int {
    let t = div_trunc_spec(net.num, 100_000 * net.den);
    if net.num > 0 {
        if t > 50 {
            50
        } else {
            t
        }
    } else {
        if t < -50 {
            -50
        } else {
            t
        }
    }
}

/// Volatility sub-score: half the volatility percentage, capped at 50.
pub open spec fn volatility_score_spec(vol: Rat) -> int {
    if vol.num > 100 * vol.den {
        50
    } else {
        div_trunc_spec(vol.num, 2 * vol.den)
    }
}

/// Reliability sub-score: a fifth of the observation count, capped at 10.
pub open spec fn reliability_score_spec(n: int) -> int {
    if n / 5 > 10 {
        10
    } else {
        n / 5
    }
}

/// Spread penalty: -20 when the 10th-90th percentile spread of the working
/// series is narrower than 2% of the buy price.
pub open spec fn spread_penalty_spec(s: StatsModel) -> int {
    let w = working_series_spec(s);
    let range = percentile_spec(w, 90) - percentile_spec(w, 10);
    if 50 * range < buy_price_spec(s) {
        -20
    } else {
        0
    }
}

/// Trend sub-score: half the slope, truncated, limited to 50 in magnitude
/// before halving on both sides.
pub open spec fn trend_score_spec(t: Rat) -> int {
    if t.num > 0 {
        if t.num > 50 * t.den {
            25
        } else {
            div_trunc_spec(t.num, 2 * t.den)
        }
    } else {
        if t.num < -50 * t.den {
            -25
        } else {
            div_trunc_spec(t.num, 2 * t.den)
        }
    }
}

/// Outlier penalty: -30 when more than a fifth of the points were removed,
/// -10 when any were removed, else 0.
pub open spec fn outlier_penalty_spec(removed: int, n: int) -> int {
    if removed > n / 5 {
        -30
    } else if removed > 0 {
        -10
    } else {
        0
    }
}

/// Crash penalty: -80 for a very recent in-window crash, else -50 for a
/// crashed price, else -30 for a spiked price, else 0.
pub open spec fn crash_penalty_spec(s: StatsModel) -> int {
    if recent_trend_crash_spec(s) {
        -80
    } else if price_crashed_spec(s) {
        -50
    } else if price_spiked_spec(s) {
        -30
    } else {
        0
    }
}

/// Composite score: the saturating sum of all sub-scores, added in a fixed
/// order.
pub open spec fn score_spec(s: StatsModel, tax: Rat) -> int {
    let roi = roi_spec(s, tax);
    let net = net_profit_spec(s, tax);
    sat_add_i32_spec(
        sat_add_i32_spec(
            sat_add_i32_spec(
                sat_add_i32_spec(
                    sat_add_i32_spec(
                        sat_add_i32_spec(
                            sat_add_i32_spec(
                                sat_add_i32_spec(
                                    roi_score_spec(roi),
                                    volume_score_spec(s.avg_volume),
                                ),
                                profit_score_spec(net),
                            ),
                            volatility_score_spec(volatility_spec(s)),
                        ),
                        reliability_score_spec(s.data_points),
                    ),
                    spread_penalty_spec(s),
                ),
                trend_score_spec(s.price_trend),
            ),
            outlier_penalty_spec(s.outliers_removed, s.data_points),
        ),
        crash_penalty_spec(s),
    )
}

/// Reported per-unit profit: the net profit rounded half away from zero,
/// clamped to `i32` range.
pub open spec fn profit_out_spec(net: Rat) -> int {
    clamp_spec(round_half_away_spec(net.num, net.den), -0x8000_0000, 0x7fff_ffff)
}

/// The informal annotation: a crash/spike marker, the outlier count when any
/// were removed, and a fixed trailer with the volatility percentage, the
/// absolute spread, the 5th-95th percentile band, and the observation count.
/// Display text only; never parsed.
pub open spec fn notes_spec(s: StatsModel) -> Seq<char> {
    let w = working_series_spec(s);
    let vol = volatility_spec(s);
    let marker: Seq<char> = if recent_trend_crash_spec(s) {
        "VOLATILE-CRASHING | "@
    } else if use_recent_spec(s) {
        if price_crashed_spec(s) {
            "Crashed | "@
        } else if price_spiked_spec(s) {
            "Spiked | "@
        } else {
            Seq::<char>::empty()
        }
    } else {
        Seq::<char>::empty()
    };
    let outliers: Seq<char> = if s.outliers_removed > 0 {
        dec_int(s.outliers_removed) + " outliers | "@
    } else {
        Seq::<char>::empty()
    };
    marker + outliers + "Vol:"@ + dec_int(round_half_away_spec(vol.num, vol.den))
        + "% | Spread:"@ + dec_int(sell_price_spec(s) - buy_price_spec(s)) + "gp | Q5-Q95:"@
        + dec_int(percentile_spec(w, 5) as int) + "-"@ + dec_int(percentile_spec(w, 95) as int)
        + " | Data:"@ + dec_int(s.data_points) + "pts"@
}

/// The full recommendation for one statistics record and tax rate; the
/// empty sentinel when the record has no observations.
pub open spec fn analyze_spec(s: StatsModel, tax: Rat) -> FlipModel {
    if s.prices.len() == 0 {
        empty_flip_model()
    } else {
        let net = net_profit_spec(s, tax);
        FlipModel {
            score: score_spec(s, tax),
            tier: tier_spec(net, roi_spec(s, tax)),
            buy: buy_price_spec(s),
            sell: sell_price_spec(s),
            qty: 1,
            profit: profit_out_spec(net),
            roi: roi_spec(s, tax),
            avg_volume: s.avg_volume,
            notes: notes_spec(s),
        }
    }
}

/// Sum of the series elements in `[from, to)` (window of at most 14
/// points).
fn sum_range(v: &Vec<i64>, from: usize, to: usize) -> (r: i64)
    requires
        elems_i32(v@),
        from <= to,
        to <= v@.len(),
        v@.len() <= 14,
    ensures
        r == sum_of(v@.subrange(from as int, to as int)),
        -(((to - from) as int) * 0x8000_0000) <= r <= ((to - from) as int) * 0x8000_0000,
{
    let mut total: i64 = 0;
    let mut i: usize = from;
    while i < to
        invariant
            from <= i <= to,
            to <= v@.len() <= 14,
            elems_i32(v@),
            total == sum_of(v@.subrange(from as int, i as int)),
            -(((i - from) as int) * 0x8000_0000) <= total
                <= ((i - from) as int) * 0x8000_0000,
        decreases to - i,
    {
        proof {
            assert(v@.subrange(from as int, i + 1).drop_last()
                =~= v@.subrange(from as int, i as int));
            assert(v@.subrange(from as int, i + 1).last() == v@[i as int]);
        }
        total = total + v[i];
        i = i + 1;
    }
    total
}

/// Fixed-point threshold for one volume-score step.
fn vol_threshold_exec(k: u64) -> (t: i128)
    requires
        k <= 100,
    ensures
        t == vol_threshold(k as int),
        0 < t <= 0x2000_0000_0000_0000,
{
    let q: u64 = k / 15;
    let r: u64 = k % 15;
    let p: i128 = if q == 0 {
        1
    } else if q == 1 {
        10
    } else if q == 2 {
        100
    } else if q == 3 {
        1_000
    } else if q == 4 {
        10_000
    } else if q == 5 {
        100_000
    } else {
        1_000_000
    };
    proof {
        reveal_with_fuel(pow10_spec, 8);
        assert(q <= 6);
        assert(p == pow10_spec(q as int));
    }
    let c: i128 = if r == 0 {
        1_000_000_000
    } else if r == 1 {
        1_165_914_401
    } else if r == 2 {
        1_359_356_391
    } else if r == 3 {
        1_584_893_192
    } else if r == 4 {
        1_847_849_797
    } else if r == 5 {
        2_154_434_690
    } else if r == 6 {
        2_511_886_432
    } else if r == 7 {
        2_928_644_565
    } else if r == 8 {
        3_414_548_874
    } else if r == 9 {
        3_981_071_706
    } else if r == 10 {
        4_641_588_834
    } else if r == 11 {
        5_411_695_265
    } else if r == 12 {
        6_309_573_445
    } else if r == 13 {
        7_356_422_545
    } else {
        8_576_958_986
    };
    assert(c == log_step_table(r as int));
    p * c
}

/// Volume sub-score of a mean volume.
fn volume_score(avg: &Ratio) -> (r: i32)
    requires
        avg@.bounded(0x2000_0000_0000_0000, 0x4000_0000),
    ensures
        r == volume_score_spec(avg@),
{
    if avg.num <= 0 {
        return 0;
    }
    let num: i128 = avg.num;
    let den: i128 = avg.den;
    let mut k: u64 = 100;
    while k > 0
        invariant
            k <= 100,
            num == avg@.num,
            den == avg@.den,
            0 < num <= 0x2000_0000_0000_0000,
            1 <= den <= 0x4000_0000,
            vol_score_upto(num as int, den as int, 100)
                == vol_score_upto(num as int, den as int, k as int),
        decreases k,
    {
        let t: i128 = vol_threshold_exec(k);
        proof {
            crate::arith::lemma_mul_bound(
                t as int,
                den as int,
                0x2000_0000_0000_0000,
                0x4000_0000,
            );
        }
        if num * 1_000_000_000 >= t * den {
            return k as i32;
        }
        k = k - 1;
    }
    0
}
/// Detects the market state of one item: whether the price crashed,
/// whether it spiked, and whether a very recent in-window crash is under
/// way.
fn market_state(stats: &ItemStats) -> (f: (bool, bool, bool))
    requires
        stats.wf(),
        stats@.prices.len() > 0,
    ensures
        f.0 == price_crashed_spec(stats@),
        f.1 == price_spiked_spec(stats@),
        f.2 == recent_trend_crash_spec(stats@),
{
    let overall_median: i64 = percentile(&stats.prices, 50);
    let overall_q75: i64 = percentile(&stats.prices, 75);
    let recent_median: i64 = if stats.recent_prices.len() > 0 {
        percentile(&stats.recent_prices, 50)
    } else {
        overall_median
    };
    assert(recent_median == recent_median_spec(stats@));

    let price_crashed: bool = 100 * recent_median < 80 * overall_median
        || 100 * recent_median < 65 * overall_q75;
    let price_spiked: bool = 100 * recent_median > 125 * overall_median;

    let rc_len: usize = stats.recent_prices_chrono.len();
    let avg_pair: (i64, i64) = if rc_len > 0 {
        let total: i64 = sum_range(&stats.recent_prices_chrono, 0, rc_len);
        proof {
            assert(stats@.recent_prices_chrono.subrange(0, rc_len as int)
                =~= stats@.recent_prices_chrono);
        }
        (total, rc_len as i64)
    } else {
        (recent_median, 1)
    };
    let avg_num: i64 = avg_pair.0;
    let avg_den: i64 = avg_pair.1;
    assert(avg_num == recent_avg_spec(stats@).num);
    assert(avg_den == recent_avg_spec(stats@).den);

    proof {
        crate::arith::lemma_mul_bound(
            82 * (overall_q75 as int),
            avg_den as int,
            0x100_0000_0000,
            14,
        );
    }
    let post_spike_crash: bool = 100 * (avg_num as i128)
        < 82 * (overall_q75 as i128) * (avg_den as i128);
    assert(post_spike_crash == post_spike_crash_spec(stats@));

    let recent_downtrend: bool = if rc_len >= 6 {
        let mid: usize = rc_len / 2;
        let first_sum: i64 = sum_range(&stats.recent_prices_chrono, 0, mid);
        let second_sum: i64 = sum_range(&stats.recent_prices_chrono, mid, rc_len);
        proof {
            assert(stats@.recent_prices_chrono.subrange(0, mid as int)
                =~= stats@.recent_prices_chrono.take(mid as int));
            assert(stats@.recent_prices_chrono.subrange(mid as int, rc_len as int)
                =~= stats@.recent_prices_chrono.skip(mid as int));
            crate::arith::lemma_mul_bound(
                10 * (second_sum as int),
                mid as int,
                0x100_0000_0000,
                14,
            );
            crate::arith::lemma_mul_bound(
                9 * (first_sum as int),
                (rc_len - mid) as int,
                0x100_0000_0000,
                14,
            );
        }
        10 * (second_sum as i128) * (mid as i128)
            < 9 * (first_sum as i128) * ((rc_len - mid) as i128)
    } else {
        false
    };
    assert(recent_downtrend == recent_downtrend_spec(stats@));

    (price_crashed, price_spiked, post_spike_crash || recent_downtrend)
}

/// Builds the informal annotation string from the already-computed scoring
/// quantities.
fn build_notes(
    stats: &ItemStats,
    crashed: bool,
    spiked: bool,
    trend_crash: bool,
    recent_used: bool,
    buy: i64,
    sell: i64,
    q05: i64,
    q95: i64,
    vol_num: i64,
    vol_den: i64,
) -> (s: String)
    requires
        stats.wf(),
        crashed == price_crashed_spec(stats@),
        spiked == price_spiked_spec(stats@),
        trend_crash == recent_trend_crash_spec(stats@),
        recent_used == use_recent_spec(stats@),
        buy == buy_price_spec(stats@),
        sell == sell_price_spec(stats@),
        q05 == percentile_spec(working_series_spec(stats@), 5),
        q95 == percentile_spec(working_series_spec(stats@), 95),
        vol_num == volatility_spec(stats@).num,
        vol_den == volatility_spec(stats@).den,
        0 <= vol_num <= 0x100_0000_0000,
        1 <= vol_den <= 0x8000_0000,
        -0x8000_0000 <= buy <= 0x8000_0000,
        -0x8000_0000 <= sell <= 0x8000_0000,
        -0x8000_0000 <= q05 <= 0x8000_0000,
        -0x8000_0000 <= q95 <= 0x8000_0000,
    ensures
        s@ == notes_spec(stats@),
{
    let mut notes: String = String::new();
    if trend_crash {
        notes.append("VOLATILE-CRASHING | ");
    } else if recent_used {
        if crashed {
            notes.append("Crashed | ");
        } else if spiked {
            notes.append("Spiked | ");
        }
    }
    if stats.outliers_removed > 0 {
        let t = i64_to_string(stats.outliers_removed as i64);
        notes.append(t.as_str());
        notes.append(" outliers | ");
    }
    notes.append("Vol:");
    let vol_rounded: i128 = round_half_away(vol_num as i128, vol_den as i128);
    let tv = i64_to_string(vol_rounded as i64);
    notes.append(tv.as_str());
    notes.append("% | Spread:");
    let t_spread = i64_to_string(sell - buy);
    notes.append(t_spread.as_str());
    notes.append("gp | Q5-Q95:");
    let t_q05 = i64_to_string(q05);
    notes.append(t_q05.as_str());
    notes.append("-");
    let t_q95 = i64_to_string(q95);
    notes.append(t_q95.as_str());
    notes.append(" | Data:");
    let t_dp = i64_to_string(stats.data_points as i64);
    notes.append(t_dp.as_str());
    notes.append("pts");
    proof {
        assert(notes@ =~= notes_spec(stats@));
    }
    notes
}

/// Analyzes one item's statistics under the given tax rate and produces its
/// flip recommendation; the empty sentinel when no price data exists.
#[verifier::rlimit(60)]
pub fn analyze(stats: &ItemStats, tax: Ratio) -> (r: FlipResult)
    requires
        stats.wf(),
        tax_rate_wf(tax@),
    ensures
        r@ == analyze_spec(stats@, tax@),
{
    if stats.prices.len() == 0 {
        let r = FlipResult::empty();
        proof {
            assert(r@ =~= analyze_spec(stats@, tax@));
        }
        return r;
    }
    let flags: (bool, bool, bool) = market_state(stats);
    let price_crashed: bool = flags.0;
    let price_spiked: bool = flags.1;
    let recent_trend_crash: bool = flags.2;

    let use_recent: bool = (price_crashed || price_spiked) && stats.recent_prices.len() >= 10;
    let use_filtered: bool = !use_recent && stats.filtered_prices.len() > 0
        && stats.outliers_removed > 0;
    let working: &Vec<i64> = if use_recent {
        &stats.recent_prices
    } else if use_filtered {
        &stats.filtered_prices
    } else {
        &stats.prices
    };
    assert(working@ == working_series_spec(stats@));

    let q05: i64 = percentile(working, 5);
    let q10: i64 = percentile(working, 10);
    let q15: i64 = percentile(working, 15);
    let q50: i64 = percentile(working, 50);
    let q85: i64 = percentile(working, 85);
    let q90: i64 = percentile(working, 90);
    let q95: i64 = percentile(working, 95);

    let buy: i64 = if use_recent {
        q15
    } else {
        q10
    };
    let sell: i64 = if use_recent {
        q85
    } else {
        q90
    };
    assert(buy == buy_price_spec(stats@));
    assert(sell == sell_price_spec(stats@));

    proof {
        lemma_percentile_monotone(working@, 10, 90);
    }
    let price_range: i64 = q90 - q10;
    let vol_pair: (i64, i64) = if q50 > 0 {
        (100 * price_range, q50)
    } else {
        (0, 1)
    };
    let vol_num: i64 = vol_pair.0;
    let vol_den: i64 = vol_pair.1;
    assert(vol_num == volatility_spec(stats@).num);
    assert(vol_den == volatility_spec(stats@).den);

    let tn: i128 = tax.num;
    let td: i128 = tax.den;
    proof {
        crate::arith::lemma_mul_bound(
            sell - buy,
            td as int,
            0x1_0000_0000,
            0x1_0000_0000,
        );
        crate::arith::lemma_mul_bound(
            sell as int,
            tn as int,
            0x8000_0000,
            0x1_0000_0000,
        );
        crate::arith::lemma_mul_bound(
            buy as int,
            td as int,
            0x8000_0000,
            0x1_0000_0000,
        );
    }
    let net_num: i128 = ((sell - buy) as i128) * td - (sell as i128) * tn;
    let net_den: i128 = td;
    assert(net_num == net_profit_spec(stats@, tax@).num);
    assert(net_den == net_profit_spec(stats@, tax@).den);

    let roi_pair: (i128, i128) = if buy > 0 {
        proof {
            assert((buy as int) * (td as int) >= 1) by (nonlinear_arith)
                requires
                    buy as int >= 1,
                    td as int >= 1,
            ;
        }
        (100 * net_num, (buy as i128) * td)
    } else {
        (0, 1)
    };
    let roi_num: i128 = roi_pair.0;
    let roi_den: i128 = roi_pair.1;
    assert(roi_num == roi_spec(stats@, tax@).num);
    assert(roi_den == roi_spec(stats@, tax@).den);
    assert(roi_den >= 1);

    let tier: Tier = if net_num < 0 {
        Tier::Crash
    } else if roi_num > 35 * roi_den || net_num > 5_000_000 * net_den {
        Tier::Diamond
    } else if roi_num > 20 * roi_den || net_num > 1_000_000 * net_den {
        Tier::Gold
    } else if roi_num > 8 * roi_den || net_num > 200_000 * net_den {
        Tier::Green
    } else {
        Tier::Normal
    };
    assert(tier == tier_spec(net_profit_spec(stats@, tax@), roi_spec(stats@, tax@)));

    let roi_score: i32 = clamp_to_i32(div_trunc(2 * roi_num, roi_den));
    assert(roi_score == roi_score_spec(roi_spec(stats@, tax@)));

    let volume_score_v: i32 = volume_score(&stats.avg_volume);

    let profit_t: i128 = div_trunc(net_num, 100_000 * net_den);
    let profit_score: i32 = if net_num > 0 {
        if profit_t > 50 {
            50
        } else {
            profit_t as i32
        }
    } else {
        if profit_t < -50 {
            -50
        } else {
            profit_t as i32
        }
    };
    assert(profit_score == profit_score_spec(net_profit_spec(stats@, tax@)));

    let volatility_score: i32 = if (vol_num as i128) > 100 * (vol_den as i128) {
        50
    } else {
        proof {
            lemma_div_trunc_bounds(vol_num as int, 2 * (vol_den as int), 50);
        }
        div_trunc(vol_num as i128, 2 * (vol_den as i128)) as i32
    };
    assert(volatility_score == volatility_score_spec(volatility_spec(stats@)));

    let dp: usize = stats.data_points;
    let rel: usize = dp / 5;
    let reliability_score: i32 = if rel > 10 {
        10
    } else {
        rel as i32
    };
    assert(reliability_score == reliability_score_spec(stats@.data_points));

    let spread_penalty: i32 = if 50 * price_range < buy {
        -20
    } else {
        0
    };
    assert(spread_penalty == spread_penalty_spec(stats@));

    let t_num: i128 = stats.price_trend.num;
    let t_den: i128 = stats.price_trend.den;
    let trend_score: i32 = if t_num > 0 {
        if t_num > 50 * t_den {
            25
        } else {
            proof {
                lemma_div_trunc_bounds(t_num as int, 2 * (t_den as int), 25);
            }
            div_trunc(t_num, 2 * t_den) as i32
        }
    } else {
        if t_num < -50 * t_den {
            -25
        } else {
            proof {
                lemma_div_trunc_bounds(t_num as int, 2 * (t_den as int), 25);
            }
            div_trunc(t_num, 2 * t_den) as i32
        }
    };
    assert(trend_score == trend_score_spec(stats@.price_trend));

    let outlier_penalty: i32 = if stats.outliers_removed > dp / 5 {
        -30
    } else if stats.outliers_removed > 0 {
        -10
    } else {
        0
    };
    assert(outlier_penalty == outlier_penalty_spec(stats@.outliers_removed, stats@.data_points));

    let crash_penalty: i32 = if recent_trend_crash {
        -80
    } else if price_crashed {
        -50
    } else if price_spiked {
        -30
    } else {
        0
    };
    assert(crash_penalty == crash_penalty_spec(stats@));

    let score: i32 = sat_add_i32(
        sat_add_i32(
            sat_add_i32(
                sat_add_i32(
                    sat_add_i32(
                        sat_add_i32(
                            sat_add_i32(
                                sat_add_i32(roi_score, volume_score_v),
                                profit_score,
                            ),
                            volatility_score,
                        ),
                        reliability_score,
                    ),
                    spread_penalty,
                ),
                trend_score,
            ),
            outlier_penalty,
        ),
        crash_penalty,
    );
    assert(score == score_spec(stats@, tax@));

    let profit: i32 = clamp_to_i32(round_half_away(net_num, net_den));
    assert(profit == profit_out_spec(net_profit_spec(stats@, tax@)));

    let notes: String = build_notes(
        stats,
        price_crashed,
        price_spiked,
        recent_trend_crash,
        use_recent,
        buy,
        sell,
        q05,
        q95,
        vol_num,
        vol_den,
    );

    let r = FlipResult {
        score,
        tier,
        buy,
        sell,
        qty: 1,
        profit,
        roi: Ratio { num: roi_num, den: roi_den },
        avg_volume: stats.avg_volume,
        notes,
    };
    proof {
        assert(r@ =~= analyze_spec(stats@, tax@));
    }
    r
}

/// Runs the whole pipeline in one pass: aggregates the snapshots per item
/// and produces one recommendation per distinct item, in order of first
/// occurrence.
pub fn scan(data: &Vec<ItemSnapshot>, tax: Ratio) -> (r: Vec<FlipResult>)
    requires
        data@.len() <= 0x4000_0000,
        tax_rate_wf(tax@),
    ensures
        r@.len() == first_ids(data@).len(),
        forall|k: int| 0 <= k < r@.len()
            ==> #[trigger] r@[k]@ == analyze_spec(
                item_stats_model(group_of(data@, first_ids(data@)[k])),
                tax@,
            ),
{
    let stats: Vec<ItemStats> = build_stats(data);
    let mut out: Vec<FlipResult> = Vec::new();
    let mut k: usize = 0;
    while k < stats.len()
        invariant
            k <= stats@.len(),
            out@.len() == k,
            tax_rate_wf(tax@),
            stats@.len() == first_ids(data@).len(),
            forall|t: int| 0 <= t < stats@.len()
                ==> #[trigger] stats@[t]@
                    == item_stats_model(group_of(data@, first_ids(data@)[t])),
            forall|t: int| 0 <= t < stats@.len() ==> (#[trigger] stats@[t]).wf(),
            forall|t: int| 0 <= t < k
                ==> #[trigger] out@[t]@ == analyze_spec(
                    item_stats_model(group_of(data@, first_ids(data@)[t])),
                    tax@,
                ),
        decreases stats@.len() - k,
    {
        let f: FlipResult = analyze(&stats[k], tax);
        out.push(f);
        k = k + 1;
    }
    out
}

} // verus!
