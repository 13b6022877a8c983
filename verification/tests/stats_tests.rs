//! Tests for the percentile estimator, outlier removal, trend estimation,
//! and snapshot grouping.

use rs3_market::model::{ItemSnapshot, Ratio};
use rs3_market::percentile::percentile;
use rs3_market::stats::{build_stats, calculate_trend, remove_outliers};
use rs3_market::text::i64_to_string;

fn snap(item_id: i32, name: &str, price: i32, volume: i32) -> ItemSnapshot {
    ItemSnapshot {
        item_id,
        name: name.to_string(),
        ge_limit: 100,
        record_date: "2026-01-01".to_string(),
        price,
        volume,
    }
}

#[test]
fn percentile_five_point_series() {
    let v: Vec<i64> = vec![10, 20, 30, 40, 50];
    assert_eq!(percentile(&v, 50), 30);
    assert_eq!(percentile(&v, 0), 10);
    assert_eq!(percentile(&v, 100), 50);
}

#[test]
fn percentile_empty_is_zero() {
    let v: Vec<i64> = vec![];
    assert_eq!(percentile(&v, 0), 0);
    assert_eq!(percentile(&v, 50), 0);
    assert_eq!(percentile(&v, 100), 0);
}

#[test]
fn percentile_rounds_half_away_from_zero() {
    // index = round((2 - 1) * 0.5) = round(0.5) = 1
    let v: Vec<i64> = vec![1, 9];
    assert_eq!(percentile(&v, 50), 9);
}

#[test]
fn outlier_removal_noop_below_ten_points() {
    // 9 points: no filtering even with an extreme value present.
    let v: Vec<i64> = vec![1, 1, 1, 1, 1, 1, 1, 1, 1_000_000];
    let (kept, removed) = remove_outliers(&v);
    assert_eq!(kept, v);
    assert_eq!(removed, 0);
}

#[test]
fn outlier_removal_drops_extreme_point() {
    // Q1 = Q3 = 5, so the bounds collapse to [5, 5]; nine of ten points
    // survive, which is at least 70%, so the filtering stands.
    let v: Vec<i64> = vec![1, 5, 5, 5, 5, 5, 5, 5, 5, 5];
    let (kept, removed) = remove_outliers(&v);
    assert_eq!(kept, vec![5, 5, 5, 5, 5, 5, 5, 5, 5]);
    assert_eq!(removed, 1);
}

#[test]
fn outlier_removal_reverts_when_too_aggressive() {
    // Q1 = Q3 = 5 again, but only six of ten points survive the bounds,
    // which is less than 70%: the filtering is discarded.
    let v: Vec<i64> = vec![0, 0, 5, 5, 5, 5, 5, 5, 20, 20];
    let (kept, removed) = remove_outliers(&v);
    assert_eq!(kept, v);
    assert_eq!(removed, 0);
    // The kept series is never shorter than ceil(0.7 * n).
    assert!(10 * kept.len() >= 7 * v.len());
}

#[test]
fn trend_of_linear_series_is_one() {
    let v: Vec<i64> = vec![1, 2, 3, 4, 5];
    let t: Ratio = calculate_trend(&v);
    assert_eq!(t.num, t.den);
    assert!(t.den > 0);
}

#[test]
fn trend_of_constant_series_is_zero() {
    let v: Vec<i64> = vec![7, 7, 7, 7];
    let t: Ratio = calculate_trend(&v);
    assert_eq!(t.num, 0);
}

#[test]
fn trend_slope_of_step_ten_series() {
    let v: Vec<i64> = vec![10, 20, 30];
    let t: Ratio = calculate_trend(&v);
    assert_eq!(t.num, 10 * t.den);
}

#[test]
fn build_stats_groups_by_item_in_first_seen_order() {
    let snaps = vec![
        snap(1, "alpha", 10, 1),
        snap(2, "beta", 5, 7),
        snap(1, "alpha", 20, 2),
        snap(2, "beta", 5, 8),
        snap(1, "alpha", 30, 3),
    ];
    let stats = build_stats(&snaps);
    assert_eq!(stats.len(), 2);

    let a = &stats[0];
    assert_eq!(a.item_id, 1);
    assert_eq!(a.name, "alpha");
    assert_eq!(a.data_points, 3);
    assert_eq!(a.prices, vec![10, 20, 30]);
    assert_eq!(a.current_price, 30);
    assert_eq!(a.prev_price, 20);
    assert_eq!(a.avg_volume, Ratio { num: 6, den: 3 });
    // Perfectly linear with step 10.
    assert_eq!(a.price_trend.num, 10 * a.price_trend.den);

    let b = &stats[1];
    assert_eq!(b.item_id, 2);
    assert_eq!(b.data_points, 2);
    assert_eq!(b.prices, vec![5, 5]);
    assert_eq!(b.current_price, 5);
    assert_eq!(b.prev_price, 5);
}

#[test]
fn build_stats_sorts_prices_but_keeps_chronological_recency() {
    let snaps = vec![
        snap(3, "gamma", 30, 1),
        snap(3, "gamma", 10, 1),
        snap(3, "gamma", 20, 1),
    ];
    let stats = build_stats(&snaps);
    assert_eq!(stats.len(), 1);
    let s = &stats[0];
    assert_eq!(s.prices, vec![10, 20, 30]);
    // The latest observation is the last one in input order.
    assert_eq!(s.current_price, 20);
    assert_eq!(s.prev_price, 10);
    assert_eq!(s.recent_prices_chrono, vec![30, 10, 20]);
    assert_eq!(s.recent_prices, vec![10, 20, 30]);
}

#[test]
fn build_stats_recency_window_is_last_fourteen() {
    let mut snaps = Vec::new();
    for i in 0..20 {
        snaps.push(snap(4, "delta", 100 + i, 50));
    }
    let stats = build_stats(&snaps);
    assert_eq!(stats.len(), 1);
    let s = &stats[0];
    assert_eq!(s.data_points, 20);
    assert_eq!(s.recent_prices_chrono.len(), 14);
    assert_eq!(s.recent_prices_chrono[0], 106);
    assert_eq!(s.recent_prices_chrono[13], 119);
}

#[test]
fn decimal_rendering() {
    assert_eq!(i64_to_string(0), "0");
    assert_eq!(i64_to_string(45), "45");
    assert_eq!(i64_to_string(-1234), "-1234");
    assert_eq!(i64_to_string(1000000), "1000000");
}
