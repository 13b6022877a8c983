//! End-to-end scenarios for the flip scorer.

use rs3_market::arith::sat_add_i32;
use rs3_market::flips::{analyze, scan};
use rs3_market::model::{FlipResult, ItemSnapshot, ItemStats, Ratio, Tier};
use rs3_market::stats::build_stats;

fn snap(item_id: i32, price: i32, volume: i32) -> ItemSnapshot {
    ItemSnapshot {
        item_id,
        name: "item".to_string(),
        ge_limit: 100,
        record_date: "2026-01-01".to_string(),
        price,
        volume,
    }
}

fn two_percent() -> Ratio {
    Ratio { num: 2, den: 100 }
}

/// Statistics with no observations at all.
fn empty_stats() -> ItemStats {
    ItemStats {
        item_id: 9,
        name: "void".to_string(),
        ge_limit: 0,
        current_price: 0,
        prev_price: 0,
        avg_volume: Ratio { num: 0, den: 1 },
        data_points: 0,
        prices: vec![],
        price_trend: Ratio { num: 0, den: 1 },
        filtered_prices: vec![],
        outliers_removed: 0,
        recent_prices: vec![],
        recent_prices_chrono: vec![],
    }
}

#[test]
fn no_observations_yield_empty_sentinel() {
    let stats = empty_stats();
    let r = analyze(&stats, two_percent());
    assert_eq!(r, FlipResult::empty());
    assert_eq!(r.score, 0);
    assert_eq!(r.tier, Tier::NoData);
    assert_eq!(r.qty, 0);
    assert_eq!(r.notes, "");
}

#[test]
fn tier_labels() {
    assert_eq!(Tier::NoData.label(), "NONE");
    assert_eq!(Tier::Crash.label(), "CRASH");
    assert_eq!(Tier::Normal.label(), "NORMAL");
    assert_eq!(Tier::Green.label(), "GREEN");
    assert_eq!(Tier::Gold.label(), "GOLD");
    assert_eq!(Tier::Diamond.label(), "DIAMOND");
}

#[test]
fn steady_item_is_taxed_into_crash_tier() {
    // 20 daily observations, price steady at 100, volume 1000/day, 2% tax:
    // buy = sell = 100, net profit = -2 (tax on the sell side with zero
    // spread), so the tier is CRASH.
    let mut snaps = Vec::new();
    for _ in 0..20 {
        snaps.push(snap(1, 100, 1000));
    }
    let stats = build_stats(&snaps);
    assert_eq!(stats.len(), 1);
    let r = analyze(&stats[0], two_percent());
    assert_eq!(r.buy, 100);
    assert_eq!(r.sell, 100);
    assert_eq!(r.profit, -2);
    assert_eq!(r.tier, Tier::Crash);
    assert_eq!(r.qty, 1);
    // ROI = 100 * (-2) / 100 = -2%, as the exact rational -20000/10000.
    assert_eq!(r.roi, Ratio { num: -20000, den: 10000 });
    // roi_score -4, volume_score 45 (volume 1000), reliability 4,
    // spread penalty -20, everything else 0.
    assert_eq!(r.score, -4 + 45 + 4 - 20);
    assert_eq!(r.notes, "Vol:0% | Spread:0gp | Q5-Q95:100-100 | Data:20pts");
}

#[test]
fn increasing_prices_without_signals_use_wide_band() {
    // Strictly increasing series, no crash and no spike: the scorer must
    // price from the 10th/90th percentiles, not the tight 15th/85th pair.
    let mut snaps = Vec::new();
    for i in 0..20 {
        snaps.push(snap(2, 100 + i, 1000));
    }
    let stats = build_stats(&snaps);
    assert_eq!(stats.len(), 1);
    assert_eq!(stats[0].outliers_removed, 0);
    let r = analyze(&stats[0], two_percent());
    // P10 of 100..=119 selects index round(19 * 0.10) = 2; P90 selects 17.
    assert_eq!(r.buy, 102);
    assert_eq!(r.sell, 117);
}

#[test]
fn full_tax_forces_crash_tier() {
    let mut snaps = Vec::new();
    for i in 0..20 {
        snaps.push(snap(3, 100 + i, 1000));
    }
    let stats = build_stats(&snaps);
    let r = analyze(&stats[0], Ratio { num: 1, den: 1 });
    // net = (117 - 102) - 117 < 0.
    assert!(r.profit < 0);
    assert_eq!(r.tier, Tier::Crash);
}

#[test]
fn extreme_roi_saturates_score() {
    // Buy price 1, sell price i32::MAX: the ROI is astronomically large;
    // its sub-score clamps at i32::MAX and the saturating sum stays there
    // instead of wrapping.
    let big: i64 = 2_147_483_647;
    let prices: Vec<i64> = vec![1, 1, big, big, big, big, big, big, big, big];
    let stats = ItemStats {
        item_id: 7,
        name: "spiky".to_string(),
        ge_limit: 100,
        current_price: big,
        prev_price: 1,
        avg_volume: Ratio { num: 0, den: 1 },
        data_points: 10,
        prices: prices.clone(),
        price_trend: Ratio { num: 0, den: 1 },
        filtered_prices: prices,
        outliers_removed: 0,
        recent_prices: vec![],
        recent_prices_chrono: vec![],
    };
    let r = analyze(&stats, two_percent());
    assert_eq!(r.buy, 1);
    assert_eq!(r.sell, big);
    assert_eq!(r.tier, Tier::Diamond);
    assert_eq!(r.score, i32::MAX);
}

#[test]
fn crashed_recent_window_uses_tight_band_of_recent_prices() {
    // The recent window (14 points) averages 50 while the overall median is
    // 100 and the upper quartile is 110: the price crashed (50 < 0.80 * 100
    // and 50 < 0.65 * 110), the recent window has at least 10 points, so
    // buy and sell come from the 15th/85th percentiles of the recent
    // window.
    let mut prices: Vec<i64> = Vec::new();
    for _ in 0..45 {
        prices.push(90);
    }
    for _ in 45..67 {
        prices.push(100);
    }
    for _ in 67..90 {
        prices.push(110);
    }
    let recent: Vec<i64> = vec![50; 14];
    let stats = ItemStats {
        item_id: 8,
        name: "crashed".to_string(),
        ge_limit: 100,
        current_price: 50,
        prev_price: 50,
        avg_volume: Ratio { num: 1000, den: 1 },
        data_points: 90,
        prices: prices.clone(),
        price_trend: Ratio { num: 0, den: 1 },
        filtered_prices: prices,
        outliers_removed: 0,
        recent_prices: recent.clone(),
        recent_prices_chrono: recent,
    };
    let r = analyze(&stats, two_percent());
    // Both percentiles of a constant recent window are 50.
    assert_eq!(r.buy, 50);
    assert_eq!(r.sell, 50);
    // The recent mean sits far below the upper quartile: the scorer also
    // flags a very recent crash.
    assert!(r.notes.starts_with("VOLATILE-CRASHING | "));
}

#[test]
fn outlier_filtered_window_is_used_and_penalized() {
    // Nine steady points and one extreme low: outlier removal drops the
    // extreme point, and with no crash or spike the scorer works on the
    // filtered series and applies the mild outlier penalty.
    let mut snaps = Vec::new();
    snaps.push(snap(6, 1, 100));
    for _ in 0..9 {
        snaps.push(snap(6, 5, 100));
    }
    let stats = build_stats(&snaps);
    assert_eq!(stats.len(), 1);
    assert_eq!(stats[0].outliers_removed, 1);
    assert_eq!(stats[0].filtered_prices, vec![5; 9]);
    let r = analyze(&stats[0], two_percent());
    // P10 and P90 of the filtered constant series are both 5.
    assert_eq!(r.buy, 5);
    assert_eq!(r.sell, 5);
    assert!(r.notes.contains("1 outliers | "));
}

#[test]
fn roi_thresholds_pick_green_and_gold_tiers() {
    let no_tax = Ratio { num: 0, den: 1 };
    let mut prices: Vec<i64> = vec![100, 100];
    for _ in 0..8 {
        prices.push(130);
    }
    let mut stats = ItemStats {
        item_id: 11,
        name: "mover".to_string(),
        ge_limit: 100,
        current_price: 130,
        prev_price: 130,
        avg_volume: Ratio { num: 100, den: 1 },
        data_points: 10,
        prices: prices.clone(),
        price_trend: Ratio { num: 0, den: 1 },
        filtered_prices: prices,
        outliers_removed: 0,
        recent_prices: vec![],
        recent_prices_chrono: vec![],
    };
    // Buy 100, sell 130, no tax: ROI 30% exceeds 20 but not 35.
    let gold = analyze(&stats, no_tax);
    assert_eq!(gold.tier, Tier::Gold);

    // Buy 100, sell 110: ROI 10% exceeds 8 but not 20.
    let mut prices2: Vec<i64> = vec![100, 100];
    for _ in 0..8 {
        prices2.push(110);
    }
    stats.prices = prices2.clone();
    stats.filtered_prices = prices2;
    stats.current_price = 110;
    let green = analyze(&stats, no_tax);
    assert_eq!(green.tier, Tier::Green);
}

#[test]
fn crashed_marker_shown_when_recent_window_used() {
    // Recent median 79 against an overall median of 100: crashed, but the
    // recent mean (about 96) sits above 82% of the upper quartile and the
    // window is not falling, so the plain crash marker is shown.
    let prices: Vec<i64> = vec![100; 90];
    let mut recent: Vec<i64> = vec![79; 8];
    recent.extend_from_slice(&[120, 120, 120, 120, 120, 120]);
    let stats = ItemStats {
        item_id: 12,
        name: "dipped".to_string(),
        ge_limit: 100,
        current_price: 120,
        prev_price: 120,
        avg_volume: Ratio { num: 100, den: 1 },
        data_points: 90,
        prices: prices.clone(),
        price_trend: Ratio { num: 0, den: 1 },
        filtered_prices: prices,
        outliers_removed: 0,
        recent_prices: recent.clone(),
        recent_prices_chrono: recent,
    };
    let r = analyze(&stats, two_percent());
    assert!(r.notes.starts_with("Crashed | "));
    // P15 and P85 of the recent window.
    assert_eq!(r.buy, 79);
    assert_eq!(r.sell, 120);
}

#[test]
fn spiked_marker_shown_when_recent_window_used() {
    // Recent median 130 against an overall median of 100: spiked.
    let prices: Vec<i64> = vec![100; 90];
    let recent: Vec<i64> = vec![130; 14];
    let stats = ItemStats {
        item_id: 13,
        name: "pumped".to_string(),
        ge_limit: 100,
        current_price: 130,
        prev_price: 130,
        avg_volume: Ratio { num: 100, den: 1 },
        data_points: 90,
        prices: prices.clone(),
        price_trend: Ratio { num: 0, den: 1 },
        filtered_prices: prices,
        outliers_removed: 0,
        recent_prices: recent.clone(),
        recent_prices_chrono: recent,
    };
    let r = analyze(&stats, two_percent());
    assert!(r.notes.starts_with("Spiked | "));
}

#[test]
fn analyze_is_idempotent() {
    let mut snaps = Vec::new();
    for i in 0..20 {
        snaps.push(snap(5, 100 + (i % 7), 500 + i));
    }
    let stats = build_stats(&snaps);
    let r1 = analyze(&stats[0], two_percent());
    let r2 = analyze(&stats[0], two_percent());
    assert_eq!(r1, r2);
}

#[test]
fn scan_matches_per_item_analysis() {
    let mut snaps = Vec::new();
    for i in 0..20 {
        snaps.push(snap(1, 100, 1000));
        snaps.push(snap(2, 100 + i, 1000));
    }
    let all = scan(&snaps, two_percent());
    let stats = build_stats(&snaps);
    assert_eq!(all.len(), 2);
    assert_eq!(stats.len(), 2);
    assert_eq!(all[0], analyze(&stats[0], two_percent()));
    assert_eq!(all[1], analyze(&stats[1], two_percent()));
    assert_eq!(all[0].buy, 100);
    assert_eq!(all[1].buy, 102);
}

#[test]
fn saturating_addition_pins_at_bounds() {
    assert_eq!(sat_add_i32(i32::MAX, 1), i32::MAX);
    assert_eq!(sat_add_i32(i32::MIN, -1), i32::MIN);
    assert_eq!(sat_add_i32(40, 2), 42);
}
