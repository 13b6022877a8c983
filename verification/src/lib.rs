//! Market flip analysis: turns per-item price/volume history into a ranked
//! flip recommendation (buy price, sell price, net profit, ROI, tier, score).
//!
//! The pipeline has two stages: `stats::build_stats` aggregates raw snapshots
//! into one `ItemStats` per item (sorted price distribution, recency window,
//! IQR outlier filtering, least-squares trend), and `flips::analyze` turns one
//! `ItemStats` plus a tax rate into a `FlipResult`.
//!
//! Prices are whole currency units, so the whole pipeline works over integers
//! and exact rationals (`Ratio`); every fractional threshold of the heuristic
//! is decided by cross-multiplication, which makes the arithmetic exact and
//! reproducible.

pub mod arith;
pub mod flips;
pub mod laws;
pub mod model;
pub mod percentile;
pub mod sorting;
pub mod stats;
pub mod text;
