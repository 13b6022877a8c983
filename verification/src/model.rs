//! Data model of the pipeline: raw snapshots, per-item statistics, and the
//! flip recommendation, together with their ghost models.

use vstd::prelude::*;

verus! {

/// An exact rational number: a signed numerator over a positive denominator.
///
/// Prices are whole currency units, so every fractional quantity of the
/// pipeline (mean volume, trend slope, ROI) is an exact rational, and every
/// threshold comparison is decided by cross-multiplication.
#[derive(Clone, Copy, Debug, PartialEq, Eq, Structural)]
pub struct Ratio {
    pub num: i128,
    pub den: i128,
}

/// Ghost counterpart of `Ratio`.
#[verifier::ext_equal]
pub struct Rat {
    pub num: int,
    pub den: int,
}

impl View for Ratio {
    type V = Rat;

    open spec fn view(&self) -> Rat {
        Rat { num: self.num as int, den: self.den as int }
    }
}

impl Rat {
    /// The denominator is positive, so the represented value is `num / den`.
    pub open spec fn wf(self) -> bool {
        self.den >= 1
    }

    /// Magnitude bounds, used to rule out overflow in cross-multiplication.
    pub open spec fn bounded(self, num_bound: int, den_bound: int) -> bool {
        &&& -num_bound <= self.num <= num_bound
        &&& 1 <= self.den <= den_bound
    }
}

/// The ghost rational zero.
pub open spec fn rat_zero() -> Rat {
    Rat { num: 0, den: 1 }
}

impl Ratio {
    /// The rational zero.
    pub fn zero() -> (r: Ratio)
        ensures
            r@ == rat_zero(),
    {
        Ratio { num: 0, den: 1 }
    }
}

/// Quality tier of a recommendation. `NoData` is the sentinel tier of the
/// empty recommendation returned when an item has no observations.
#[derive(Clone, Copy, Debug, PartialEq, Eq, Structural)]
pub enum Tier {
    NoData,
    Crash,
    Normal,
    Green,
    Gold,
    Diamond,
}

impl Tier {
    /// Display name of the tier.
    pub open spec fn label_spec(self) -> Seq<char> {
        match self {
            Tier::NoData => "NONE"@,
            Tier::Crash => "CRASH"@,
            Tier::Normal => "NORMAL"@,
            Tier::Green => "GREEN"@,
            Tier::Gold => "GOLD"@,
            Tier::Diamond => "DIAMOND"@,
        }
    }

    /// Display name of the tier.
    pub fn label(&self) -> (s: String)
        ensures
            s@ == self.label_spec(),
    {
        match self {
            Tier::NoData => String::from_str("NONE"),
            Tier::Crash => String::from_str("CRASH"),
            Tier::Normal => String::from_str("NORMAL"),
            Tier::Green => String::from_str("GREEN"),
            Tier::Gold => String::from_str("GOLD"),
            Tier::Diamond => String::from_str("DIAMOND"),
        }
    }
}

/// One raw observation: an item's price and traded volume on one day.
#[derive(Clone, Debug, PartialEq)]
pub struct ItemSnapshot {
    pub item_id: i32,
    pub name: String,
    pub ge_limit: i32,
    pub record_date: String,
    pub price: i32,
    pub volume: i32,
}

/// A sequence is sorted in ascending order.
pub open spec fn sorted_i64(s: Seq<i64>) -> bool {
    forall|i: int, j: int| 0 <= i <= j < s.len() ==> s[i] <= s[j]
}

/// Every element lies in the range of the raw `i32` price/volume columns.
pub open spec fn elems_i32(s: Seq<i64>) -> bool {
    forall|i: int| 0 <= i < s.len() ==> -0x8000_0000 <= #[trigger] s[i] <= 0x7fff_ffff
}

/// Per-item statistics produced by `stats::build_stats`, immutable once
/// constructed.
#[derive(Clone, Debug, PartialEq)]
pub struct ItemStats {
    pub item_id: i32,
    pub name: String,
    pub ge_limit: i32,
    /// Price of the most recent observation.
    pub current_price: i64,
    /// Price of the second most recent observation, or `current_price` if
    /// only one observation exists.
    pub prev_price: i64,
    /// Arithmetic mean of the volume series.
    pub avg_volume: Ratio,
    /// Number of observations; equals `prices.len()`.
    pub data_points: usize,
    /// All observed prices, sorted ascending.
    pub prices: Vec<i64>,
    /// Least-squares slope of price against observation index.
    pub price_trend: Ratio,
    /// `prices` with IQR outliers removed (the full sequence when no
    /// filtering applied).
    pub filtered_prices: Vec<i64>,
    /// Number of prices excluded by outlier filtering.
    pub outliers_removed: usize,
    /// The most recent (up to 14) prices, sorted ascending.
    pub recent_prices: Vec<i64>,
    /// The same recent prices in chronological order.
    pub recent_prices_chrono: Vec<i64>,
}

/// Ghost counterpart of `ItemStats`.
#[verifier::ext_equal]
pub struct StatsModel {
    pub item_id: int,
    pub name: Seq<char>,
    pub ge_limit: int,
    pub current_price: int,
    pub prev_price: int,
    pub avg_volume: Rat,
    pub data_points: int,
    pub prices: Seq<i64>,
    pub price_trend: Rat,
    pub filtered_prices: Seq<i64>,
    pub outliers_removed: int,
    pub recent_prices: Seq<i64>,
    pub recent_prices_chrono: Seq<i64>,
}

impl View for ItemStats {
    type V = StatsModel;

    open spec fn view(&self) -> StatsModel {
        StatsModel {
            item_id: self.item_id as int,
            name: self.name@,
            ge_limit: self.ge_limit as int,
            current_price: self.current_price as int,
            prev_price: self.prev_price as int,
            avg_volume: self.avg_volume@,
            data_points: self.data_points as int,
            prices: self.prices@,
            price_trend: self.price_trend@,
            filtered_prices: self.filtered_prices@,
            outliers_removed: self.outliers_removed as int,
            recent_prices: self.recent_prices@,
            recent_prices_chrono: self.recent_prices_chrono@,
        }
    }
}

impl StatsModel {
    /// Structural invariants of per-item statistics: the distributional
    /// series are sorted, all prices fit the raw `i32` columns, the recency
    /// window holds at most 14 points, and the rational fields carry bounds
    /// tight enough that every comparison in the scorer fits in `i128`.
    pub open spec fn wf(self) -> bool {
        &&& sorted_i64(self.prices)
        &&& sorted_i64(self.filtered_prices)
        &&& sorted_i64(self.recent_prices)
        &&& elems_i32(self.prices)
        &&& elems_i32(self.filtered_prices)
        &&& elems_i32(self.recent_prices)
        &&& elems_i32(self.recent_prices_chrono)
        &&& self.prices.len() == self.data_points
        &&& self.data_points <= 0x4000_0000
        &&& self.filtered_prices.len() <= self.data_points
        &&& 0 <= self.outliers_removed <= self.data_points
        &&& self.recent_prices_chrono.len() <= 14
        &&& self.recent_prices_chrono.len() <= self.data_points
        &&& self.recent_prices.len() == self.recent_prices_chrono.len()
        // mean volume: |sum| <= 2^61 over a count <= 2^30
        &&& self.avg_volume.bounded(0x2000_0000_0000_0000, 0x4000_0000)
        // trend slope: |num| <= 2^122, den <= 2^120
        &&& self.price_trend.bounded(
            0x4000000_00000000_00000000_00000000,
            0x1000000_00000000_00000000_00000000,
        )
    }
}

impl ItemStats {
    /// Structural invariants; established by `stats::build_stats` and
    /// required by `flips::analyze`.
    pub open spec fn wf(self) -> bool {
        self@.wf()
    }
}

/// One flip recommendation, produced by `flips::analyze`.
#[derive(Clone, Debug, PartialEq)]
pub struct FlipResult {
    /// Composite desirability score (saturating sum of sub-scores).
    pub score: i32,
    pub tier: Tier,
    /// Suggested buy price (a low percentile of the working series).
    pub buy: i64,
    /// Suggested sell price (a high percentile of the working series).
    pub sell: i64,
    /// Suggested unit count; 1 for a computed recommendation, 0 for the
    /// empty sentinel.
    pub qty: i32,
    /// Net profit per unit after tax, rounded to the nearest whole unit.
    pub profit: i32,
    /// Return on investment, in percent.
    pub roi: Ratio,
    /// Mean daily volume, copied from the statistics.
    pub avg_volume: Ratio,
    /// Informal display annotation; not meant to be parsed.
    pub notes: String,
}

/// Ghost counterpart of `FlipResult`.
#[verifier::ext_equal]
pub struct FlipModel {
    pub score: int,
    pub tier: Tier,
    pub buy: int,
    pub sell: int,
    pub qty: int,
    pub profit: int,
    pub roi: Rat,
    pub avg_volume: Rat,
    pub notes: Seq<char>,
}

impl View for FlipResult {
    type V = FlipModel;

    open spec fn view(&self) -> FlipModel {
        FlipModel {
            score: self.score as int,
            tier: self.tier,
            buy: self.buy as int,
            sell: self.sell as int,
            qty: self.qty as int,
            profit: self.profit as int,
            roi: self.roi@,
            avg_volume: self.avg_volume@,
            notes: self.notes@,
        }
    }
}

/// The empty sentinel: what `flips::analyze` returns for an item with no
/// observations.
pub open spec fn empty_flip_model() -> FlipModel {
    FlipModel {
        score: 0,
        tier: Tier::NoData,
        buy: 0,
        sell: 0,
        qty: 0,
        profit: 0,
        roi: rat_zero(),
        avg_volume: rat_zero(),
        notes: Seq::<char>::empty(),
    }
}

impl FlipResult {
    /// The empty sentinel recommendation: insufficient data to analyze.
    pub fn empty() -> (r: FlipResult)
        ensures
            r@ == empty_flip_model(),
    {
        FlipResult {
            score: 0,
            tier: Tier::NoData,
            buy: 0,
            sell: 0,
            qty: 0,
            profit: 0,
            roi: Ratio::zero(),
            avg_volume: Ratio::zero(),
            notes: String::new(),
        }
    }
}

} // verus!
