//! The price-bar data model.

use vstd::prelude::*;

verus! {

/// Largest magnitude a price coordinate may take, in price units of
/// one ten-thousandth.  Keeps all derived arithmetic far from overflow.
pub const PRICE_LIMIT: i64 = 1_000_000_000_000;

/// One OHLC price bar.  Each field is a price in fixed-point form:
/// one unit is one ten-thousandth of the quoted price, so a quote of
/// `128.2` is stored as `1_282_000`.
#[derive(Clone, Copy, Debug, PartialEq, Eq, Structural)]
pub struct Candle {
    pub open: i64,
    pub high: i64,
    pub low: i64,
    pub close: i64,
}

impl Candle {
    /// All four prices lie within the magnitude limit.
    pub open spec fn in_limits(self) -> bool {
        &&& -PRICE_LIMIT <= self.open <= PRICE_LIMIT
        &&& -PRICE_LIMIT <= self.high <= PRICE_LIMIT
        &&& -PRICE_LIMIT <= self.low <= PRICE_LIMIT
        &&& -PRICE_LIMIT <= self.close <= PRICE_LIMIT
    }
}

/// Every candle of the series lies within the magnitude limit.
pub open spec fn series_in_limits(s: Seq<Candle>) -> bool {
    forall|i: int| 0 <= i < s.len() ==> #[trigger] s[i].in_limits()
}

/// Which of the two chart styles is drawn.
#[derive(Clone, Copy, Debug, PartialEq, Eq, Structural)]
pub enum ChartMode {
    Candlestick,
    Line,
}

} // verus!
