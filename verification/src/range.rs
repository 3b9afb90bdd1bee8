//! The range normalizer.
//!
//! A render pass first reduces the candle series to its vertical value range:
//! the least low and the greatest high, padded by five percent of the raw
//! span on each side.  To keep the five-percent pad exact in integers the
//! padded bounds are stored at twenty times the price scale: one unit of
//! `PaddedRange` is one twentieth of a price unit, so a pad of `span`
//! twentieths is exactly `span / 20 == 0.05 * span` price units.

use vstd::prelude::*;
use crate::candle::{Candle, PRICE_LIMIT, series_in_limits};

verus! {

/// The padded `hi` bound of an empty series: the price `1.0`
/// (`10_000` price units of a ten-thousandth, at twenty times that scale).
pub const EMPTY_RANGE_HI: i64 = 200_000;

/// The padded vertical range of one render pass, in twentieths of a price
/// unit: the price `p` (in ten-thousandths) corresponds to `20 * p` here.
#[derive(Clone, Copy, Debug, PartialEq, Eq, Structural)]
pub struct PaddedRange {
    pub lo: i64,
    pub hi: i64,
}

impl PaddedRange {
    /// Both bounds stay within what padding a limit-respecting series
    /// can produce.
    pub open spec fn in_limits(self) -> bool {
        &&& -22 * PRICE_LIMIT <= self.lo <= 22 * PRICE_LIMIT
        &&& -22 * PRICE_LIMIT <= self.hi <= 22 * PRICE_LIMIT
    }
}

/// The least `low` of a non-empty series.
pub open spec fn min_low(s: Seq<Candle>) -> int
    recommends
        s.len() > 0,
    decreases s.len(),
{
    if s.len() <= 1 {
        s[0].low as int
    } else {
        let rest = min_low(s.drop_last());
        if s[s.len() - 1].low <= rest {
            s[s.len() - 1].low as int
        } else {
            rest
        }
    }
}

/// The greatest `high` of a non-empty series.
pub open spec fn max_high(s: Seq<Candle>) -> int
    recommends
        s.len() > 0,
    decreases s.len(),
{
    if s.len() <= 1 {
        s[0].high as int
    } else {
        let rest = max_high(s.drop_last());
        if s[s.len() - 1].high >= rest {
            s[s.len() - 1].high as int
        } else {
            rest
        }
    }
}

/// The padded lower bound, in twentieths of a price unit: for an empty
/// series the fixed default `0.0`, otherwise the least low minus five
/// percent of the raw span.
pub open spec fn padded_lo(s: Seq<Candle>) -> int {
    if s.len() == 0 {
        0
    } else {
        20 * min_low(s) - (max_high(s) - min_low(s))
    }
}

/// The padded upper bound, in twentieths of a price unit: for an empty
/// series the fixed default `1.0`, otherwise the greatest high plus five
/// percent of the raw span.
pub open spec fn padded_hi(s: Seq<Candle>) -> int {
    if s.len() == 0 {
        EMPTY_RANGE_HI as int
    } else {
        20 * max_high(s) + (max_high(s) - min_low(s))
    }
}

pub proof fn lemma_min_low_le(s: Seq<Candle>, i: int)
    requires
        0 <= i < s.len(),
    ensures
        min_low(s) <= s[i].low,
    decreases s.len(),
{
    if s.len() > 1 && i < s.len() - 1 {
        lemma_min_low_le(s.drop_last(), i);
    }
}

pub proof fn lemma_max_high_ge(s: Seq<Candle>, i: int)
    requires
        0 <= i < s.len(),
    ensures
        s[i].high <= max_high(s),
    decreases s.len(),
{
    if s.len() > 1 && i < s.len() - 1 {
        lemma_max_high_ge(s.drop_last(), i);
    }
}

pub proof fn lemma_min_low_in_limits(s: Seq<Candle>)
    requires
        s.len() > 0,
        series_in_limits(s),
    ensures
        -PRICE_LIMIT <= min_low(s) <= PRICE_LIMIT,
        -PRICE_LIMIT <= max_high(s) <= PRICE_LIMIT,
    decreases s.len(),
{
    assert(s[0].in_limits());
    assert(s[s.len() - 1].in_limits());
    if s.len() > 1 {
        assert(series_in_limits(s.drop_last())) by {
            assert(forall|i: int|
                0 <= i < s.len() - 1 ==> s.drop_last()[i] == #[trigger] s[i]);
        }
        lemma_min_low_in_limits(s.drop_last());
    }
}

/// Compute the padded vertical range of a series: the least low and the
/// greatest high, each pushed outward by exactly five percent of the raw
/// span; an empty series yields the fixed default range `[0.0, 1.0]`.
pub fn normalize_range(candles: &Vec<Candle>) -> (r: PaddedRange)
    requires
        series_in_limits(candles@),
    ensures
        r.lo == padded_lo(candles@),
        r.hi == padded_hi(candles@),
        r.in_limits(),
{
    if candles.len() == 0 {
        return PaddedRange { lo: 0, hi: EMPTY_RANGE_HI };
    }
    let mut raw_min: i64 = candles[0].low;
    let mut raw_max: i64 = candles[0].high;
    proof {
        assert(candles@[0].in_limits());
        assert(candles@.take(1)[0] == candles@[0]);
    }
    let mut i: usize = 1;
    while i < candles.len()
        invariant
            1 <= i <= candles@.len(),
            series_in_limits(candles@),
            raw_min == min_low(candles@.take(i as int)),
            raw_max == max_high(candles@.take(i as int)),
            -PRICE_LIMIT <= raw_min <= PRICE_LIMIT,
            -PRICE_LIMIT <= raw_max <= PRICE_LIMIT,
        decreases candles@.len() - i,
    {
        let c = candles[i];
        assert(candles@[i as int].in_limits());
        proof {
            let taken = candles@.take(i + 1);
            assert(taken.drop_last() =~= candles@.take(i as int));
            assert(taken[taken.len() - 1] == candles@[i as int]);
        }
        if c.low < raw_min {
            raw_min = c.low;
        }
        if c.high > raw_max {
            raw_max = c.high;
        }
        i += 1;
    }
    proof {
        assert(candles@.take(candles@.len() as int) =~= candles@);
    }
    let span = raw_max - raw_min;
    PaddedRange { lo: 20 * raw_min - span, hi: 20 * raw_max + span }
}

/// Law (range padding): for a non-empty series whose candles each span an
/// ordered `[low, high]` interval, the padded range contains every candle's
/// low and high, and the pad added on each side is exactly five percent of
/// the raw span — at the range's twenty-fold scale, a pad of
/// `max_high - min_low` units is `span / 20 == 0.05 * span` price units.
pub proof fn lemma_range_padding(s: Seq<Candle>, r: PaddedRange)
    requires
        s.len() > 0,
        forall|i: int| 0 <= i < s.len() ==> (#[trigger] s[i]).low <= s[i].high,
        r.lo == padded_lo(s),
        r.hi == padded_hi(s),
    ensures
        forall|i: int| 0 <= i < s.len() ==> r.lo <= 20 * (#[trigger] s[i]).low,
        forall|i: int| 0 <= i < s.len() ==> 20 * (#[trigger] s[i]).high <= r.hi,
        20 * min_low(s) - r.lo == max_high(s) - min_low(s),
        r.hi - 20 * max_high(s) == max_high(s) - min_low(s),
{
    lemma_min_low_le(s, 0);
    lemma_max_high_ge(s, 0);
    assert forall|i: int| 0 <= i < s.len() implies r.lo <= 20 * (#[trigger] s[i]).low by {
        lemma_min_low_le(s, i);
    }
    assert forall|i: int| 0 <= i < s.len() implies 20 * (#[trigger] s[i]).high <= r.hi by {
        lemma_max_high_ge(s, i);
    }
}

} // verus!
