//! The geometry mapper.
//!
//! Maps a bar index and a price to an exact pixel position inside the
//! margin-inset plot area.  The vertical axis is inverted: price grows
//! upward while pixel `y` grows downward.
//!
//! Every `y` coordinate of one render pass is a fraction over the same
//! denominator, the (floored) vertical range; every `x` coordinate is a
//! fraction over ten times the bar count.  The mapping formulas are
//!
//! ```text
//! y(price) = margin + (hi - 20 * price) / range * chart_h
//! x(index) = margin + (index + 1/2) * chart_w / count
//! ```
//!
//! with `price` in ten-thousandths of a price unit and `hi`, `lo`, `range`
//! in twentieths of such a unit (see the range normalizer).

use vstd::prelude::*;
use crate::candle::PRICE_LIMIT;
use crate::frac::Frac;
use crate::range::PaddedRange;

verus! {

/// The inset between the outer bounds and the plot area, in pixels.
pub const MARGIN: i64 = 24;

/// Largest width or height of the drawing surface, in pixels.
pub const PIXEL_LIMIT: i64 = 1_000_000;

/// Largest number of candles one render pass accepts.
pub const COUNT_LIMIT: usize = 1_000_000;

/// The floor of the vertical range, in twentieths of a price unit:
/// twenty such units are the price `0.0001`, the epsilon that keeps a
/// flat series' mapping finite.
pub const RANGE_FLOOR: i64 = 20;

/// Bound on the numerator of an `x` coordinate or body width.
pub const X_NUM_LIMIT: i128 = 100_000_000_000_000;

/// Bound on the denominator of an `x` coordinate: `10 * COUNT_LIMIT`.
pub const X_DEN_LIMIT: i128 = 10_000_000;

/// Bound on the numerator of a `y` coordinate.
pub const Y_NUM_LIMIT: i128 = 100_000_000_000_000_000_000;

/// Bound on the denominator of a `y` coordinate: `44 * PRICE_LIMIT`.
pub const Y_DEN_LIMIT: i128 = 44_000_000_000_000;

/// `max(v - 2 * MARGIN, 1)`: the extent of the plot area along one axis.
pub open spec fn chart_extent_of(v: int) -> int {
    if v - 2 * (MARGIN as int) >= 1 {
        v - 2 * (MARGIN as int)
    } else {
        1
    }
}

/// `max(hi - lo, RANGE_FLOOR)`: the floored vertical range.
pub open spec fn range_of(lo: int, hi: int) -> int {
    if hi - lo >= RANGE_FLOOR as int {
        hi - lo
    } else {
        RANGE_FLOOR as int
    }
}

/// The per-render geometry: plot-area extents, bar count and vertical range.
#[derive(Clone, Copy, Debug, PartialEq, Eq, Structural)]
pub struct Layout {
    /// Inset of the plot area, always `MARGIN`.
    pub margin: i64,
    /// Width of the plot area, in pixels, at least one.
    pub chart_w: i64,
    /// Height of the plot area, in pixels, at least one.
    pub chart_h: i64,
    /// Number of candles in the series.
    pub count: usize,
    /// Padded lower price bound, in twentieths of a price unit.
    pub lo: i64,
    /// Padded upper price bound, in twentieths of a price unit.
    pub hi: i64,
    /// Floored vertical range: `max(hi - lo, RANGE_FLOOR)`.
    pub range: i64,
}

impl Layout {
    pub open spec fn wf(self) -> bool {
        &&& self.margin == MARGIN
        &&& 1 <= self.chart_w <= PIXEL_LIMIT
        &&& 1 <= self.chart_h <= PIXEL_LIMIT
        &&& self.count <= COUNT_LIMIT
        &&& -22 * PRICE_LIMIT <= self.lo <= 22 * PRICE_LIMIT
        &&& -22 * PRICE_LIMIT <= self.hi <= 22 * PRICE_LIMIT
        &&& self.range == range_of(self.lo as int, self.hi as int)
    }

    /// The number of horizontal slots: the bar count, floored at one so an
    /// empty series still yields a finite step.
    pub open spec fn slots(self) -> int {
        if self.count == 0 {
            1
        } else {
            self.count as int
        }
    }

    /// Numerator of `y(price)` over the denominator `range`.
    pub open spec fn y_num(self, price: int) -> int {
        self.margin * self.range + (self.hi - 20 * price) * self.chart_h
    }

    /// Numerator of `x(index)` over the denominator `10 * slots()`.
    pub open spec fn x_num(self, index: int) -> int {
        10 * self.slots() * self.margin + (10 * index + 5) * self.chart_w
    }

    /// Numerator of the candlestick body width over `10 * slots()`:
    /// sixty percent of the per-bar step, floored at two pixels.
    pub open spec fn body_w_num(self) -> int {
        if 6 * self.chart_w >= 20 * self.slots() {
            6 * self.chart_w
        } else {
            20 * self.slots()
        }
    }

    /// Derive the geometry of one render pass from the outer bounds, the
    /// series length and the padded vertical range.
    pub fn new(width: i64, height: i64, count: usize, range: &PaddedRange) -> (l: Layout)
        requires
            0 <= width <= PIXEL_LIMIT,
            0 <= height <= PIXEL_LIMIT,
            count <= COUNT_LIMIT,
            range.in_limits(),
        ensures
            l.wf(),
            l.chart_w == chart_extent_of(width as int),
            l.chart_h == chart_extent_of(height as int),
            l.count == count,
            l.lo == range.lo,
            l.hi == range.hi,
            l.range >= RANGE_FLOOR,
    {
        let chart_w = if width - 2 * MARGIN >= 1 { width - 2 * MARGIN } else { 1 };
        let chart_h = if height - 2 * MARGIN >= 1 { height - 2 * MARGIN } else { 1 };
        let span = range.hi - range.lo;
        let r = if span >= RANGE_FLOOR { span } else { RANGE_FLOOR };
        Layout {
            margin: MARGIN,
            chart_w,
            chart_h,
            count,
            lo: range.lo,
            hi: range.hi,
            range: r,
        }
    }

    /// The pixel row of a price, as an exact fraction over `range`.
    /// The denominator is positive, so the coordinate is always finite,
    /// flat series included.
    pub fn y(&self, price: i64) -> (r: Frac)
        requires
            self.wf(),
            -PRICE_LIMIT <= price <= PRICE_LIMIT,
        ensures
            r.num == self.y_num(price as int),
            r.den == self.range,
            r.wf(),
            -Y_NUM_LIMIT <= r.num <= Y_NUM_LIMIT,
            0 < r.den <= Y_DEN_LIMIT,
    {
        proof {
            lemma_mul_bound(
                self.hi - 20 * (price as int),
                self.chart_h as int,
                42 * PRICE_LIMIT as int,
                PIXEL_LIMIT as int,
            );
            lemma_mul_bound(
                self.margin as int,
                self.range as int,
                MARGIN as int,
                44 * PRICE_LIMIT as int,
            );
        }
        let num: i128 = (self.margin as i128) * (self.range as i128)
            + ((self.hi as i128) - 20 * (price as i128)) * (self.chart_h as i128);
        Frac { num, den: self.range as i128 }
    }

    /// The pixel column of a bar index, centered in its slot, as an exact
    /// fraction over `10 * slots()`.
    pub fn x(&self, index: usize) -> (r: Frac)
        requires
            self.wf(),
            index < self.count,
        ensures
            r.num == self.x_num(index as int),
            r.den == 10 * self.slots(),
            r.wf(),
            -X_NUM_LIMIT <= r.num <= X_NUM_LIMIT,
            0 < r.den <= X_DEN_LIMIT,
    {
        proof {
            lemma_mul_bound(
                10 * (index as int) + 5,
                self.chart_w as int,
                10 * COUNT_LIMIT as int + 5,
                PIXEL_LIMIT as int,
            );
            lemma_mul_bound(
                10 * (self.count as int),
                self.margin as int,
                10 * COUNT_LIMIT as int,
                MARGIN as int,
            );
        }
        let n = self.count as i128;
        let num: i128 = 10 * n * (self.margin as i128)
            + (10 * (index as i128) + 5) * (self.chart_w as i128);
        Frac { num, den: 10 * n }
    }

    /// The horizontal step between two bar slots, as an exact fraction
    /// over `10 * slots()`.
    pub fn step(&self) -> (r: Frac)
        requires
            self.wf(),
        ensures
            r.num == 10 * self.chart_w,
            r.den == 10 * self.slots(),
            r.wf(),
    {
        let slots: i128 = if self.count == 0 { 1 } else { self.count as i128 };
        Frac { num: 10 * (self.chart_w as i128), den: 10 * slots }
    }

    /// The candlestick body width — sixty percent of the step, floored at
    /// two pixels — as an exact fraction over `10 * slots()`.
    pub fn body_width(&self) -> (r: Frac)
        requires
            self.wf(),
        ensures
            r.num == self.body_w_num(),
            r.den == 10 * self.slots(),
            r.wf(),
            0 < r.num <= X_NUM_LIMIT,
            0 < r.den <= X_DEN_LIMIT,
    {
        let slots: i128 = if self.count == 0 { 1 } else { self.count as i128 };
        let six_w: i128 = 6 * (self.chart_w as i128);
        let floor: i128 = 20 * slots;
        let num = if six_w >= floor { six_w } else { floor };
        Frac { num, den: 10 * slots }
    }
}

/// `|a| <= aa` and `|b| <= bb` bound the product: `|a * b| <= aa * bb`.
pub proof fn lemma_mul_bound(a: int, b: int, aa: int, bb: int)
    by (nonlinear_arith)
    requires
        -aa <= a <= aa,
        -bb <= b <= bb,
    ensures
        -(aa * bb) <= a * b <= aa * bb,
{
}

/// Law (mapping monotonicity): `y` is strictly decreasing in the price —
/// of two prices the higher one maps to the strictly smaller pixel row,
/// i.e. sits higher on screen.  Stated over the exact fractions that
/// `Layout::y` returns.
pub proof fn lemma_y_strictly_decreasing(l: Layout, p1: int, p2: int, f1: Frac, f2: Frac)
    requires
        l.wf(),
        p1 < p2,
        f1.num == l.y_num(p1),
        f1.den == l.range,
        f2.num == l.y_num(p2),
        f2.den == l.range,
    ensures
        f2.lt(f1),
{
    assert((l.hi - 20 * p2) * l.chart_h < (l.hi - 20 * p1) * l.chart_h) by (nonlinear_arith)
        requires
            p1 < p2,
            l.chart_h >= 1,
    {
    }
    assert(f2.num * f1.den < f1.num * f2.den) by (nonlinear_arith)
        requires
            f2.num < f1.num,
            f1.den == f2.den,
            f1.den > 0,
    {
    }
}

/// Law (x spacing): consecutive bar slots are exactly one step apart —
/// over the common denominator `10 * slots()`, the numerators differ by
/// the step's numerator `10 * chart_w`.
pub proof fn lemma_x_spacing(l: Layout, i: int)
    requires
        l.wf(),
        0 <= i,
        i + 1 < l.count,
    ensures
        l.x_num(i + 1) - l.x_num(i) == 10 * l.chart_w,
{
    assert((10 * (i + 1) + 5) * l.chart_w - (10 * i + 5) * l.chart_w == 10 * l.chart_w)
        by (nonlinear_arith) {
    }
}

/// Law (x within plot): every bar slot's center lies inside the plot
/// area — `margin <= x(i) <= margin + chart_w` as rational numbers,
/// where `f` is the fraction `Layout::x` returns and the two edges are
/// the whole pixel columns bounding the plot area.
pub proof fn lemma_x_in_plot(l: Layout, i: int, f: Frac, left: Frac, right: Frac)
    requires
        l.wf(),
        0 <= i < l.count,
        f.num == l.x_num(i),
        f.den == 10 * l.slots(),
        left.num == l.margin,
        left.den == 1,
        right.num == l.margin + l.chart_w,
        right.den == 1,
    ensures
        left.le(f),
        f.le(right),
{
    assert(0 < 10 * i + 5 <= 10 * l.slots() - 5);
    assert(0 <= (10 * i + 5) * l.chart_w) by (nonlinear_arith)
        requires
            0 < 10 * i + 5,
            l.chart_w >= 1,
    {
    }
    assert((10 * i + 5) * l.chart_w <= (10 * l.slots()) * l.chart_w) by (nonlinear_arith)
        requires
            10 * i + 5 <= 10 * l.slots(),
            l.chart_w >= 1,
    {
    }
    assert((l.margin + l.chart_w) * (10 * l.slots())
        == l.margin * (10 * l.slots()) + (10 * l.slots()) * l.chart_w) by (nonlinear_arith) {
    }
    assert(l.margin * (10 * l.slots()) == 10 * l.slots() * l.margin) by (nonlinear_arith) {
    }
}

/// Law (y within plot): a price inside the padded range maps into the
/// vertical extent of the plot area — `margin <= y(price) <= margin +
/// chart_h` as rational numbers, where `f` is the fraction `Layout::y`
/// returns and the two edges are the whole pixel rows bounding the plot
/// area.
pub proof fn lemma_y_in_plot(l: Layout, p: int, f: Frac, top: Frac, bottom: Frac)
    requires
        l.wf(),
        l.lo <= 20 * p <= l.hi,
        f.num == l.y_num(p),
        f.den == l.range,
        top.num == l.margin,
        top.den == 1,
        bottom.num == l.margin + l.chart_h,
        bottom.den == 1,
    ensures
        top.le(f),
        f.le(bottom),
{
    assert(0 <= l.hi - 20 * p <= l.range);
    assert(0 <= (l.hi - 20 * p) * l.chart_h) by (nonlinear_arith)
        requires
            0 <= l.hi - 20 * p,
            l.chart_h >= 1,
    {
    }
    assert((l.hi - 20 * p) * l.chart_h <= l.range * l.chart_h) by (nonlinear_arith)
        requires
            l.hi - 20 * p <= l.range,
            l.chart_h >= 1,
    {
    }
    assert(l.range * l.chart_h <= l.chart_h * l.range) by (nonlinear_arith) {
    }
    assert((l.margin + l.chart_h) * l.range == l.margin * l.range + l.chart_h * l.range)
        by (nonlinear_arith) {
    }
}

} // verus!
