//! The chart's presentation state: its candle series and display mode.
//!
//! The state owns no geometry: every frame is derived fresh from the series
//! and the bounds the host hands in, so rendering is a pure function and
//! re-rendering with unchanged state yields the identical command list.

use vstd::prelude::*;
use crate::candle::{Candle, ChartMode, series_in_limits};
use crate::draw::{DrawCommand, render, render_ok};
use crate::layout::{COUNT_LIMIT, PIXEL_LIMIT};

verus! {

/// The twelve-bar demonstration series, prices in ten-thousandths.
pub open spec fn sample_candles() -> Seq<Candle> {
    seq![
        Candle { open: 1_282_000, high: 1_318_000, low: 1_264_000, close: 1_303_000 },
        Candle { open: 1_301_000, high: 1_329_000, low: 1_292_000, close: 1_325_000 },
        Candle { open: 1_327_000, high: 1_340_000, low: 1_315_000, close: 1_319_000 },
        Candle { open: 1_315_000, high: 1_326_000, low: 1_294_000, close: 1_301_000 },
        Candle { open: 1_298_000, high: 1_304_000, low: 1_272_000, close: 1_280_000 },
        Candle { open: 1_282_000, high: 1_297_000, low: 1_259_000, close: 1_264_000 },
        Candle { open: 1_264_000, high: 1_273_000, low: 1_240_000, close: 1_252_000 },
        Candle { open: 1_250_000, high: 1_289_000, low: 1_248_000, close: 1_282_000 },
        Candle { open: 1_288_000, high: 1_311_000, low: 1_281_000, close: 1_307_000 },
        Candle { open: 1_309_000, high: 1_345_000, low: 1_308_000, close: 1_340_000 },
        Candle { open: 1_343_000, high: 1_360_000, low: 1_338_000, close: 1_354_000 },
        Candle { open: 1_356_000, high: 1_376_000, low: 1_350_000, close: 1_362_000 },
    ]
}

/// A stock chart: the candle series it plots and the active display mode.
pub struct StockChart {
    pub candles: Vec<Candle>,
    pub mode: ChartMode,
}

impl StockChart {
    /// Every chart the library hands out keeps its series within the
    /// magnitude and length limits that rendering requires.
    pub open spec fn wf(self) -> bool {
        &&& self.candles@.len() <= COUNT_LIMIT
        &&& series_in_limits(self.candles@)
    }

    /// A chart over the demonstration series, opening in candlestick mode.
    pub fn new() -> (c: StockChart)
        ensures
            c.candles@ == sample_candles(),
            c.mode == ChartMode::Candlestick,
            c.wf(),
    {
        let candles = vec![
            Candle { open: 1_282_000, high: 1_318_000, low: 1_264_000, close: 1_303_000 },
            Candle { open: 1_301_000, high: 1_329_000, low: 1_292_000, close: 1_325_000 },
            Candle { open: 1_327_000, high: 1_340_000, low: 1_315_000, close: 1_319_000 },
            Candle { open: 1_315_000, high: 1_326_000, low: 1_294_000, close: 1_301_000 },
            Candle { open: 1_298_000, high: 1_304_000, low: 1_272_000, close: 1_280_000 },
            Candle { open: 1_282_000, high: 1_297_000, low: 1_259_000, close: 1_264_000 },
            Candle { open: 1_264_000, high: 1_273_000, low: 1_240_000, close: 1_252_000 },
            Candle { open: 1_250_000, high: 1_289_000, low: 1_248_000, close: 1_282_000 },
            Candle { open: 1_288_000, high: 1_311_000, low: 1_281_000, close: 1_307_000 },
            Candle { open: 1_309_000, high: 1_345_000, low: 1_308_000, close: 1_340_000 },
            Candle { open: 1_343_000, high: 1_360_000, low: 1_338_000, close: 1_354_000 },
            Candle { open: 1_356_000, high: 1_376_000, low: 1_350_000, close: 1_362_000 },
        ];
        proof {
            assert(candles@ =~= sample_candles());
        }
        StockChart { candles, mode: ChartMode::Candlestick }
    }

    /// A chart over a caller-supplied series, opening in candlestick mode.
    pub fn with_candles(candles: Vec<Candle>) -> (c: StockChart)
        requires
            candles@.len() <= COUNT_LIMIT,
            series_in_limits(candles@),
        ensures
            c.candles == candles,
            c.mode == ChartMode::Candlestick,
            c.wf(),
    {
        StockChart { candles, mode: ChartMode::Candlestick }
    }

    /// Switch the display mode.  Setting the mode it already has leaves the
    /// chart exactly as it was, so the toggle is idempotent; the series is
    /// never touched.
    pub fn set_mode(&mut self, mode: ChartMode)
        ensures
            final(self).mode == mode,
            final(self).candles == old(self).candles,
            old(self).mode == mode ==> *final(self) == *old(self),
    {
        self.mode = mode;
    }

    /// Render one frame at the given outer bounds: the pure function from
    /// the chart's state to the command list that `render_ok` pins down.
    pub fn render_frame(&self, width: i64, height: i64) -> (cmds: Vec<DrawCommand>)
        requires
            self.wf(),
            0 <= width <= PIXEL_LIMIT,
            0 <= height <= PIXEL_LIMIT,
        ensures
            render_ok(cmds@, width as int, height as int, self.candles@, self.mode),
    {
        render(width, height, &self.candles, self.mode)
    }
}

} // verus!
