//! A stock-price chart renderer.
//!
//! The renderer is a pure function from a series of OHLC candles, a drawing
//! rectangle and a display mode to a list of vector draw commands.  Prices
//! are fixed-point integers with four decimal places; pixel coordinates are
//! exact integer fractions, so every geometric relation the renderer promises
//! holds exactly rather than up to rounding.

pub mod candle;
pub mod chart;
pub mod draw;
pub mod frac;
pub mod layout;
pub mod range;
