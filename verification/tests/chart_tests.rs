use stockchart::candle::{Candle, ChartMode};
use stockchart::chart::StockChart;
use stockchart::draw::{
    candle_colors, render, DrawCommand, COLOR_BG, COLOR_DOWN_FILL, COLOR_GRID, COLOR_LINE,
    COLOR_MARKER_FILL, COLOR_PLOT_FILL, COLOR_UP_BORDER, COLOR_UP_FILL, COLOR_WICK, WIDTH_GRID,
    WIDTH_LINE, WIDTH_WICK,
};
use stockchart::layout::Layout;
use stockchart::range::normalize_range;

fn bar(open: i64, high: i64, low: i64, close: i64) -> Candle {
    Candle { open, high, low, close }
}

#[test]
fn empty_series_default_range() {
    // normalize([]) == (0.0, 1.0): the hi bound is the price 1.0, i.e.
    // 10_000 ten-thousandths at the twenty-fold range scale.
    let r = normalize_range(&vec![]);
    assert_eq!(r.lo, 0);
    assert_eq!(r.hi, 200_000);
}

#[test]
fn padding_is_five_percent() {
    // One bar, low 126.4 and high 131.8: span 5.4, so 0.27 of pad on each
    // side gives [126.13, 132.07] — exactly, at the twenty-fold scale.
    let r = normalize_range(&vec![bar(1_282_000, 1_318_000, 1_264_000, 1_303_000)]);
    assert_eq!(r.lo, 20 * 1_264_000 - 54_000); // 126.13 * 200_000
    assert_eq!(r.hi, 20 * 1_318_000 + 54_000); // 132.07 * 200_000
    assert_eq!(r.lo, 25_226_000);
    assert_eq!(r.hi, 26_414_000);
}

#[test]
fn range_covers_every_bar() {
    let candles = StockChart::new().candles;
    let r = normalize_range(&candles);
    for c in &candles {
        assert!(r.lo <= 20 * c.low);
        assert!(20 * c.high <= r.hi);
    }
}

#[test]
fn single_bar_layout() {
    // Bounds 400 x 300 with margin 24: chart area 352 x 252; one bar, so
    // the step is the whole 352 px and the body width 60% of it, 211.2 px.
    let r = normalize_range(&vec![bar(1_282_000, 1_318_000, 1_264_000, 1_303_000)]);
    let l = Layout::new(400, 300, 1, &r);
    assert_eq!(l.chart_w, 352);
    assert_eq!(l.chart_h, 252);
    let step = l.step();
    assert_eq!(step.num, 3_520);
    assert_eq!(step.den, 10); // 352.0 px
    let bw = l.body_width();
    assert_eq!(bw.num, 2_112);
    assert_eq!(bw.den, 10); // 211.2 px, above the 2 px floor
}

#[test]
fn tiny_bounds_clamp_to_one_pixel() {
    // A surface smaller than its margins clamps both extents to 1 px.
    let r = normalize_range(&vec![]);
    let l = Layout::new(30, 0, 0, &r);
    assert_eq!(l.chart_w, 1);
    assert_eq!(l.chart_h, 1);
}

#[test]
fn y_is_decreasing() {
    let r = normalize_range(&vec![bar(1_282_000, 1_318_000, 1_264_000, 1_303_000)]);
    let l = Layout::new(400, 300, 1, &r);
    let y_low = l.y(1_264_000);
    let y_high = l.y(1_318_000);
    assert_eq!(y_low.den, y_high.den);
    // the higher price sits higher on screen: smaller pixel row
    assert!(y_high.num < y_low.num);
}

#[test]
fn x_spacing_equals_step() {
    let chart = StockChart::new();
    let r = normalize_range(&chart.candles);
    let l = Layout::new(400, 300, chart.candles.len(), &r);
    let step = l.step();
    for i in 0..chart.candles.len() - 1 {
        let a = l.x(i);
        let b = l.x(i + 1);
        assert_eq!(a.den, b.den);
        assert_eq!(a.den, step.den);
        assert_eq!(b.num - a.num, step.num);
    }
    // x(0) >= margin and x(n-1) <= margin + chart_w, over the common
    // denominator 10 * count
    let first = l.x(0);
    let last = l.x(chart.candles.len() - 1);
    assert!(first.num >= 24 * first.den);
    assert!(last.num <= (24 + 352) * last.den);
}

#[test]
fn tie_breaks_up() {
    // A bar with open == close is classified up: the green pair.
    let c = bar(1_300_000, 1_310_000, 1_290_000, 1_300_000);
    let (fill, border) = candle_colors(&c);
    assert_eq!(fill, COLOR_UP_FILL);
    assert_eq!(border, COLOR_UP_BORDER);
    let (down_fill, _) = candle_colors(&bar(1_310_000, 1_320_000, 1_290_000, 1_300_000));
    assert_eq!(down_fill, COLOR_DOWN_FILL);
}

#[test]
fn flat_series_is_safe() {
    // Every bar at exactly 100.0: the raw span is zero, the range floors
    // to the epsilon 0.0001 (20 units at the twenty-fold scale), and every
    // coordinate stays finite (positive denominators throughout).
    let flat = vec![bar(1_000_000, 1_000_000, 1_000_000, 1_000_000); 5];
    let r = normalize_range(&flat);
    assert_eq!(r.lo, r.hi);
    let l = Layout::new(400, 300, flat.len(), &r);
    assert_eq!(l.range, 20);
    let y = l.y(1_000_000);
    assert_eq!(y.den, 20);
    let cmds = render(400, 300, &flat, ChartMode::Candlestick);
    assert_eq!(cmds.len(), 8 + 3 * flat.len());
    for cmd in &cmds {
        match cmd {
            DrawCommand::FillRect { rect, .. } | DrawCommand::StrokeRect { rect, .. } => {
                assert!(rect.x.den > 0 && rect.y.den > 0 && rect.w.den > 0 && rect.h.den > 0);
            }
            DrawCommand::StrokePath { points, .. } => {
                for p in points {
                    assert!(p.x.den > 0 && p.y.den > 0);
                }
            }
        }
    }
}

#[test]
fn empty_series_draws_prelude_only() {
    // Background, plot-area fill and outline, five grid lines — and not a
    // single wick, body, line or marker, in either mode.
    for mode in [ChartMode::Candlestick, ChartMode::Line] {
        let cmds = render(400, 300, &vec![], mode);
        assert_eq!(cmds.len(), 8);
        match &cmds[0] {
            DrawCommand::FillRect { rect, color } => {
                assert_eq!(*color, COLOR_BG);
                assert_eq!(rect.w.num, 400);
                assert_eq!(rect.h.num, 300);
            }
            _ => panic!("expected the background fill"),
        }
        assert!(matches!(&cmds[1], DrawCommand::FillRect { color, .. } if *color == COLOR_PLOT_FILL));
        assert!(matches!(&cmds[2], DrawCommand::StrokeRect { color, .. } if *color == COLOR_GRID));
        for k in 0..5 {
            match &cmds[3 + k] {
                DrawCommand::StrokePath { points, width_tenths, color } => {
                    assert_eq!(points.len(), 2);
                    assert_eq!(*width_tenths, WIDTH_GRID);
                    assert_eq!(*color, COLOR_GRID);
                    // y = margin + k/4 * chart_h, over denominator 4
                    assert_eq!(points[0].y.num, 96 + k as i128 * 252);
                    assert_eq!(points[0].y.den, 4);
                }
                _ => panic!("expected a grid line"),
            }
        }
    }
}

#[test]
fn single_bar_candlestick_scenario() {
    // One bar {o: 128.2, h: 131.8, l: 126.4, c: 130.3} at 400 x 300: the
    // wick spans y(131.8)..y(126.4) at x = 200, and the body is drawn in
    // the up pair since the close beats the open.
    let series = vec![bar(1_282_000, 1_318_000, 1_264_000, 1_303_000)];
    let cmds = render(400, 300, &series, ChartMode::Candlestick);
    assert_eq!(cmds.len(), 11);
    let range: i128 = 26_414_000 - 25_226_000; // 1_188_000
    match &cmds[8] {
        DrawCommand::StrokePath { points, width_tenths, color } => {
            assert_eq!(points.len(), 2);
            assert_eq!(*width_tenths, WIDTH_WICK);
            assert_eq!(*color, COLOR_WICK);
            // x(0) = 24 + 0.5 * 352 = 200
            assert_eq!(points[0].x.num, 2_000);
            assert_eq!(points[0].x.den, 10);
            // y(131.8) = 24 + 0.27/5.94 * 252 = 35.4545...
            assert_eq!(points[0].y.num, 24 * range + 54_000 * 252);
            assert_eq!(points[0].y.den, range);
            // y(126.4) = 24 + 5.67/5.94 * 252 = 264.5454...
            assert_eq!(points[1].y.num, 24 * range + (26_414_000 - 25_280_000) * 252);
        }
        _ => panic!("expected the wick"),
    }
    match &cmds[9] {
        DrawCommand::FillRect { rect, color } => {
            assert_eq!(*color, COLOR_UP_FILL);
            assert_eq!(rect.w.num, 2_112); // 211.2 px body width
            assert_eq!(rect.w.den, 10);
            // top of the body: y(close) since close > open
            assert_eq!(rect.y.num, 24 * range + (26_414_000 - 20 * 1_303_000) * 252);
            assert_eq!(rect.y.den, range);
        }
        _ => panic!("expected the body fill"),
    }
    match &cmds[10] {
        DrawCommand::StrokeRect { color, .. } => assert_eq!(*color, COLOR_UP_BORDER),
        _ => panic!("expected the body outline"),
    }
}

#[test]
fn line_mode_commands() {
    let chart = StockChart::new();
    let cmds = render(400, 300, &chart.candles, ChartMode::Line);
    assert_eq!(cmds.len(), 9 + 2 * 12);
    match &cmds[8] {
        DrawCommand::StrokePath { points, width_tenths, color } => {
            assert_eq!(points.len(), 12);
            assert_eq!(*width_tenths, WIDTH_LINE);
            assert_eq!(*color, COLOR_LINE);
            // consecutive points are one step apart horizontally
            for i in 0..11 {
                assert_eq!(points[i + 1].x.num - points[i].x.num, 3_520);
                assert_eq!(points[i].x.den, 120);
            }
        }
        _ => panic!("expected the close-price polyline"),
    }
    match &cmds[9] {
        DrawCommand::FillRect { rect, color } => {
            assert_eq!(*color, COLOR_MARKER_FILL);
            // a 7 px square centered on the first close point
            assert_eq!(rect.w.num, 7);
            assert_eq!(rect.w.den, 1);
            assert_eq!(rect.h.num, 7);
        }
        _ => panic!("expected the first marker fill"),
    }
}

#[test]
fn candlestick_mode_emits_three_commands_per_bar() {
    let chart = StockChart::new();
    let cmds = render(400, 300, &chart.candles, ChartMode::Candlestick);
    assert_eq!(cmds.len(), 8 + 3 * 12);
    for i in 0..12 {
        assert!(matches!(&cmds[8 + 3 * i], DrawCommand::StrokePath { .. }));
        assert!(matches!(&cmds[8 + 3 * i + 1], DrawCommand::FillRect { .. }));
        assert!(matches!(&cmds[8 + 3 * i + 2], DrawCommand::StrokeRect { .. }));
    }
}

#[test]
fn sample_chart_state() {
    let chart = StockChart::new();
    assert_eq!(chart.candles.len(), 12);
    assert_eq!(chart.mode, ChartMode::Candlestick);
    assert_eq!(chart.candles[0], bar(1_282_000, 1_318_000, 1_264_000, 1_303_000));
    assert_eq!(chart.candles[11], bar(1_356_000, 1_376_000, 1_350_000, 1_362_000));
}

#[test]
fn set_mode_toggles() {
    let mut chart = StockChart::new();
    chart.set_mode(ChartMode::Line);
    assert_eq!(chart.mode, ChartMode::Line);
    assert_eq!(chart.candles.len(), 12);
    // setting the mode already active changes nothing
    chart.set_mode(ChartMode::Line);
    assert_eq!(chart.mode, ChartMode::Line);
}

#[test]
fn rendering_twice_is_identical() {
    // a render pass is a pure function of its inputs
    let chart = StockChart::new();
    let a = chart.render_frame(760, 520);
    let b = chart.render_frame(760, 520);
    assert_eq!(a.len(), b.len());
    for (x, y) in a.iter().zip(b.iter()) {
        match (x, y) {
            (
                DrawCommand::FillRect { rect: r1, color: c1 },
                DrawCommand::FillRect { rect: r2, color: c2 },
            ) => {
                assert_eq!(r1, r2);
                assert_eq!(c1, c2);
            }
            (
                DrawCommand::StrokeRect { rect: r1, color: c1 },
                DrawCommand::StrokeRect { rect: r2, color: c2 },
            ) => {
                assert_eq!(r1, r2);
                assert_eq!(c1, c2);
            }
            (
                DrawCommand::StrokePath { points: p1, width_tenths: w1, color: c1 },
                DrawCommand::StrokePath { points: p2, width_tenths: w2, color: c2 },
            ) => {
                assert_eq!(p1, p2);
                assert_eq!(w1, w2);
                assert_eq!(c1, c2);
            }
            _ => panic!("command kinds differ between identical renders"),
        }
    }
}

#[test]
fn custom_series_chart() {
    let chart = StockChart::with_candles(vec![
        bar(1_000_000, 1_050_000, 990_000, 1_020_000),
        bar(1_020_000, 1_080_000, 1_010_000, 1_070_000),
    ]);
    let cmds = chart.render_frame(640, 480);
    assert_eq!(cmds.len(), 8 + 3 * 2);
}
