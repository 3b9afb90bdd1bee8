//! The draw paths.
//!
//! A render pass turns the outer bounds, the candle series and the display
//! mode into a list of vector draw commands: first the background, the
//! plot-area rectangle and the horizontal grid lines, then — series
//! permitting — either one candlestick (wick, filled body, body outline)
//! per bar, or one polyline through the closes followed by one square
//! marker per bar.  The contract pins every command: its kind, its exact
//! coordinates and its color, so one input has exactly one output.

use vstd::prelude::*;
use crate::candle::{Candle, ChartMode, series_in_limits};
use crate::frac::Frac;
use crate::layout::{
    COUNT_LIMIT, Layout, MARGIN, PIXEL_LIMIT, chart_extent_of, lemma_mul_bound, range_of,
};
use crate::range::{normalize_range, padded_hi, padded_lo};

verus! {

/// Background of the whole surface.
pub const COLOR_BG: u32 = 0x0f172a;

/// Fill of the plot area.
pub const COLOR_PLOT_FILL: u32 = 0x111c2d;

/// Plot-area border and grid lines.
pub const COLOR_GRID: u32 = 0x1f2937;

/// Candle wicks.
pub const COLOR_WICK: u32 = 0xe2e8f0;

/// Body fill of a candle that closed at or above its open.
pub const COLOR_UP_FILL: u32 = 0x34d399;

/// Body border of a candle that closed at or above its open.
pub const COLOR_UP_BORDER: u32 = 0x10b981;

/// Body fill of a candle that closed below its open.
pub const COLOR_DOWN_FILL: u32 = 0xf87171;

/// Body border of a candle that closed below its open.
pub const COLOR_DOWN_BORDER: u32 = 0xef4444;

/// The close-price polyline.
pub const COLOR_LINE: u32 = 0x38bdf8;

/// Fill of the close-price markers.
pub const COLOR_MARKER_FILL: u32 = 0xbfdbfe;

/// Border of the close-price markers.
pub const COLOR_MARKER_BORDER: u32 = 0x1e3a8a;

/// Stroke width of grid lines, in tenths of a pixel.
pub const WIDTH_GRID: i64 = 10;

/// Stroke width of candle wicks, in tenths of a pixel.
pub const WIDTH_WICK: i64 = 12;

/// Stroke width of the close-price polyline, in tenths of a pixel.
pub const WIDTH_LINE: i64 = 20;

/// A position on the drawing surface.
#[derive(Clone, Copy, Debug, PartialEq, Eq, Structural)]
pub struct Point {
    pub x: Frac,
    pub y: Frac,
}

/// An axis-aligned rectangle: origin and size.
#[derive(Clone, Copy, Debug, PartialEq, Eq, Structural)]
pub struct Rect {
    pub x: Frac,
    pub y: Frac,
    pub w: Frac,
    pub h: Frac,
}

/// One instruction to the host drawing surface.
#[derive(Debug)]
pub enum DrawCommand {
    FillRect { rect: Rect, color: u32 },
    StrokeRect { rect: Rect, color: u32 },
    StrokePath { points: Vec<Point>, width_tenths: i64, color: u32 },
}

pub open spec fn min_int(a: int, b: int) -> int {
    if a <= b {
        a
    } else {
        b
    }
}

pub open spec fn max_int(a: int, b: int) -> int {
    if a >= b {
        a
    } else {
        b
    }
}

/// A candle counts as "up" when it closed at or above its open: the tie
/// `close == open` is deliberately classified as up.
pub open spec fn candle_up(c: Candle) -> bool {
    c.close >= c.open
}

pub open spec fn frac_is(f: Frac, num: int, den: int) -> bool {
    f.num == num && f.den == den
}

pub open spec fn rect_is(
    r: Rect,
    xn: int, xd: int,
    yn: int, yd: int,
    wn: int, wd: int,
    hn: int, hd: int,
) -> bool {
    &&& frac_is(r.x, xn, xd)
    &&& frac_is(r.y, yn, yd)
    &&& frac_is(r.w, wn, wd)
    &&& frac_is(r.h, hn, hd)
}

pub open spec fn is_fill_rect(
    c: DrawCommand,
    xn: int, xd: int,
    yn: int, yd: int,
    wn: int, wd: int,
    hn: int, hd: int,
    color: u32,
) -> bool {
    c matches DrawCommand::FillRect { rect, color: col }
        && rect_is(rect, xn, xd, yn, yd, wn, wd, hn, hd)
        && col == color
}

pub open spec fn is_stroke_rect(
    c: DrawCommand,
    xn: int, xd: int,
    yn: int, yd: int,
    wn: int, wd: int,
    hn: int, hd: int,
    color: u32,
) -> bool {
    c matches DrawCommand::StrokeRect { rect, color: col }
        && rect_is(rect, xn, xd, yn, yd, wn, wd, hn, hd)
        && col == color
}

/// A stroked path of exactly two points: a line segment.
pub open spec fn is_segment(
    c: DrawCommand,
    x0n: int, x0d: int,
    y0n: int, y0d: int,
    x1n: int, x1d: int,
    y1n: int, y1d: int,
    w: int,
    color: u32,
) -> bool {
    c matches DrawCommand::StrokePath { points, width_tenths, color: col }
        && points@.len() == 2
        && frac_is(points@[0].x, x0n, x0d)
        && frac_is(points@[0].y, y0n, y0d)
        && frac_is(points@[1].x, x1n, x1d)
        && frac_is(points@[1].y, y1n, y1d)
        && width_tenths == w
        && col == color
}

/// The geometry a render pass derives from its inputs: margin-inset plot
/// extents, the series length, and the padded, floored vertical range.
pub open spec fn layout_of(width: int, height: int, s: Seq<Candle>) -> Layout {
    Layout {
        margin: MARGIN,
        chart_w: chart_extent_of(width) as i64,
        chart_h: chart_extent_of(height) as i64,
        count: s.len() as usize,
        lo: padded_lo(s) as i64,
        hi: padded_hi(s) as i64,
        range: range_of(padded_lo(s), padded_hi(s)) as i64,
    }
}

/// The fixed opening of every command list: the background fill, the
/// plot-area fill and outline, and five evenly spaced horizontal grid
/// lines at `y = margin + k/4 * chart_h` for `k` in `0..=4`.
pub open spec fn prelude_ok(
    cmds: Seq<DrawCommand>,
    width: int,
    height: int,
    cw: int,
    ch: int,
) -> bool {
    &&& cmds.len() >= 8
    &&& is_fill_rect(cmds[0], 0, 1, 0, 1, width, 1, height, 1, COLOR_BG)
    &&& is_fill_rect(cmds[1], MARGIN as int, 1, MARGIN as int, 1, cw, 1, ch, 1, COLOR_PLOT_FILL)
    &&& is_stroke_rect(cmds[2], MARGIN as int, 1, MARGIN as int, 1, cw, 1, ch, 1, COLOR_GRID)
    &&& forall|k: int| 0 <= k <= 4 ==> is_segment(
            #[trigger] cmds[3 + k],
            MARGIN as int, 1,
            4 * MARGIN + k * ch, 4,
            MARGIN + cw, 1,
            4 * MARGIN + k * ch, 4,
            WIDTH_GRID as int,
            COLOR_GRID,
        )
}

/// The body rectangle of the candle at index `i`: horizontally centered in
/// its slot with the floored sixty-percent body width, vertically spanning
/// open to close, floored at one pixel of height.
pub open spec fn body_rect_ok(r: Rect, l: Layout, c: Candle, i: int) -> bool {
    let top = min_int(l.y_num(c.open as int), l.y_num(c.close as int));
    let bot = max_int(l.y_num(c.open as int), l.y_num(c.close as int));
    &&& frac_is(r.x, 2 * l.x_num(i) - l.body_w_num(), 20 * l.slots())
    &&& frac_is(r.y, top, l.range as int)
    &&& frac_is(r.w, l.body_w_num(), 10 * l.slots())
    &&& frac_is(r.h, max_int(bot - top, l.range as int), l.range as int)
}

/// The three commands of the candle at index `i`: its wick from high to
/// low, its filled body, and the body outline drawn over the fill, the
/// body pair in the green colors when the candle is up and in the red
/// ones otherwise.
pub open spec fn candle_triple_ok(
    cmds: Seq<DrawCommand>,
    l: Layout,
    c: Candle,
    i: int,
    base: int,
) -> bool {
    &&& base + 3 * i + 3 <= cmds.len()
    &&& is_segment(
            cmds[base + 3 * i],
            l.x_num(i), 10 * l.slots(),
            l.y_num(c.high as int), l.range as int,
            l.x_num(i), 10 * l.slots(),
            l.y_num(c.low as int), l.range as int,
            WIDTH_WICK as int,
            COLOR_WICK,
        )
    &&& (cmds[base + 3 * i + 1] matches DrawCommand::FillRect { rect, color }
            && body_rect_ok(rect, l, c, i)
            && color == (if candle_up(c) { COLOR_UP_FILL } else { COLOR_DOWN_FILL }))
    &&& (cmds[base + 3 * i + 2] matches DrawCommand::StrokeRect { rect, color }
            && body_rect_ok(rect, l, c, i)
            && color == (if candle_up(c) { COLOR_UP_BORDER } else { COLOR_DOWN_BORDER }))
}

/// The close-price polyline: one point per candle, in index order.
pub open spec fn line_path_ok(c: DrawCommand, l: Layout, s: Seq<Candle>) -> bool {
    c matches DrawCommand::StrokePath { points, width_tenths, color }
        && points@.len() == s.len()
        && (forall|i: int| 0 <= i < s.len() ==> {
            &&& frac_is((#[trigger] points@[i]).x, l.x_num(i), 10 * l.slots())
            &&& frac_is(points@[i].y, l.y_num(s[i].close as int), l.range as int)
        })
        && width_tenths == WIDTH_LINE
        && color == COLOR_LINE
}

/// The marker of the candle at index `i`: a seven-pixel square centered on
/// the close-price point (a rectangle-approximated circle of radius 3.5).
pub open spec fn marker_rect_ok(r: Rect, l: Layout, c: Candle, i: int) -> bool {
    &&& frac_is(r.x, 2 * l.x_num(i) - 70 * l.slots(), 20 * l.slots())
    &&& frac_is(r.y, 2 * l.y_num(c.close as int) - 7 * l.range, 2 * l.range)
    &&& frac_is(r.w, 7, 1)
    &&& frac_is(r.h, 7, 1)
}

/// The two commands of the marker at index `i`: its fill, then its border
/// drawn over the fill.
pub open spec fn marker_pair_ok(
    cmds: Seq<DrawCommand>,
    l: Layout,
    c: Candle,
    i: int,
    base: int,
) -> bool {
    &&& base + 2 * i + 2 <= cmds.len()
    &&& (cmds[base + 2 * i] matches DrawCommand::FillRect { rect, color }
            && marker_rect_ok(rect, l, c, i)
            && color == COLOR_MARKER_FILL)
    &&& (cmds[base + 2 * i + 1] matches DrawCommand::StrokeRect { rect, color }
            && marker_rect_ok(rect, l, c, i)
            && color == COLOR_MARKER_BORDER)
}

/// The full contract of a render pass: the fixed prelude, then — for a
/// non-empty series — either three commands per candle, or the polyline
/// followed by two marker commands per candle; an empty series draws the
/// prelude alone.  Every command is pinned exactly, so a render pass is a
/// function of its inputs: re-rendering with unchanged inputs yields the
/// identical command list.
pub open spec fn render_ok(
    cmds: Seq<DrawCommand>,
    width: int,
    height: int,
    s: Seq<Candle>,
    mode: ChartMode,
) -> bool {
    let l = layout_of(width, height, s);
    &&& prelude_ok(cmds, width, height, l.chart_w as int, l.chart_h as int)
    &&& (s.len() == 0 ==> cmds.len() == 8)
    &&& (s.len() > 0 && mode == ChartMode::Candlestick ==> {
        &&& cmds.len() == 8 + 3 * s.len()
        &&& forall|i: int| 0 <= i < s.len() ==> candle_triple_ok(cmds, l, #[trigger] s[i], i, 8)
    })
    &&& (s.len() > 0 && mode == ChartMode::Line ==> {
        &&& cmds.len() == 9 + 2 * s.len()
        &&& line_path_ok(cmds[8], l, s)
        &&& forall|i: int| 0 <= i < s.len() ==> marker_pair_ok(cmds, l, #[trigger] s[i], i, 9)
    })
}

/// The fill and border colors of a candle body: the green pair when the
/// candle closed at or above its open — the tie `close == open` counts as
/// up — and the red pair otherwise.
pub fn candle_colors(c: &Candle) -> (r: (u32, u32))
    ensures
        candle_up(*c) ==> r == (COLOR_UP_FILL, COLOR_UP_BORDER),
        !candle_up(*c) ==> r == (COLOR_DOWN_FILL, COLOR_DOWN_BORDER),
{
    if c.close >= c.open {
        (COLOR_UP_FILL, COLOR_UP_BORDER)
    } else {
        (COLOR_DOWN_FILL, COLOR_DOWN_BORDER)
    }
}

/// Render one frame: reduce the series to its padded vertical range,
/// derive the plot geometry, and emit the command list that `render_ok`
/// describes.  Never fails: the empty series, a surface smaller than its
/// margins and a flat price range all degrade to clamped geometry.
pub fn render(width: i64, height: i64, candles: &Vec<Candle>, mode: ChartMode) -> (cmds: Vec<
    DrawCommand,
>)
    requires
        0 <= width <= PIXEL_LIMIT,
        0 <= height <= PIXEL_LIMIT,
        candles@.len() <= COUNT_LIMIT,
        series_in_limits(candles@),
    ensures
        render_ok(cmds@, width as int, height as int, candles@, mode),
{
    let pr = normalize_range(candles);
    let l = Layout::new(width, height, candles.len(), &pr);
    proof {
        assert(l == layout_of(width as int, height as int, candles@));
    }
    let mut cmds: Vec<DrawCommand> = Vec::new();
    let full = Rect {
        x: Frac::whole(0),
        y: Frac::whole(0),
        w: Frac::whole(width),
        h: Frac::whole(height),
    };
    cmds.push(DrawCommand::FillRect { rect: full, color: COLOR_BG });
    let m = Frac::whole(MARGIN);
    let plot = Rect { x: m, y: m, w: Frac::whole(l.chart_w), h: Frac::whole(l.chart_h) };
    cmds.push(DrawCommand::FillRect { rect: plot, color: COLOR_PLOT_FILL });
    cmds.push(DrawCommand::StrokeRect { rect: plot, color: COLOR_GRID });
    let mut k: i64 = 0;
    while k <= 4
        invariant
            l.wf(),
            0 <= k <= 5,
            cmds@.len() == 3 + k,
            is_fill_rect(cmds@[0], 0, 1, 0, 1, width as int, 1, height as int, 1, COLOR_BG),
            is_fill_rect(
                cmds@[1],
                MARGIN as int, 1, MARGIN as int, 1,
                l.chart_w as int, 1, l.chart_h as int, 1,
                COLOR_PLOT_FILL,
            ),
            is_stroke_rect(
                cmds@[2],
                MARGIN as int, 1, MARGIN as int, 1,
                l.chart_w as int, 1, l.chart_h as int, 1,
                COLOR_GRID,
            ),
            forall|kk: int| 0 <= kk < k ==> is_segment(
                #[trigger] cmds@[3 + kk],
                MARGIN as int, 1,
                4 * MARGIN + kk * l.chart_h, 4,
                MARGIN + l.chart_w, 1,
                4 * MARGIN + kk * l.chart_h, 4,
                WIDTH_GRID as int,
                COLOR_GRID,
            ),
        decreases 5 - k,
    {
        proof {
            lemma_mul_bound(k as int, l.chart_h as int, 4, PIXEL_LIMIT as int);
        }
        let y = Frac { num: 4 * (MARGIN as i128) + (k as i128) * (l.chart_h as i128), den: 4 };
        let left = Frac::whole(MARGIN);
        let right = Frac::whole(MARGIN + l.chart_w);
        let mut pts: Vec<Point> = Vec::new();
        pts.push(Point { x: left, y });
        pts.push(Point { x: right, y });
        let ghost prevg = cmds@;
        cmds.push(DrawCommand::StrokePath {
            points: pts,
            width_tenths: WIDTH_GRID,
            color: COLOR_GRID,
        });
        proof {
            assert(forall|j: int| 0 <= j < prevg.len() ==> cmds@[j] == prevg[j]);
            assert(is_segment(
                cmds@[3 + k as int],
                MARGIN as int, 1,
                4 * MARGIN + (k as int) * l.chart_h, 4,
                MARGIN + l.chart_w, 1,
                4 * MARGIN + (k as int) * l.chart_h, 4,
                WIDTH_GRID as int,
                COLOR_GRID,
            ));
        }
        k += 1;
    }
    assert(prelude_ok(cmds@, width as int, height as int, l.chart_w as int, l.chart_h as int));
    if candles.len() == 0 {
        return cmds;
    }
    match mode {
        ChartMode::Candlestick => {
            push_candle_cmds(&mut cmds, &l, candles);
        }
        ChartMode::Line => {
            push_line_cmds(&mut cmds, &l, candles);
        }
    }
    cmds
}

/// Append the candlestick commands: per candle its wick, body fill and
/// body outline, in index order.
fn push_candle_cmds(cmds: &mut Vec<DrawCommand>, l: &Layout, candles: &Vec<Candle>)
    requires
        l.wf(),
        l.count == candles@.len(),
        1 <= candles@.len() <= COUNT_LIMIT,
        series_in_limits(candles@),
        old(cmds)@.len() == 8,
    ensures
        final(cmds)@.len() == 8 + 3 * candles@.len(),
        forall|j: int| 0 <= j < 8 ==> final(cmds)@[j] == old(cmds)@[j],
        forall|i: int| 0 <= i < candles@.len() ==> candle_triple_ok(
            final(cmds)@, *l, #[trigger] candles@[i], i, 8,
        ),
{
    let ghost pre = cmds@;
    let mut i: usize = 0;
    while i < candles.len()
        invariant
            l.wf(),
            l.count == candles@.len(),
            1 <= candles@.len() <= COUNT_LIMIT,
            series_in_limits(candles@),
            pre.len() == 8,
            0 <= i <= candles@.len(),
            cmds@.len() == 8 + 3 * i,
            forall|j: int| 0 <= j < 8 ==> cmds@[j] == pre[j],
            forall|jj: int| 0 <= jj < i ==> candle_triple_ok(
                cmds@, *l, #[trigger] candles@[jj], jj, 8,
            ),
        decreases candles@.len() - i,
    {
        let ghost prev = cmds@;
        let c = candles[i];
        assert(candles@[i as int].in_limits());
        let cx = l.x(i);
        let yh = l.y(c.high);
        let yl = l.y(c.low);
        let mut wick_pts: Vec<Point> = Vec::new();
        wick_pts.push(Point { x: cx, y: yh });
        wick_pts.push(Point { x: cx, y: yl });
        cmds.push(DrawCommand::StrokePath {
            points: wick_pts,
            width_tenths: WIDTH_WICK,
            color: COLOR_WICK,
        });
        let yo = l.y(c.open);
        let yc = l.y(c.close);
        let top_num = if yo.num <= yc.num { yo.num } else { yc.num };
        let bot_num = if yo.num >= yc.num { yo.num } else { yc.num };
        let h_num = if bot_num - top_num >= yo.den { bot_num - top_num } else { yo.den };
        let bw = l.body_width();
        let body = Rect {
            x: Frac { num: 2 * cx.num - bw.num, den: 2 * cx.den },
            y: Frac { num: top_num, den: yo.den },
            w: bw,
            h: Frac { num: h_num, den: yo.den },
        };
        let (fill_color, border_color) = candle_colors(&c);
        cmds.push(DrawCommand::FillRect { rect: body, color: fill_color });
        cmds.push(DrawCommand::StrokeRect { rect: body, color: border_color });
        proof {
            assert(forall|j: int| 0 <= j < prev.len() ==> cmds@[j] == prev[j]);
            assert(candle_triple_ok(cmds@, *l, candles@[i as int], i as int, 8));
            assert(forall|jj: int| 0 <= jj < i ==> candle_triple_ok(
                cmds@, *l, #[trigger] candles@[jj], jj, 8,
            ));
        }
        i += 1;
    }
}

/// Append the line-mode commands: the close-price polyline, then per
/// candle its marker fill and marker border, in index order.
fn push_line_cmds(cmds: &mut Vec<DrawCommand>, l: &Layout, candles: &Vec<Candle>)
    requires
        l.wf(),
        l.count == candles@.len(),
        1 <= candles@.len() <= COUNT_LIMIT,
        series_in_limits(candles@),
        old(cmds)@.len() == 8,
    ensures
        final(cmds)@.len() == 9 + 2 * candles@.len(),
        forall|j: int| 0 <= j < 8 ==> final(cmds)@[j] == old(cmds)@[j],
        line_path_ok(final(cmds)@[8], *l, candles@),
        forall|i: int| 0 <= i < candles@.len() ==> marker_pair_ok(
            final(cmds)@, *l, #[trigger] candles@[i], i, 9,
        ),
{
    let ghost orig = cmds@;
    let mut pts: Vec<Point> = Vec::new();
    let mut i: usize = 0;
    while i < candles.len()
        invariant
            l.wf(),
            l.count == candles@.len(),
            1 <= candles@.len() <= COUNT_LIMIT,
            series_in_limits(candles@),
            0 <= i <= candles@.len(),
            pts@.len() == i,
            forall|jj: int| 0 <= jj < i ==> {
                &&& frac_is((#[trigger] pts@[jj]).x, l.x_num(jj), 10 * l.slots())
                &&& frac_is(pts@[jj].y, l.y_num(candles@[jj].close as int), l.range as int)
            },
        decreases candles@.len() - i,
    {
        let c = candles[i];
        assert(candles@[i as int].in_limits());
        let cx = l.x(i);
        let cy = l.y(c.close);
        pts.push(Point { x: cx, y: cy });
        i += 1;
    }
    cmds.push(DrawCommand::StrokePath { points: pts, width_tenths: WIDTH_LINE, color: COLOR_LINE });
    proof {
        assert(forall|j: int| 0 <= j < orig.len() ==> cmds@[j] == orig[j]);
        assert(line_path_ok(cmds@[8], *l, candles@));
    }
    let ghost pre9 = cmds@;
    let mut i: usize = 0;
    while i < candles.len()
        invariant
            l.wf(),
            l.count == candles@.len(),
            1 <= candles@.len() <= COUNT_LIMIT,
            series_in_limits(candles@),
            pre9.len() == 9,
            0 <= i <= candles@.len(),
            cmds@.len() == 9 + 2 * i,
            forall|j: int| 0 <= j < 9 ==> cmds@[j] == pre9[j],
            forall|jj: int| 0 <= jj < i ==> marker_pair_ok(
                cmds@, *l, #[trigger] candles@[jj], jj, 9,
            ),
        decreases candles@.len() - i,
    {
        let ghost prev = cmds@;
        let c = candles[i];
        assert(candles@[i as int].in_limits());
        let cx = l.x(i);
        let cy = l.y(c.close);
        let slots: i128 = l.count as i128;
        let marker = Rect {
            x: Frac { num: 2 * cx.num - 70 * slots, den: 2 * cx.den },
            y: Frac { num: 2 * cy.num - 7 * cy.den, den: 2 * cy.den },
            w: Frac::whole(7),
            h: Frac::whole(7),
        };
        cmds.push(DrawCommand::FillRect { rect: marker, color: COLOR_MARKER_FILL });
        cmds.push(DrawCommand::StrokeRect { rect: marker, color: COLOR_MARKER_BORDER });
        proof {
            assert(forall|j: int| 0 <= j < prev.len() ==> cmds@[j] == prev[j]);
            assert(marker_pair_ok(cmds@, *l, candles@[i as int], i as int, 9));
            assert(forall|jj: int| 0 <= jj < i ==> marker_pair_ok(
                cmds@, *l, #[trigger] candles@[jj], jj, 9,
            ));
        }
        i += 1;
    }
    proof {
        assert(forall|j: int| 0 <= j < 8 ==> cmds@[j] == orig[j]);
        assert(line_path_ok(cmds@[8], *l, candles@));
    }
}

} // verus!
