//! Screen geometry of a table view: which columns fit, the scrollbar, and
//! what lies under a pointer.

use vstd::prelude::*;
use crate::value::{affinity, affinity_of, chars_contain, seq_contains, to_uppercase, unicode_upper, ColAffinity, Column, SqlValue};
use crate::symbols::Symbols;
use super::layout::{cell_text, cell_text_of};
use super::width::{truncate_to_display_width, truncated_len};
use crate::text::{chars_of, i64_to_decimal, int_decimal, nat_decimal, push_char};
use super::{fit_count, GridState, HEADER_ROWS};
use super::virtual_scroll::as_i64;
use super::alphabet_rail::{hit_test as rail_hit_test, rail_geometry_ok, rail_letter_at, shows_rail, should_show_rail, RAIL_WIDTH};

verus! {

/// A screen rectangle in cells.
#[derive(PartialEq, Eq, Structural, Clone, Copy, Debug)]
pub struct Rect {
    pub x: u16,
    pub y: u16,
    pub width: u16,
    pub height: u16,
}

/// Text and blob columns take the width left over on the right.
pub open spec fn is_stretch_col(c: Column) -> bool {
    let a = affinity_of(c.col_type@);
    a == ColAffinity::Text || a == ColAffinity::Blob
}

/// The number of stretch columns among `cols[h .. h + v]`.
pub open spec fn stretch_count(cols: Seq<Column>, h: int, v: int) -> nat
    decreases v,
{
    if v <= 0 {
        0
    } else {
        stretch_count(cols, h, v - 1) + (if is_stretch_col(cols[h + v - 1]) { 1nat } else { 0nat })
    }
}

/// `ws[from] + .. + ws[to - 1]`.
pub open spec fn width_sum(ws: Seq<u16>, from: int, to: int) -> int
    decreases to - from,
{
    if to <= from {
        0
    } else {
        width_sum(ws, from, to - 1) + ws[to - 1]
    }
}

/// How many columns from `h` are shown in `dw` cells: the first always,
/// then each next one while the running width stays within `dw`.
pub open spec fn visible_count(ws: Seq<u16>, h: int, dw: int) -> int {
    if 0 <= h < ws.len() {
        1 + fit_count(ws, h + 1, dw - ws[h])
    } else {
        0
    }
}

/// The extra width given to the `v`-th shown column: the cells left over are
/// shared evenly among the shown stretch columns, the first ones taking one
/// more cell each for the remainder; with no stretch column the last shown
/// column takes them all.
pub open spec fn visible_share(cols: Seq<Column>, ws: Seq<u16>, h: int, dw: int, v: int) -> int {
    let n = visible_count(ws, h, dw);
    let used = width_sum(ws, h, h + n);
    if used >= dw {
        0
    } else {
        let extra = dw - used;
        let k = stretch_count(cols, h, n);
        if k > 0 {
            if is_stretch_col(cols[h + v]) {
                extra / (k as int) + (if stretch_count(cols, h, v) < extra % (k as int) { 1int } else { 0int })
            } else {
                0
            }
        } else if v == n - 1 {
            extra
        } else {
            0
        }
    }
}

/// `a + b` saturated at `u16::MAX`.
pub open spec fn sat_u16(x: int) -> u16 {
    if x > u16::MAX {
        u16::MAX
    } else {
        x as u16
    }
}

/// The columns shown in `dw` cells from the first visible one, each with its
/// width after the leftover cells are shared out.
pub open spec fn visible_cols(cols: Seq<Column>, ws: Seq<u16>, h: int, dw: int) -> Seq<(usize, u16)> {
    Seq::new(
        visible_count(ws, h, dw) as nat,
        |v: int| ((h + v) as usize, sat_u16(ws[h + v] + visible_share(cols, ws, h, dw, v))),
    )
}

/// The columns can be laid out in `dw` cells: the running width where the
/// layout stops fits in `u16`, and the shown columns have metadata when
/// leftover cells are shared.
pub open spec fn layout_ok(cols: Seq<Column>, ws: Seq<u16>, h: int, dw: int) -> bool {
    let n = visible_count(ws, h, dw);
    &&& (h + n < ws.len() ==> width_sum(ws, h, h + n + 1) <= u16::MAX)
    &&& (width_sum(ws, h, h + n) < dw ==> h + n <= cols.len())
}

proof fn lemma_fit_count_bounds(ws: Seq<u16>, start: int, avail: int)
    requires
        0 <= start,
    ensures
        0 <= fit_count(ws, start, avail),
        start <= ws.len() ==> start + fit_count(ws, start, avail) <= ws.len(),
        start > ws.len() ==> fit_count(ws, start, avail) == 0,
        width_sum(ws, start, start + fit_count(ws, start, avail)) <= if avail < 0 { 0 } else { avail },
    decreases ws.len() - start,
{
    if start < ws.len() && ws[start] <= avail {
        lemma_fit_count_bounds(ws, start + 1, avail - ws[start]);
        lemma_width_sum_front(ws, start, start + fit_count(ws, start, avail));
    }
}

proof fn lemma_width_sum_front(ws: Seq<u16>, from: int, to: int)
    requires
        from < to,
    ensures
        width_sum(ws, from, to) == ws[from] + width_sum(ws, from + 1, to),
    decreases to - from,
{
    if to - 1 > from {
        lemma_width_sum_front(ws, from, to - 1);
        assert(width_sum(ws, from + 1, to) == width_sum(ws, from + 1, to - 1) + ws[to - 1]);
    } else {
        assert(width_sum(ws, from, from) == 0);
        assert(width_sum(ws, from + 1, to) == 0);
    }
}

proof fn lemma_width_sum_nonneg(ws: Seq<u16>, from: int, to: int)
    ensures
        width_sum(ws, from, to) >= 0,
    decreases to - from,
{
    if to > from {
        lemma_width_sum_nonneg(ws, from, to - 1);
    }
}

proof fn lemma_stretch_count_le(cols: Seq<Column>, h: int, v: int)
    requires
        v >= 0,
    ensures
        stretch_count(cols, h, v) <= v,
    decreases v,
{
    if v > 0 {
        lemma_stretch_count_le(cols, h, v - 1);
    }
}

proof fn lemma_stretch_count_mono(cols: Seq<Column>, h: int, u: int, v: int)
    requires
        0 <= u <= v,
    ensures
        stretch_count(cols, h, u) <= stretch_count(cols, h, v),
        u < v && is_stretch_col(cols[h + u]) ==> stretch_count(cols, h, u) < stretch_count(cols, h, v),
    decreases v - u,
{
    if u < v {
        lemma_stretch_count_mono(cols, h, u, v - 1);
        if u < v - 1 && is_stretch_col(cols[h + u]) {
            lemma_stretch_count_mono(cols, h, u + 1, v - 1);
        }
    }
}

/// The columns shown in `data_width` cells from the first visible column,
/// each with its width after the leftover cells are shared out.
pub fn compute_visible_cols(state: &GridState, data_width: u16) -> (r: Vec<(usize, u16)>)
    requires
        layout_ok(state.columns@, state.col_widths@, state.h_scroll as int, data_width as int),
    ensures
        r@ == visible_cols(state.columns@, state.col_widths@, state.h_scroll as int, data_width as int),
{
    let ws = &state.col_widths;
    let cols = &state.columns;
    let h = state.h_scroll;
    let dw = data_width as u32;
    let ghost wsv = ws@;
    let ghost n = visible_count(wsv, h as int, dw as int);
    let mut vis: Vec<(usize, u16)> = Vec::new();
    let mut cumul: u32 = 0;
    let mut i: usize = h;
    proof {
        if h < wsv.len() {
            lemma_fit_count_bounds(wsv, h + 1, dw - wsv[h as int]);
        }
    }
    while i < ws.len()
        invariant_except_break
            h <= i,
            vis@.len() == i - h,
            forall|v: int| 0 <= v < vis@.len() ==> #[trigger] vis@[v] == ((h + v) as usize, wsv[h + v]),
            cumul == width_sum(wsv, h as int, i as int),
            i > h ==> (i - h - 1) + fit_count(wsv, i as int, dw - cumul) == fit_count(wsv, h + 1, dw - wsv[h as int]),
            i > h + 1 ==> cumul <= dw,
            h + n < wsv.len() ==> width_sum(wsv, h as int, h + n + 1) <= u16::MAX,
            i <= h + n,
            ws@ == wsv,
            n == visible_count(wsv, h as int, dw as int),
        invariant
            i <= ws.len() || vis@.len() == 0,
        ensures
            vis@.len() == n,
            forall|v: int| 0 <= v < vis@.len() ==> #[trigger] vis@[v] == ((h + v) as usize, wsv[h + v]),
            cumul == width_sum(wsv, h as int, h + n),
        decreases ws.len() - i,
    {
        let w = ws[i];
        proof {
            if i > h {
                assert(width_sum(wsv, h as int, i + 1) == cumul + w);
            }
        }
        if vis.len() == 0 || cumul + (w as u32) <= dw {
            proof {
                lemma_fit_count_bounds(wsv, i + 1, dw - cumul - wsv[i as int]);
                if i > h {
                    assert(wsv[i as int] <= dw - cumul);
                    assert(fit_count(wsv, i as int, dw - cumul) == 1 + fit_count(wsv, i + 1, dw - cumul - wsv[i as int]));
                }
            }
            vis.push((i, w));
            cumul = cumul + w as u32;
            i = i + 1;
        } else {
            break;
        }
    }
    if h >= ws.len() {
        assert(n == 0);
    }
    if cumul < dw {
        let extra: u64 = (dw - cumul) as u64;
        let ghost k = stretch_count(cols@, h as int, n);
        let mut targets: Vec<usize> = Vec::new();
        let mut v: usize = 0;
        let ncols = cols.len();
        while v < vis.len()
            invariant
                ncols == cols@.len(),
                v <= vis@.len(),
                vis@.len() == n,
                h + n <= cols@.len(),
                targets@.len() == stretch_count(cols@, h as int, v as int),
                forall|j: int| 0 <= j < targets@.len() ==> {
                    &&& #[trigger] targets@[j] < v
                    &&& is_stretch_col(cols@[h + targets@[j]])
                    &&& stretch_count(cols@, h as int, targets@[j] as int) == j
                },
            decreases vis@.len() - v,
        {
            assert(h + v < h + n);
            if affinity_is_stretch(&cols[h + v]) {
                targets.push(v);
            }
            v = v + 1;
        }
        assert(targets@.len() == k);
        if targets.len() == 0 {
            if vis.len() > 0 {
                let last = vis.len() - 1;
                let (c, w) = vis[last];
                let nw: u16 = if (w as u64) + extra > 0xffff { 0xffff } else { ((w as u64) + extra) as u16 };
                vis.set(last, (c, nw));
            }
        } else {
            let t = targets.len() as u64;
            let base = extra / t;
            let rem = extra % t;
            let ghost before = vis@;
            let mut j: usize = 0;
            while j < targets.len()
                invariant
                    j <= targets@.len(),
                    targets@.len() == k,
                    k > 0,
                    t == k,
                    base == extra / t,
                    extra <= 0xffff,
                    rem == extra % t,
                    vis@.len() == n,
                    h + n <= cols@.len(),
                    forall|jj: int| 0 <= jj < targets@.len() ==> {
                        &&& #[trigger] targets@[jj] < n
                        &&& is_stretch_col(cols@[h + targets@[jj]])
                        &&& stretch_count(cols@, h as int, targets@[jj] as int) == jj
                    },
                    forall|u: int| 0 <= u < n ==> #[trigger] vis@[u] == if is_stretch_col(cols@[h + u]) && stretch_count(cols@, h as int, u) < j {
                        ((h + u) as usize, sat_u16(wsv[h + u] + base + (if stretch_count(cols@, h as int, u) < rem { 1int } else { 0int })))
                    } else {
                        ((h + u) as usize, wsv[h + u])
                    },
                decreases targets@.len() - j,
            {
                let tv = targets[j];
                let (c, w) = vis[tv];
                let add: u64 = base + if (j as u64) < rem { 1 } else { 0 };
                let nw: u16 = if (w as u64) + add > 0xffff { 0xffff } else { ((w as u64) + add) as u16 };
                vis.set(tv, (c, nw));
                proof {
                    assert forall|u: int| 0 <= u < n implies #[trigger] vis@[u] == if is_stretch_col(cols@[h + u]) && stretch_count(cols@, h as int, u) < j + 1 {
                        ((h + u) as usize, sat_u16(wsv[h + u] + base + (if stretch_count(cols@, h as int, u) < rem { 1int } else { 0int })))
                    } else {
                        ((h + u) as usize, wsv[h + u])
                    } by {
                        if u != tv {
                            if is_stretch_col(cols@[h + u]) {
                                if u < tv {
                                    lemma_stretch_count_mono(cols@, h as int, u, tv as int);
                                } else {
                                    lemma_stretch_count_mono(cols@, h as int, tv as int, u);
                                }
                            }
                        }
                    }
                }
                j = j + 1;
            }
            proof {
                assert forall|u: int| 0 <= u < n implies is_stretch_col(cols@[h + u]) ==> stretch_count(cols@, h as int, u) < k by {
                    lemma_stretch_count_mono(cols@, h as int, u, n);
                }
            }
        }
    }
    proof {
        lemma_width_sum_nonneg(wsv, h as int, h + n);
    }
    assert(vis@ =~= visible_cols(cols@, wsv, h as int, dw as int));
    vis
}

/// Whether a column takes leftover width.
fn affinity_is_stretch(c: &Column) -> (r: bool)
    ensures
        r == is_stretch_col(*c),
{
    let a = affinity(c.col_type.as_str());
    match a {
        ColAffinity::Text => true,
        ColAffinity::Blob => true,
        _ => false,
    }
}

/// The vertical scrollbar of a grid area: its column, first row, height,
/// and the thumb's height and offset within it.
#[derive(PartialEq, Eq, Structural, Clone, Copy, Debug)]
pub struct ScrollbarMetrics {
    pub track_x: u16,
    pub track_y_start: u16,
    pub track_height: i64,
    pub thumb_height: i64,
    pub thumb_offset: i64,
}

/// Rust's truncating division, for `b > 0`.
pub open spec fn trunc_div(a: int, b: int) -> int {
    if a >= 0 {
        a / b
    } else {
        -((-a) / b)
    }
}

/// `x` clamped to `[lo, hi]`.
pub open spec fn clamp(x: int, lo: int, hi: int) -> int {
    if x < lo {
        lo
    } else if x > hi {
        hi
    } else {
        x
    }
}

/// The track height of an area: the rows under the header.
pub open spec fn track_rows(area: Rect) -> int {
    if area.height >= HEADER_ROWS { area.height - HEADER_ROWS } else { 0 }
}

/// The thumb height: the viewport's share of the track, at least one row
/// and at most the track.
pub open spec fn thumb_rows(area: Rect, total: i64, viewport_rows: usize) -> int {
    let th = track_rows(area);
    let t0 = trunc_div(as_i64(viewport_rows) * th, total as int);
    let t1 = if t0 < 1 { 1 } else { t0 };
    if t1 > th { th } else { t1 }
}

/// The scrollbar of `area` for `total` rows, `viewport_rows` shown and the
/// focused row: none for an empty table, a zero-width area or no track.
pub open spec fn scrollbar(area: Rect, total: i64, viewport_rows: usize, focused_row: usize) -> Option<ScrollbarMetrics> {
    let th = track_rows(area);
    if total <= 0 || area.width == 0 || th <= 0 {
        None
    } else {
        let thumb = thumb_rows(area, total, viewport_rows);
        let off = if total > 1 { trunc_div(as_i64(focused_row) * (th - thumb), total - 1) } else { 0 };
        Some(ScrollbarMetrics {
            track_x: (area.x + area.width - 1) as u16,
            track_y_start: (area.y + HEADER_ROWS) as u16,
            track_height: th as i64,
            thumb_height: thumb as i64,
            thumb_offset: clamp(off, 0, th - thumb) as i64,
        })
    }
}

/// The scrollbar's arithmetic stays within `i64` and the area within `u16`.
pub open spec fn scrollbar_ok(area: Rect, total: i64, viewport_rows: usize, focused_row: usize) -> bool {
    let th = track_rows(area);
    &&& area.x + area.width <= u16::MAX
    &&& area.y + area.height <= u16::MAX
    &&& (total > 0 && area.width > 0 && th > 0 ==> {
        &&& i64::MIN <= as_i64(viewport_rows) * th <= i64::MAX
        &&& (total > 1 ==> i64::MIN <= as_i64(focused_row) * (th - thumb_rows(area, total, viewport_rows)) <= i64::MAX)
    })
}

/// Rust's truncating division, for `b > 0`.
fn tdiv(a: i128, b: i128) -> (q: i128)
    requires
        b > 0,
        i64::MIN <= a <= i64::MAX,
    ensures
        q == trunc_div(a as int, b as int),
{
    if a >= 0 {
        a / b
    } else {
        -((-a) / b)
    }
}

proof fn lemma_trunc_div_bounds(a: int, b: int)
    by (nonlinear_arith)
    requires
        b > 0,
    ensures
        a >= 0 ==> 0 <= trunc_div(a, b) <= a,
        a < 0 ==> a <= trunc_div(a, b) <= 0,
{
    if a >= 0 {
        assert(a / b <= a);
    } else {
        assert((-a) / b <= -a);
    }
}

/// The vertical scrollbar of the grid in `area`.
pub fn vertical_scrollbar_metrics(area: Rect, state: &GridState) -> (r: Option<ScrollbarMetrics>)
    requires
        scrollbar_ok(area, state.window.total_rows, state.window.viewport_rows, state.focused_row),
    ensures
        r == scrollbar(area, state.window.total_rows, state.window.viewport_rows, state.focused_row),
{
    let total = state.window.total_rows;
    if total <= 0 || area.width == 0 {
        return None;
    }
    let track_height = area.height.saturating_sub(HEADER_ROWS) as i64;
    if track_height <= 0 {
        return None;
    }
    let track_x = area.x + area.width - 1;
    let track_y_start = area.y + HEADER_ROWS;
    let vp = (state.window.viewport_rows as i64) as i128;
    let th = track_height as i128;
    proof {
        lemma_trunc_div_bounds(vp * th, total as int);
    }
    let t0 = tdiv(vp * th, total as i128);
    let t1 = if t0 < 1 { 1 } else { t0 };
    let thumb: i128 = if t1 > th { th } else { t1 };
    let thumb_offset: i128 = if total > 1 {
        let fr = (state.focused_row as i64) as i128;
        proof {
            lemma_trunc_div_bounds(fr * (th - thumb), (total - 1) as int);
        }
        tdiv(fr * (th - thumb), (total - 1) as i128)
    } else {
        0
    };
    let max_off = th - thumb;
    let off = if thumb_offset < 0 { 0 } else if thumb_offset > max_off { max_off } else { thumb_offset };
    Some(ScrollbarMetrics {
        track_x,
        track_y_start,
        track_height,
        thumb_height: thumb as i64,
        thumb_offset: off as i64,
    })
}

/// `a - b` saturated to `i64`.
pub open spec fn sat_i64(x: int) -> int {
    if x < i64::MIN {
        i64::MIN as int
    } else if x > i64::MAX {
        i64::MAX as int
    } else {
        x
    }
}

/// The thumb offset a drag at row `y` asks for, holding the thumb
/// `grab_offset` rows below its top.
pub open spec fn drag_thumb_offset(m: ScrollbarMetrics, y: u16, grab_offset: i64) -> int {
    clamp(sat_i64((y - m.track_y_start) - grab_offset), 0, m.track_height - m.thumb_height)
}

/// The row a drag at `y` scrolls to: the thumb offset scaled to the rows,
/// rounded to nearest.
pub open spec fn drag_row(m: ScrollbarMetrics, total: i64, y: u16, grab_offset: i64) -> int {
    let max_off = m.track_height - m.thumb_height;
    if total <= 1 || max_off <= 0 {
        0
    } else {
        (drag_thumb_offset(m, y, grab_offset) * (total - 1) + max_off / 2) / max_off
    }
}

/// The drag arithmetic stays within `i64`.
pub open spec fn drag_ok(area: Rect, state: GridState, y: u16, grab_offset: i64) -> bool {
    let total = state.window.total_rows;
    &&& scrollbar_ok(area, total, state.window.viewport_rows, state.focused_row)
    &&& match scrollbar(area, total, state.window.viewport_rows, state.focused_row) {
        Some(m) => total > 1 && m.track_height - m.thumb_height > 0 ==> drag_thumb_offset(m, y, grab_offset)
            * (total - 1) + (m.track_height - m.thumb_height) / 2 <= i64::MAX,
        None => true,
    }
}

proof fn lemma_drag_row_bounds(t: int, total: int, max_off: int)
    requires
        0 <= t <= max_off,
        max_off > 0,
        total > 1,
    ensures
        0 <= (t * (total - 1) + max_off / 2) / max_off < total,
{
    assert(t * (total - 1) <= max_off * (total - 1)) by (nonlinear_arith)
        requires
            0 <= t <= max_off,
            total > 1,
    ;
    assert(max_off * (total - 1) + max_off == max_off * total) by (nonlinear_arith);
    assert(t * (total - 1) >= 0) by (nonlinear_arith)
        requires
            t >= 0,
            total > 1,
    ;
    let a = t * (total - 1) + max_off / 2;
    assert(0 <= a < max_off * total);
    assert(0 <= a / max_off < total) by (nonlinear_arith)
        requires
            0 <= a < max_off * total,
            max_off > 0,
    ;
}

/// The row a scrollbar drag at `y` scrolls to, holding the thumb
/// `grab_offset` rows below its top; none without a scrollbar. The row is
/// always one of the table's.
pub fn scrollbar_drag_target_row(area: Rect, state: &GridState, y: u16, grab_offset: i64) -> (r: Option<i64>)
    requires
        drag_ok(area, *state, y, grab_offset),
    ensures
        match scrollbar(area, state.window.total_rows, state.window.viewport_rows, state.focused_row) {
            Some(m) => r == Some(drag_row(m, state.window.total_rows, y, grab_offset) as i64),
            None => r is None,
        },
        r is Some ==> 0 <= r->0 < state.window.total_rows,
{
    let metrics = match vertical_scrollbar_metrics(area, state) {
        Some(m) => m,
        None => {
            return None;
        },
    };
    let total = state.window.total_rows;
    if total <= 1 {
        return Some(0);
    }
    let max_thumb_offset = metrics.track_height - metrics.thumb_height;
    if max_thumb_offset <= 0 {
        return Some(0);
    }
    let pointer_offset = (y as i64) - (metrics.track_y_start as i64);
    let t0: i128 = (pointer_offset as i128) - (grab_offset as i128);
    let thumb_offset: i64 = if t0 < 0 { 0 } else if t0 > max_thumb_offset as i128 { max_thumb_offset } else { t0 as i64 };
    proof {
        lemma_drag_row_bounds(thumb_offset as int, total as int, max_thumb_offset as int);
    }
    Some(((thumb_offset * (total - 1)) + (max_thumb_offset / 2)) / max_thumb_offset)
}

/// Where a drag pressed at `y` on the track holds the thumb: at the press
/// when it is on the thumb, else at the thumb's middle.
pub open spec fn grab_offset_at(m: ScrollbarMetrics, y: u16) -> int {
    let top = m.track_y_start + m.thumb_offset;
    if top <= y < top + m.thumb_height {
        y - top
    } else {
        m.thumb_height / 2
    }
}

/// A drag starting at row `y`: the grab offset and the row it scrolls to;
/// none off the track.
pub fn scrollbar_drag_start(area: Rect, state: &GridState, y: u16) -> (r: Option<(i64, i64)>)
    requires
        scrollbar_ok(area, state.window.total_rows, state.window.viewport_rows, state.focused_row),
        match scrollbar(area, state.window.total_rows, state.window.viewport_rows, state.focused_row) {
            Some(m) => drag_ok(area, *state, y, grab_offset_at(m, y) as i64),
            None => true,
        },
    ensures
        match scrollbar(area, state.window.total_rows, state.window.viewport_rows, state.focused_row) {
            Some(m) => if m.track_y_start <= y < m.track_y_start + m.track_height {
                r == Some((grab_offset_at(m, y) as i64, drag_row(m, state.window.total_rows, y, grab_offset_at(m, y) as i64) as i64))
            } else {
                r is None
            },
            None => r is None,
        },
{
    let metrics = match vertical_scrollbar_metrics(area, state) {
        Some(m) => m,
        None => {
            return None;
        },
    };
    if y < metrics.track_y_start || y >= metrics.track_y_start + metrics.track_height as u16 {
        return None;
    }
    let thumb_top = metrics.track_y_start + metrics.thumb_offset as u16;
    let thumb_bottom = thumb_top + metrics.thumb_height as u16;
    let grab_offset: i64 = if y >= thumb_top && y < thumb_bottom {
        (y - thumb_top) as i64
    } else {
        metrics.thumb_height / 2
    };
    match scrollbar_drag_target_row(area, state, y, grab_offset) {
        Some(row) => Some((grab_offset, row)),
        None => None,
    }
}

/// The table row shown at screen row `y`, if any.
pub open spec fn row_at(area: Rect, viewport_start: i64, total: i64, y: u16) -> Option<usize> {
    if y < area.y + HEADER_ROWS {
        None
    } else {
        let abs = viewport_start + (y - area.y - HEADER_ROWS);
        if abs < 0 || abs >= total {
            None
        } else {
            Some(abs as usize)
        }
    }
}

/// The table row under screen row `y`, if any.
pub fn hit_test_row(area: Rect, state: &GridState, y: u16) -> (r: Option<usize>)
    requires
        area.y + HEADER_ROWS <= u16::MAX,
        y >= area.y + HEADER_ROWS ==> state.viewport_start + (y - area.y - HEADER_ROWS) <= i64::MAX,
    ensures
        r == row_at(area, state.viewport_start, state.window.total_rows, y),
{
    if y < area.y + HEADER_ROWS {
        return None;
    }
    let row_in_view = (y - area.y - HEADER_ROWS) as i64;
    let abs_row = state.viewport_start + row_in_view;
    if abs_row < 0 || abs_row >= state.window.total_rows {
        None
    } else {
        Some(abs_row as usize)
    }
}

/// The column whose cells span column `x`, laying out `vis` from column
/// `start`, each ending at most at `u16::MAX`.
pub open spec fn col_at(vis: Seq<(usize, u16)>, start: int, x: int) -> Option<usize>
    decreases vis.len(),
{
    if vis.len() == 0 {
        None
    } else {
        let end = if start + vis[0].1 > u16::MAX { u16::MAX as int } else { start + vis[0].1 };
        if start <= x < end {
            Some(vis[0].0)
        } else {
            col_at(vis.drop_first(), end, x)
        }
    }
}

/// The column under screen column `x`, in `data_width` cells after a
/// gutter of `gutter_width`.
pub fn hit_test_col(area: Rect, state: &GridState, x: u16, gutter_width: u16, data_width: u16) -> (r: Option<usize>)
    requires
        layout_ok(state.columns@, state.col_widths@, state.h_scroll as int, data_width as int),
        area.x + gutter_width <= u16::MAX,
    ensures
        r == col_at(
            visible_cols(state.columns@, state.col_widths@, state.h_scroll as int, data_width as int),
            area.x + gutter_width,
            x as int,
        ),
{
    let vis = compute_visible_cols(state, data_width);
    let ghost all = vis@;
    let mut col_x: u16 = area.x + gutter_width;
    let mut i: usize = 0;
    assert(all.subrange(0, all.len() as int) =~= all);
    while i < vis.len()
        invariant
            vis@ == all,
            all == visible_cols(state.columns@, state.col_widths@, state.h_scroll as int, data_width as int),
            i <= vis@.len(),
            col_at(all, area.x + gutter_width, x as int) == col_at(all.subrange(i as int, all.len() as int), col_x as int, x as int),
        decreases vis@.len() - i,
    {
        let (col_idx, w) = vis[i];
        let col_end = col_x.saturating_add(w);
        proof {
            let rest = all.subrange(i as int, all.len() as int);
            assert(rest[0] == (col_idx, w));
            assert(rest.drop_first() =~= all.subrange(i + 1, all.len() as int));
        }
        if x >= col_x && x < col_end {
            proof {
                let rest = all.subrange(i as int, all.len() as int);
                assert(rest.len() > 0);
                assert(col_x as int + rest[0].1 > u16::MAX ==> col_end == u16::MAX);
                assert(col_x as int + rest[0].1 <= u16::MAX ==> col_end == col_x + rest[0].1);
                assert(col_at(rest, col_x as int, x as int) == Some(col_idx));
            }
            return Some(col_idx);
        }
        col_x = col_end;
        i = i + 1;
    }
    None
}

/// What lies under the pointer in a grid.
#[derive(PartialEq, Eq, Structural, Clone, Copy, Debug)]
pub enum GridHit {
    Header(usize),
    RowGutter(usize),
    Cell { row: usize, col: usize },
    AlphabetRail(char),
    Scrollbar,
}

/// The number of decimal digits of `|n|`.
pub open spec fn digit_count(n: int) -> nat {
    if n < 0 {
        nat_decimal((-n) as nat).len()
    } else {
        nat_decimal(n as nat).len()
    }
}

/// `10^k`.
pub open spec fn pow10(k: nat) -> nat
    decreases k,
{
    if k == 0 {
        1
    } else {
        10 * pow10((k - 1) as nat)
    }
}

proof fn lemma_nat_decimal_len(v: nat)
    ensures
        nat_decimal(v).len() >= 1,
        v >= 10 ==> nat_decimal(v).len() == 1 + nat_decimal(v / 10).len(),
        v < 10 ==> nat_decimal(v).len() == 1,
{
}

proof fn lemma_decimal_len_le(v: nat, k: nat)
    requires
        k >= 1,
        v < pow10(k),
    ensures
        nat_decimal(v).len() <= k,
    decreases k,
{
    lemma_nat_decimal_len(v);
    if v >= 10 {
        assert(k >= 2) by {
            if k == 1 {
                assert(pow10(1) == 10 * pow10(0));
            }
        }
        assert(pow10(k) == 10 * pow10((k - 1) as nat));
        lemma_decimal_len_le(v / 10, (k - 1) as nat);
    }
}

/// The number of decimal digits of `|n|`.
pub fn digits(n: i64) -> (r: usize)
    ensures
        r == digit_count(n as int),
        1 <= r <= 19,
{
    let mut v: u64 = if n < 0 { ((-(n as i128)) as u64) } else { n as u64 };
    let ghost v0 = v as nat;
    let mut count: usize = 1;
    proof {
        reveal_with_fuel(pow10, 20);
        assert(pow10(19) == 10_000_000_000_000_000_000);
        lemma_decimal_len_le(v0, 19);
        lemma_nat_decimal_len(v0);
    }
    while v >= 10
        invariant
            1 <= count,
            count + nat_decimal(v as nat).len() - 1 == nat_decimal(v0).len(),
            nat_decimal(v0).len() <= 19,
        decreases v,
    {
        proof {
            lemma_nat_decimal_len(v as nat);
            lemma_nat_decimal_len((v / 10) as nat);
        }
        v = v / 10;
        count = count + 1;
    }
    proof {
        lemma_nat_decimal_len(v as nat);
    }
    count
}

/// A row count as shown: its decimal digits.
pub fn format_thousands(n: i64) -> (s: String)
    ensures
        s@ == int_decimal(n as int),
{
    i64_to_decimal(n)
}

/// The gutter's width: the row count's digits and a space.
pub open spec fn gutter_cols(total: i64) -> int {
    digit_count(if total < 1 { 1 } else { total as int }) as int + 1
}

/// `a - b`, or zero below it.
pub open spec fn sat_sub(a: int, b: int) -> int {
    if a > b { a - b } else { 0 }
}

/// The cells left for columns after the gutter, a separator and, when
/// shown, the alphabet rail.
pub open spec fn data_cols(area: Rect, state: GridState) -> int {
    let rail = if shows_rail(state) { RAIL_WIDTH as int } else { 0 };
    sat_sub(sat_sub(area.width as int, gutter_cols(state.window.total_rows)), 1 + rail)
}

/// The pointer at `(x, y)` lies in `area`.
pub open spec fn in_area(area: Rect, x: int, y: int) -> bool {
    area.width != 0 && area.height != 0 && area.x <= x < area.x + area.width && area.y <= y < area.y
        + area.height
}

/// What lies under the pointer at `(x, y)`: the scrollbar, the rail, a
/// header, a row's gutter or a cell, in that order of precedence.
pub open spec fn grid_hit(area: Rect, state: GridState, x: u16, y: u16) -> Option<GridHit> {
    let total = state.window.total_rows;
    if !in_area(area, x as int, y as int) {
        None
    } else {
        let g = gutter_cols(total);
        let vis = visible_cols(state.columns@, state.col_widths@, state.h_scroll as int, data_cols(area, state));
        let on_bar = match scrollbar(area, total, state.window.viewport_rows, state.focused_row) {
            Some(m) => x == m.track_x && m.track_y_start <= y < m.track_y_start + m.track_height,
            None => false,
        };
        let letter = if shows_rail(state) { rail_letter_at(area, x as int, y as int) } else { None };
        if on_bar {
            Some(GridHit::Scrollbar)
        } else if letter is Some {
            Some(GridHit::AlphabetRail(letter->0))
        } else if y < area.y + HEADER_ROWS {
            match col_at(vis, area.x + g, x as int) {
                Some(c) => Some(GridHit::Header(c)),
                None => None,
            }
        } else if x < area.x + g {
            match row_at(area, state.viewport_start, total, y) {
                Some(r) => Some(GridHit::RowGutter(r)),
                None => None,
            }
        } else {
            match (row_at(area, state.viewport_start, total, y), col_at(vis, area.x + g, x as int)) {
                (Some(r), Some(c)) => Some(GridHit::Cell { row: r, col: c }),
                _ => None,
            }
        }
    }
}

/// The hit test's arithmetic fits in `u16` wherever it is computed.
pub open spec fn grid_hit_ok(area: Rect, state: GridState, x: u16, y: u16) -> bool {
    &&& (area.width != 0 && area.height != 0 && x >= area.x ==> area.x + area.width <= u16::MAX)
    &&& (area.width != 0 && area.height != 0 && area.x <= x < area.x + area.width && y >= area.y
        ==> area.y + area.height <= u16::MAX)
    &&& (in_area(area, x as int, y as int) ==> {
        &&& area.y + HEADER_ROWS <= u16::MAX
        &&& area.x + gutter_cols(state.window.total_rows) <= u16::MAX
        &&& layout_ok(state.columns@, state.col_widths@, state.h_scroll as int, data_cols(area, state))
        &&& scrollbar_ok(area, state.window.total_rows, state.window.viewport_rows, state.focused_row)
        &&& rail_geometry_ok(area, x)
        &&& (y >= area.y + HEADER_ROWS ==> state.viewport_start + (y - area.y - HEADER_ROWS) <= i64::MAX)
    })
}

/// What lies under the pointer at `(x, y)` in the grid drawn in `area`.
pub fn hit_test(area: Rect, state: &GridState, x: u16, y: u16) -> (r: Option<GridHit>)
    requires
        grid_hit_ok(area, *state, x, y),
    ensures
        r == grid_hit(area, *state, x, y),
{
    if area.width == 0 || area.height == 0 || x < area.x || x >= area.x + area.width || y < area.y || y
        >= area.y + area.height {
        return None;
    }
    let total = state.window.total_rows;
    let gutter_digits = digits(if total < 1 { 1 } else { total });
    let gutter_width = (gutter_digits + 1) as u16;
    let rail_width = if should_show_rail(state) { RAIL_WIDTH } else { 0 };
    let data_width = area.width.saturating_sub(gutter_width).saturating_sub(1 + rail_width);
    match vertical_scrollbar_metrics(area, state) {
        Some(m) => {
            if x == m.track_x && y >= m.track_y_start && y < m.track_y_start + m.track_height as u16 {
                return Some(GridHit::Scrollbar);
            }
        },
        None => {},
    }
    if let Some(letter) = rail_hit_test(area, state, x, y) {
        return Some(GridHit::AlphabetRail(letter));
    }
    if y < area.y + HEADER_ROWS {
        return match hit_test_col(area, state, x, gutter_width, data_width) {
            Some(c) => Some(GridHit::Header(c)),
            None => None,
        };
    }
    if x < area.x + gutter_width {
        return match hit_test_row(area, state, y) {
            Some(row) => Some(GridHit::RowGutter(row)),
            None => None,
        };
    }
    let row = match hit_test_row(area, state, y) {
        Some(row) => row,
        None => {
            return None;
        },
    };
    let col = match hit_test_col(area, state, x, gutter_width, data_width) {
        Some(c) => c,
        None => {
            return None;
        },
    };
    Some(GridHit::Cell { row, col })
}

/// A table row, or the row being inserted, at a display position.
#[derive(PartialEq, Eq, Structural, Clone, Copy, Debug)]
pub enum DisplayRow {
    Data { real_abs: i64 },
    Insert,
}

/// The rows displayed: the table's, plus the row being inserted.
pub fn total_display_rows(state: &GridState, insert_position: Option<usize>) -> (r: i64)
    requires
        insert_position is Some ==> state.window.total_rows < i64::MAX,
    ensures
        r == state.window.total_rows + (if insert_position is Some { 1int } else { 0int }),
{
    match insert_position {
        Some(_) => state.window.total_rows + 1,
        None => state.window.total_rows,
    }
}

/// The display position of the viewport's first row: one further down when
/// the row being inserted sits above it.
pub open spec fn display_start(viewport_start: i64, insert_position: Option<usize>) -> int {
    match insert_position {
        Some(p) => if as_i64(p) < viewport_start { viewport_start + 1 } else { viewport_start as int },
        None => viewport_start as int,
    }
}

/// The display position of the viewport's first row.
pub fn display_viewport_start(state: &GridState, insert_position: Option<usize>) -> (r: i64)
    requires
        display_start(state.viewport_start, insert_position) <= i64::MAX,
    ensures
        r == display_start(state.viewport_start, insert_position),
{
    match insert_position {
        Some(p) => if (p as i64) < state.viewport_start {
            state.viewport_start + 1
        } else {
            state.viewport_start
        },
        None => state.viewport_start,
    }
}

/// What is shown at display position `d`: the row being inserted at its
/// position, the table's rows around it, nothing past either end.
pub open spec fn display_row(total: i64, insert_position: Option<usize>, d: i64) -> Option<DisplayRow> {
    match insert_position {
        Some(p) => {
            let ip = as_i64(p);
            if d == ip {
                Some(DisplayRow::Insert)
            } else {
                let ra = if d > ip { d - 1 } else { d as int };
                if 0 <= ra < total {
                    Some(DisplayRow::Data { real_abs: ra as i64 })
                } else {
                    None
                }
            }
        },
        None => if 0 <= d < total {
            Some(DisplayRow::Data { real_abs: d })
        } else {
            None
        },
    }
}

/// What is shown at display position `display_abs_row`.
pub fn display_row_kind(state: &GridState, insert_position: Option<usize>, display_abs_row: i64) -> (r: Option<DisplayRow>)
    ensures
        r == display_row(state.window.total_rows, insert_position, display_abs_row),
{
    match insert_position {
        Some(p) => {
            let insert_pos = p as i64;
            if display_abs_row == insert_pos {
                return Some(DisplayRow::Insert);
            }
            let real_abs = if display_abs_row > insert_pos { display_abs_row - 1 } else { display_abs_row };
            if real_abs >= 0 && real_abs < state.window.total_rows {
                Some(DisplayRow::Data { real_abs })
            } else {
                None
            }
        },
        None => if display_abs_row >= 0 && display_abs_row < state.window.total_rows {
            Some(DisplayRow::Data { real_abs: display_abs_row })
        } else {
            None
        },
    }
}

/// The three-letter type badge of a column header: date and time types
/// first (by the uppercased declared type), then the affinity.
pub open spec fn badge_text(col_type: Seq<char>) -> Seq<char> {
    let u = unicode_upper(col_type);
    if seq_contains(u, seq!['D', 'A', 'T', 'E', 'T', 'I', 'M', 'E']) || seq_contains(
        u,
        seq!['T', 'I', 'M', 'E', 'S', 'T', 'A', 'M', 'P'],
    ) {
        seq!['D', 'T', ' ']
    } else if seq_contains(u, seq!['D', 'A', 'T', 'E']) {
        seq!['D', 'A', 'T']
    } else {
        match affinity_of(col_type) {
            ColAffinity::Integer => seq!['I', 'N', 'T'],
            ColAffinity::Real => seq!['R', 'E', 'A'],
            ColAffinity::Text => seq!['T', 'X', 'T'],
            ColAffinity::Blob => seq!['B', 'L', 'B'],
            ColAffinity::Numeric => seq!['N', 'U', 'M'],
        }
    }
}

/// Whether `hay` contains the characters `needle`.
fn text_contains(hay: &String, needle: &[char]) -> (r: bool)
    ensures
        r == seq_contains(hay@, needle@),
{
    let cs = chars_of(hay.as_str());
    chars_contain(cs.as_slice(), needle)
}

/// The type badge of a column header.
pub fn col_badge(col: &Column) -> (r: &'static str)
    ensures
        r@ == badge_text(col.col_type@),
{
    let upper = to_uppercase(col.col_type.as_str());
    let datetime = ['D', 'A', 'T', 'E', 'T', 'I', 'M', 'E'];
    let timestamp = ['T', 'I', 'M', 'E', 'S', 'T', 'A', 'M', 'P'];
    let date = ['D', 'A', 'T', 'E'];
    assert(datetime@ =~= seq!['D', 'A', 'T', 'E', 'T', 'I', 'M', 'E']);
    assert(timestamp@ =~= seq!['T', 'I', 'M', 'E', 'S', 'T', 'A', 'M', 'P']);
    assert(date@ =~= seq!['D', 'A', 'T', 'E']);
    if text_contains(&upper, &datetime) || text_contains(&upper, &timestamp) {
        proof {
            reveal_strlit("DT ");
        }
        return "DT ";
    }
    if text_contains(&upper, &date) {
        proof {
            reveal_strlit("DAT");
        }
        return "DAT";
    }
    proof {
        reveal_strlit("INT");
        reveal_strlit("REA");
        reveal_strlit("TXT");
        reveal_strlit("BLB");
        reveal_strlit("NUM");
    }
    match affinity(col.col_type.as_str()) {
        ColAffinity::Integer => "INT",
        ColAffinity::Real => "REA",
        ColAffinity::Text => "TXT",
        ColAffinity::Blob => "BLB",
        ColAffinity::Numeric => "NUM",
    }
}

/// How a cell's text sits in its cell.
#[derive(PartialEq, Eq, Structural, Clone, Copy, Debug)]
pub enum CellAlign {
    Left,
    Right,
    Center,
}

/// `s` cut to what fits in `w` columns.
pub open spec fn fitted(s: Seq<char>, w: nat) -> Seq<char> {
    s.subrange(0, truncated_len(s, w) as int)
}

/// A cell's text and alignment: integers of boolean-typed columns as the
/// true or false glyph, centred; numbers right-aligned; the rest left.
pub open spec fn cell_content(v: SqlValue, col_type: Seq<char>, w: nat, yes: char, no: char) -> (Seq<char>, CellAlign) {
    match v {
        SqlValue::Integer(n) => if seq_contains(unicode_upper(col_type), seq!['B', 'O', 'O', 'L']) {
            (seq![if n != 0 { yes } else { no }], CellAlign::Center)
        } else {
            (fitted(cell_text(v), w), CellAlign::Right)
        },
        SqlValue::Real(_) => (fitted(cell_text(v), w), CellAlign::Right),
        _ => (fitted(cell_text(v), w), CellAlign::Left),
    }
}

/// A cell's text, fitted to `inner_w` columns, and its alignment.
pub fn format_cell_content(val: &SqlValue, col: &Column, inner_w: usize, symbols: &Symbols) -> (r: (String, CellAlign))
    ensures
        r.0@ == cell_content(*val, col.col_type@, inner_w as nat, symbols.bool_true, symbols.bool_false).0,
        r.1 == cell_content(*val, col.col_type@, inner_w as nat, symbols.bool_true, symbols.bool_false).1,
{
    let text = cell_text_of(val);
    match val {
        SqlValue::Integer(n) => {
            let upper = to_uppercase(col.col_type.as_str());
            let b = ['B', 'O', 'O', 'L'];
            assert(b@ =~= seq!['B', 'O', 'O', 'L']);
            if text_contains(&upper, &b) {
                let mut s = String::new();
                push_char(&mut s, if *n != 0 { symbols.bool_true } else { symbols.bool_false });
                (s, CellAlign::Center)
            } else {
                (truncate_to_display_width(text.as_str(), inner_w), CellAlign::Right)
            }
        },
        SqlValue::Real(_) => (truncate_to_display_width(text.as_str(), inner_w), CellAlign::Right),
        _ => (truncate_to_display_width(text.as_str(), inner_w), CellAlign::Left),
    }
}

} // verus!

