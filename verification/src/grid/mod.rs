//! Grid state: focus, viewport, horizontal scrolling and row selection.

pub mod layout;
pub mod virtual_scroll;
pub mod width;
pub mod view;
pub mod alphabet_rail;
pub mod palette;
pub mod header;
pub mod rowset;

use std::collections::HashMap;
use vstd::prelude::*;
use crate::filter::{any_enabled, filter_of, ColumnFilter, FilterSet};
use crate::text::same_text;
use crate::value::{Column, SqlValue};
use self::layout::{column_width, compute_col_widths};
use self::virtual_scroll::{as_i64, in_i64, VirtualWindow};
use self::rowset::{set_contains, set_copy, set_insert, set_remove, sorted_set};

verus! {

/// Sort direction of the sorted column.
#[derive(PartialEq, Eq, Structural, Clone, Copy, Debug)]
pub enum SortDir {
    Asc,
    Desc,
}

/// The column the grid is sorted by, and how.
#[derive(PartialEq, Eq, Structural, Clone, Copy, Debug)]
pub struct SortSpec {
    pub col_idx: usize,
    pub direction: SortDir,
}

/// Selected rows: none, a set of rows (held strictly increasing), or every
/// row. Selection is a set rather than an anchor-to-head range: Shift+Down
/// and Shift+Up add the row the focus leaves, so rows can be picked one by
/// one (with Ctrl+click too) and need not be contiguous.
#[derive(PartialEq, Eq, Clone, Debug)]
pub enum RowSelection {
    Empty,
    Rows(Vec<usize>),
    All,
}

/// What a grid is built from.
pub struct GridInit {
    pub table_name: String,
    pub columns: Vec<Column>,
    pub fk_cols: Vec<bool>,
    pub enumerated_values: Vec<Vec<String>>,
    pub rows: Vec<Vec<SqlValue>>,
    pub width_sample_rows: Vec<Vec<SqlValue>>,
    pub total_rows: i64,
    pub area_width: u16,
}

/// The state of one table view.
pub struct GridState {
    pub table_name: String,
    pub columns: Vec<Column>,
    pub window: VirtualWindow,
    pub width_sample_rows: Vec<Vec<SqlValue>>,
    pub focused_row: usize,
    pub focused_col: usize,
    pub col_widths: Vec<u16>,
    pub h_scroll: usize,
    pub fk_cols: Vec<bool>,
    pub enumerated_values: Vec<Vec<String>>,
    pub manual_widths: HashMap<usize, u16>,
    pub needs_fetch: bool,
    pub viewport_start: i64,
    pub avail_col_width: u16,
    pub sort: Option<SortSpec>,
    pub filter: FilterSet,
    pub row_selection: RowSelection,
}

/// Rows of header above the data rows.
pub const HEADER_ROWS: u16 = 3;

/// Rows kept between the focused row and the viewport's edges.
pub const VIEWPORT_SCROLL_MARGIN_ROWS: usize = 5;

/// How many widths from `start` fit, in order, within `avail` columns.
pub open spec fn fit_count(ws: Seq<u16>, start: int, avail: int) -> int
    decreases ws.len() - start,
{
    if start < 0 || start >= ws.len() || ws[start] > avail {
        0
    } else {
        1 + fit_count(ws, start + 1, avail - ws[start])
    }
}

/// Scroll right one column at a time until column `f` is visible or is the
/// first visible column.
pub open spec fn scrolled_h(ws: Seq<u16>, h: int, f: int, avail: int) -> int
    decreases f - h,
{
    if h < f && f >= h + fit_count(ws, h, avail) {
        scrolled_h(ws, h + 1, f, avail)
    } else {
        h
    }
}

/// The horizontal scroll that keeps column `f` in view.
pub open spec fn h_scroll_after(ws: Seq<u16>, h: int, f: int, avail: int) -> int {
    if f < h {
        f
    } else if avail == 0 {
        h
    } else {
        scrolled_h(ws, h, f, avail)
    }
}

/// The viewport's scroll margin for a viewport of `vp` rows.
pub open spec fn margin_of(vp: usize) -> int {
    if vp - 1 < 5 {
        vp - 1
    } else {
        5
    }
}

/// The viewport's first row after moving focus to `fr`: keep a margin to the
/// edges, then clamp into `0 ..= max(total - vp, 0)`.
pub open spec fn viewport_after(vs: int, fr: int, vpu: usize, total: int) -> int {
    let vp = as_i64(vpu);
    let margin = margin_of(vpu);
    let vs1 = if fr < vs + margin {
        fr - margin
    } else if fr >= vs + vp - margin {
        fr - vp + margin + 1
    } else {
        vs
    };
    let vs2 = if vs1 > 0 {
        vs1
    } else {
        0
    };
    let max_start = if total - vp > 0 {
        total - vp
    } else {
        0
    };
    if vs2 < max_start {
        vs2
    } else {
        max_start
    }
}

/// The viewport computation does not overflow.
pub open spec fn viewport_safe(vs: int, fr: int, vpu: usize, total: int) -> bool {
    let vp = as_i64(vpu);
    let margin = margin_of(vpu);
    &&& in_i64(vs + margin)
    &&& (fr < vs + margin ==> in_i64(fr - margin))
    &&& (fr >= vs + margin ==> {
        &&& in_i64(vs + vp)
        &&& in_i64(vs + vp - margin)
        &&& (fr >= vs + vp - margin ==> in_i64(fr - vp) && in_i64(fr - vp + margin) && in_i64(
            fr - vp + margin + 1,
        ))
    })
    &&& in_i64(total - vp)
}

/// When the focused row exists, the viewport shows it.
pub proof fn lemma_viewport_shows_focus(vs: int, fr: int, vpu: usize, total: int)
    requires
        1 <= vpu <= i64::MAX,
        0 <= fr < total,
    ensures
        0 <= viewport_after(vs, fr, vpu, total) <= fr < viewport_after(vs, fr, vpu, total) + as_i64(
            vpu,
        ),
{
}

/// `max(total - 1, 0)` never overflows when `total > i64::MIN`.
pub open spec fn last_row(total: i64) -> int {
    if total - 1 > 0 {
        total - 1
    } else {
        0
    }
}

/// `total.saturating_sub(1)`.
pub open spec fn sat_dec(total: i64) -> i64 {
    if total == i64::MIN {
        i64::MIN
    } else {
        (total - 1) as i64
    }
}

impl GridState {
    /// The viewport height used for navigation (at least one row).
    pub open spec fn vp(self) -> usize {
        if self.window.viewport_rows == 0 {
            1
        } else {
            self.window.viewport_rows
        }
    }

    /// Only the navigation fields may differ between `self` and `other`.
    pub open spec fn same_content(self, other: GridState) -> bool {
        &&& self.table_name == other.table_name
        &&& self.columns == other.columns
        &&& self.window == other.window
        &&& self.width_sample_rows == other.width_sample_rows
        &&& self.col_widths == other.col_widths
        &&& self.fk_cols == other.fk_cols
        &&& self.enumerated_values == other.enumerated_values
        &&& self.manual_widths == other.manual_widths
        &&& self.avail_col_width == other.avail_col_width
        &&& self.sort == other.sort
        &&& self.filter == other.filter
    }

    /// The viewport after moving focus to row `fr` (read as `i64`).
    pub open spec fn viewport_for(self, fr: int) -> int {
        viewport_after(self.viewport_start as int, fr, self.vp(), self.window.total_rows as int)
    }

    /// The fetch flag after moving focus to row `fr`.
    pub open spec fn fetch_flag_for(self, fr: int) -> bool {
        self.needs_fetch || (!self.window.fetch_in_flight && self.window.spec_needs_prefetch(
            fr as i64,
        ))
    }

    /// Moving focus to row `fr` neither overflows the viewport nor the
    /// prefetch test.
    pub open spec fn move_safe(self, fr: int) -> bool {
        &&& viewport_safe(self.viewport_start as int, fr, self.vp(), self.window.total_rows as int)
        &&& (self.window.fetch_in_flight || self.window.prefetch_safe(fr as i64))
    }

    fn adjust_viewport(&mut self)
        requires
            viewport_safe(
                old(self).viewport_start as int,
                as_i64(old(self).focused_row),
                old(self).vp(),
                old(self).window.total_rows as int,
            ),
        ensures
            final(self).viewport_start == old(self).viewport_for(as_i64(old(self).focused_row)),
            final(self).same_content(*old(self)),
            final(self).focused_row == old(self).focused_row,
            final(self).focused_col == old(self).focused_col,
            final(self).h_scroll == old(self).h_scroll,
            final(self).needs_fetch == old(self).needs_fetch,
            final(self).row_selection == old(self).row_selection,
    {
        let vp: usize = if self.window.viewport_rows == 0 { 1 } else { self.window.viewport_rows };
        let fr = self.focused_row as i64;
        let total = self.window.total_rows;
        let m: usize = if vp - 1 < VIEWPORT_SCROLL_MARGIN_ROWS { vp - 1 } else { VIEWPORT_SCROLL_MARGIN_ROWS };
        let margin = m as i64;
        let vpi = vp as i64;
        let mut vs = self.viewport_start;
        if fr < vs + margin {
            vs = fr - margin;
        } else if fr >= vs + vpi - margin {
            vs = fr - vpi + margin + 1;
        }
        if vs < 0 {
            vs = 0;
        }
        let max_start = if total - vpi > 0 { total - vpi } else { 0 };
        if vs > max_start {
            vs = max_start;
        }
        self.viewport_start = vs;
    }

    fn check_needs_fetch(&mut self)
        requires
            old(self).window.fetch_in_flight || old(self).window.prefetch_safe(
                as_i64(old(self).focused_row) as i64,
            ),
        ensures
            final(self).needs_fetch == old(self).fetch_flag_for(as_i64(old(self).focused_row)),
            final(self).same_content(*old(self)),
            final(self).focused_row == old(self).focused_row,
            final(self).focused_col == old(self).focused_col,
            final(self).h_scroll == old(self).h_scroll,
            final(self).viewport_start == old(self).viewport_start,
            final(self).row_selection == old(self).row_selection,
    {
        if !self.window.fetch_in_flight && self.window.needs_prefetch(self.focused_row as i64) {
            self.needs_fetch = true;
        }
    }

    /// The focused row after moving down `n` rows (clamped to the last row).
    pub open spec fn row_after_down(self, n: usize) -> usize {
        let t = as_i64(self.focused_row) + as_i64(n);
        let m = last_row(self.window.total_rows);
        (if t < m {
            t
        } else {
            m
        }) as i64 as usize
    }

    /// Moving down `n` rows does not overflow.
    pub open spec fn scroll_down_safe(self, n: usize) -> bool {
        &&& self.window.total_rows > i64::MIN
        &&& in_i64(as_i64(self.focused_row) + as_i64(n))
        &&& self.move_safe(as_i64(self.row_after_down(n)))
    }

    /// Moves the focus down `n` rows, not past the last row, and scrolls so
    /// that it stays in view with a margin; asks for a fetch when the focus
    /// nears the edge of the loaded window.
    pub fn scroll_down(&mut self, n: usize)
        requires
            old(self).scroll_down_safe(n),
        ensures
            final(self).focused_row == old(self).row_after_down(n),
            final(self).viewport_start == old(self).viewport_for(as_i64(final(self).focused_row)),
            final(self).needs_fetch == old(self).fetch_flag_for(as_i64(final(self).focused_row)),
            final(self).same_content(*old(self)),
            final(self).focused_col == old(self).focused_col,
            final(self).h_scroll == old(self).h_scroll,
            final(self).row_selection == old(self).row_selection,
    {
        let max_row: i64 = if self.window.total_rows - 1 > 0 { self.window.total_rows - 1 } else { 0 };
        let t = self.focused_row as i64 + n as i64;
        let new_focused = if t < max_row { t } else { max_row };
        self.focused_row = new_focused as usize;
        self.adjust_viewport();
        self.check_needs_fetch();
    }

    /// The focused row after moving up `n` rows (not above row 0).
    pub open spec fn row_after_up(self, n: usize) -> usize {
        if self.focused_row >= n {
            (self.focused_row - n) as usize
        } else {
            0
        }
    }

    /// Moves the focus up `n` rows, not above the first row, keeping it in
    /// view; asks for a fetch when needed.
    pub fn scroll_up(&mut self, n: usize)
        requires
            old(self).move_safe(as_i64(old(self).row_after_up(n))),
        ensures
            final(self).focused_row == old(self).row_after_up(n),
            final(self).viewport_start == old(self).viewport_for(as_i64(final(self).focused_row)),
            final(self).needs_fetch == old(self).fetch_flag_for(as_i64(final(self).focused_row)),
            final(self).same_content(*old(self)),
            final(self).focused_col == old(self).focused_col,
            final(self).h_scroll == old(self).h_scroll,
            final(self).row_selection == old(self).row_selection,
    {
        self.focused_row = self.focused_row.saturating_sub(n);
        self.adjust_viewport();
        self.check_needs_fetch();
    }

    /// The focused row after jumping to `abs_row` (clamped into the rows).
    pub open spec fn row_at(self, abs_row: i64) -> usize {
        let m = last_row(self.window.total_rows);
        (if abs_row < 0 {
            0
        } else if abs_row > m {
            m
        } else {
            abs_row as int
        }) as i64 as usize
    }

    /// Focuses absolute row `abs_row`, clamped into the table, keeping it in
    /// view; asks for a fetch when needed.
    pub fn scroll_to_row(&mut self, abs_row: i64)
        requires
            old(self).window.total_rows > i64::MIN,
            old(self).move_safe(as_i64(old(self).row_at(abs_row))),
        ensures
            final(self).focused_row == old(self).row_at(abs_row),
            final(self).viewport_start == old(self).viewport_for(as_i64(final(self).focused_row)),
            final(self).needs_fetch == old(self).fetch_flag_for(as_i64(final(self).focused_row)),
            final(self).same_content(*old(self)),
            final(self).focused_col == old(self).focused_col,
            final(self).h_scroll == old(self).h_scroll,
            final(self).row_selection == old(self).row_selection,
    {
        let max_row: i64 = if self.window.total_rows - 1 > 0 { self.window.total_rows - 1 } else { 0 };
        let r = if abs_row < 0 { 0 } else if abs_row > max_row { max_row } else { abs_row };
        self.focused_row = r as usize;
        self.adjust_viewport();
        self.check_needs_fetch();
    }

    /// The last row's index (0 for an empty table), as a `usize`.
    pub open spec fn end_row(self) -> usize {
        last_row(self.window.total_rows) as i64 as usize
    }

    /// Focuses the last row, keeping it in view; asks for a fetch when needed.
    pub fn scroll_to_end(&mut self)
        requires
            old(self).window.total_rows > i64::MIN,
            old(self).move_safe(as_i64(old(self).end_row())),
        ensures
            final(self).focused_row == old(self).end_row(),
            final(self).viewport_start == old(self).viewport_for(as_i64(final(self).focused_row)),
            final(self).needs_fetch == old(self).fetch_flag_for(as_i64(final(self).focused_row)),
            final(self).same_content(*old(self)),
            final(self).focused_col == old(self).focused_col,
            final(self).h_scroll == old(self).h_scroll,
            final(self).row_selection == old(self).row_selection,
    {
        let max_row: i64 = if self.window.total_rows - 1 > 0 { self.window.total_rows - 1 } else { 0 };
        self.focused_row = max_row as usize;
        self.adjust_viewport();
        self.check_needs_fetch();
    }
}

/// Scrolling up `n` rows from a focused row that exists (or row 0 of an empty
/// table) lands on the focused row minus `n`, stopping at 0, and leaves a
/// viewport that starts inside the table and shows the focused row.
pub proof fn lemma_scroll_up_keeps_focus_in_view(g: GridState, n: usize)
    requires
        g.focused_row <= i64::MAX,
        g.vp() <= i64::MAX,
        g.focused_row <= last_row(g.window.total_rows),
    ensures
        g.row_after_up(n) == (if g.focused_row >= n { g.focused_row - n } else { 0int }),
        ({
            let fr = as_i64(g.row_after_up(n));
            let vs = g.viewport_for(fr);
            let t = g.window.total_rows as int;
            let vp = g.vp() as int;
            &&& 0 <= vs
            &&& vs <= (if t - vp > 0 { t - vp } else { 0 })
            &&& vs <= fr < vs + vp
        }),
{
}


/// Scrolling down `n` rows lands on the focused row plus `n`, stopping at
/// the last row, and leaves a viewport that starts inside the table and
/// shows the focused row; the focus does not move up.
pub proof fn lemma_scroll_down_keeps_focus_in_view(g: GridState, n: usize)
    requires
        g.window.total_rows > 0,
        g.focused_row + n <= i64::MAX,
        g.focused_row + n <= usize::MAX,
        g.vp() <= i64::MAX,
        g.focused_row <= last_row(g.window.total_rows),
    ensures
        g.row_after_down(n) == (if g.focused_row + n < g.window.total_rows - 1 {
            g.focused_row + n
        } else {
            g.window.total_rows - 1
        }),
        g.row_after_down(n) >= g.focused_row,
        ({
            let fr = as_i64(g.row_after_down(n));
            let vs = g.viewport_for(fr);
            let t = g.window.total_rows as int;
            let vp = g.vp() as int;
            &&& 0 <= vs
            &&& vs <= (if t - vp > 0 { t - vp } else { 0 })
            &&& vs <= fr < vs + vp
        }),
{
    assert((g.focused_row as i64) as int == g.focused_row as int);
    assert((n as i64) as int == n as int);
    let t = as_i64(g.focused_row) + as_i64(n);
    let m = last_row(g.window.total_rows);
    let r = if t < m { t } else { m };
    assert(0 <= r <= i64::MAX && r <= usize::MAX);
    assert(((r as i64) as usize) as int == r);
    assert((g.vp() as i64) as int == g.vp() as int);
}

/// The end (exclusive) of the columns visible from `h`.
fn visible_end(ws: &Vec<u16>, h: usize, avail: usize) -> (r: usize)
    requires
        avail <= u16::MAX,
    ensures
        r == h + fit_count(ws@, h as int, avail as int),
        r >= h,
{
    let mut cumul: usize = 0;
    let mut end = h;
    let mut k = h;
    proof {
        assert(fit_count(ws@, h as int, avail as int) == (k - h) + fit_count(ws@, k as int, (avail - cumul) as int));
    }
    while k < ws.len()
        invariant
            h <= k,
            end == k,
            cumul <= avail,
            avail <= u16::MAX,
            fit_count(ws@, h as int, avail as int) == (k - h) + fit_count(
                ws@,
                k as int,
                (avail - cumul) as int,
            ),
        decreases ws.len() - k,
    {
        let w = ws[k] as usize;
        if cumul + w > avail {
            assert(fit_count(ws@, k as int, (avail - cumul) as int) == 0);
            return end;
        }
        cumul = cumul + w;
        k = k + 1;
        end = k;
    }
    assert(fit_count(ws@, k as int, (avail - cumul) as int) == 0);
    end
}

impl GridState {
    /// The horizontal scroll after keeping the focused column in view.
    pub open spec fn h_scroll_for(self, f: usize) -> usize {
        h_scroll_after(self.col_widths@, self.h_scroll as int, f as int, self.avail_col_width as int) as usize
    }

    fn adjust_h_scroll(&mut self)
        ensures
            final(self).h_scroll == old(self).h_scroll_for(old(self).focused_col),
            final(self).same_content(*old(self)),
            final(self).focused_row == old(self).focused_row,
            final(self).focused_col == old(self).focused_col,
            final(self).viewport_start == old(self).viewport_start,
            final(self).needs_fetch == old(self).needs_fetch,
            final(self).row_selection == old(self).row_selection,
    {
        if self.focused_col < self.h_scroll {
            self.h_scroll = self.focused_col;
            return;
        }
        let avail = self.avail_col_width as usize;
        if avail == 0 {
            return;
        }
        let ghost ws = self.col_widths@;
        let ghost f = self.focused_col as int;
        let mut end = visible_end(&self.col_widths, self.h_scroll, avail);
        while self.focused_col >= end && self.h_scroll < self.focused_col
            invariant
                ws == self.col_widths@,
                f == self.focused_col,
                avail == self.avail_col_width,
                avail > 0,
                self.h_scroll <= self.focused_col,
                end == self.h_scroll + fit_count(ws, self.h_scroll as int, avail as int),
                scrolled_h(ws, old(self).h_scroll as int, f, avail as int) == scrolled_h(
                    ws,
                    self.h_scroll as int,
                    f,
                    avail as int,
                ),
                self.same_content(*old(self)),
                self.focused_row == old(self).focused_row,
                self.focused_col == old(self).focused_col,
                self.viewport_start == old(self).viewport_start,
                self.needs_fetch == old(self).needs_fetch,
                self.row_selection == old(self).row_selection,
            decreases self.focused_col - self.h_scroll,
        {
            self.h_scroll = self.h_scroll + 1;
            end = visible_end(&self.col_widths, self.h_scroll, avail);
        }
    }

    /// Focuses the next column, if any, keeping it in view.
    pub fn move_col_right(&mut self)
        ensures
            old(self).focused_col + 1 < old(self).columns@.len() ==> {
                &&& final(self).focused_col == old(self).focused_col + 1
                &&& final(self).h_scroll == old(self).h_scroll_for(final(self).focused_col)
            },
            old(self).focused_col + 1 >= old(self).columns@.len() ==> {
                &&& final(self).focused_col == old(self).focused_col
                &&& final(self).h_scroll == old(self).h_scroll
            },
            final(self).same_content(*old(self)),
            final(self).focused_row == old(self).focused_row,
            final(self).viewport_start == old(self).viewport_start,
            final(self).needs_fetch == old(self).needs_fetch,
            final(self).row_selection == old(self).row_selection,
    {
        if self.focused_col < self.columns.len() && self.focused_col + 1 < self.columns.len() {
            self.focused_col = self.focused_col + 1;
            self.adjust_h_scroll();
        }
    }

    /// Focuses the previous column, if any, keeping it in view.
    pub fn move_col_left(&mut self)
        ensures
            old(self).focused_col > 0 ==> {
                &&& final(self).focused_col == old(self).focused_col - 1
                &&& final(self).h_scroll == old(self).h_scroll_for(final(self).focused_col)
            },
            old(self).focused_col == 0 ==> final(self).focused_col == 0 && final(self).h_scroll
                == old(self).h_scroll,
            final(self).same_content(*old(self)),
            final(self).focused_row == old(self).focused_row,
            final(self).viewport_start == old(self).viewport_start,
            final(self).needs_fetch == old(self).needs_fetch,
            final(self).row_selection == old(self).row_selection,
    {
        if self.focused_col > 0 {
            self.focused_col = self.focused_col - 1;
            self.adjust_h_scroll();
        }
    }

    /// Focuses the first column and scrolls fully left.
    pub fn move_col_first(&mut self)
        ensures
            final(self).focused_col == 0,
            final(self).h_scroll == 0,
            final(self).same_content(*old(self)),
            final(self).focused_row == old(self).focused_row,
            final(self).viewport_start == old(self).viewport_start,
            final(self).needs_fetch == old(self).needs_fetch,
            final(self).row_selection == old(self).row_selection,
    {
        self.focused_col = 0;
        self.h_scroll = 0;
    }

    /// Focuses the last column, if there are columns, keeping it in view.
    pub fn move_col_last(&mut self)
        ensures
            old(self).columns@.len() > 0 ==> {
                &&& final(self).focused_col == old(self).columns@.len() - 1
                &&& final(self).h_scroll == old(self).h_scroll_for(final(self).focused_col)
            },
            old(self).columns@.len() == 0 ==> final(self).focused_col == old(self).focused_col
                && final(self).h_scroll == old(self).h_scroll,
            final(self).same_content(*old(self)),
            final(self).focused_row == old(self).focused_row,
            final(self).viewport_start == old(self).viewport_start,
            final(self).needs_fetch == old(self).needs_fetch,
            final(self).row_selection == old(self).row_selection,
    {
        if self.columns.len() > 0 {
            self.focused_col = self.columns.len() - 1;
            self.adjust_h_scroll();
        }
    }

    /// Drops any row selection.
    pub fn clear_row_selection(&mut self)
        ensures
            final(self).row_selection == RowSelection::Empty,
            final(self).same_content(*old(self)),
            final(self).focused_row == old(self).focused_row,
            final(self).focused_col == old(self).focused_col,
            final(self).h_scroll == old(self).h_scroll,
            final(self).viewport_start == old(self).viewport_start,
            final(self).needs_fetch == old(self).needs_fetch,
    {
        self.row_selection = RowSelection::Empty;
    }

    /// The selected rows as a list: those of a set, none otherwise.
    pub open spec fn selected_list(self) -> Seq<usize> {
        match self.row_selection {
            RowSelection::Rows(v) => v@,
            _ => Seq::empty(),
        }
    }

    /// A set selection holds some rows, strictly increasing.
    pub open spec fn selection_ok(self) -> bool {
        match self.row_selection {
            RowSelection::Rows(v) => sorted_set(v@) && v@.len() > 0,
            _ => true,
        }
    }

    /// The selection after adding row `r`: every row stays selected when all
    /// are; otherwise the set of rows selected so far plus `r`.
    pub open spec fn selection_with(self, sel: RowSelection, r: usize) -> bool {
        match self.row_selection {
            RowSelection::All => sel == RowSelection::All,
            _ => sel matches RowSelection::Rows(v) && sorted_set(v@) && forall|y: usize|
                #[trigger] v@.contains(y) <==> (self.selected_list().contains(y) || y == r),
        }
    }

    /// Adds the focused row to the selection (unless every row is selected).
    fn select_focused_row(&mut self)
        requires
            old(self).selection_ok(),
        ensures
            old(self).selection_with(final(self).row_selection, old(self).focused_row),
            final(self).selection_ok(),
            final(self).same_content(*old(self)),
            final(self).focused_row == old(self).focused_row,
            final(self).focused_col == old(self).focused_col,
            final(self).h_scroll == old(self).h_scroll,
            final(self).viewport_start == old(self).viewport_start,
            final(self).needs_fetch == old(self).needs_fetch,
    {
        let mut sel = RowSelection::Empty;
        std::mem::swap(&mut sel, &mut self.row_selection);
        let mut rows = match sel {
            RowSelection::All => {
                self.row_selection = RowSelection::All;
                return;
            },
            RowSelection::Rows(v) => v,
            RowSelection::Empty => Vec::new(),
        };
        set_insert(&mut rows, self.focused_row);
        assert(rows@.contains(self.focused_row));
        self.row_selection = RowSelection::Rows(rows);
    }

    /// Adds the focused row to the selection, then moves the focus down `n`
    /// rows; with every row selected it only moves; an empty table is left
    /// as it is. From row 0 with nothing selected this selects exactly
    /// {0} and focuses row 1: the set grows behind the focus, it is not a
    /// range up to the focus.
    pub fn extend_row_selection_down(&mut self, n: usize)
        requires
            old(self).selection_ok(),
            old(self).window.total_rows > 0 ==> old(self).scroll_down_safe(n),
        ensures
            final(self).selection_ok(),
            old(self).window.total_rows <= 0 ==> *final(self) == *old(self),
            old(self).window.total_rows > 0 ==> {
                &&& final(self).focused_row == old(self).row_after_down(n)
                &&& final(self).viewport_start == old(self).viewport_for(as_i64(final(self).focused_row))
                &&& final(self).needs_fetch == old(self).fetch_flag_for(as_i64(final(self).focused_row))
                &&& old(self).selection_with(final(self).row_selection, old(self).focused_row)
            },
            final(self).same_content(*old(self)),
            final(self).focused_col == old(self).focused_col,
            final(self).h_scroll == old(self).h_scroll,
    {
        if self.window.total_rows <= 0 {
            return;
        }
        self.select_focused_row();
        self.scroll_down(n);
    }

    /// Adds the focused row to the selection, then moves the focus up `n`
    /// rows; with every row selected it only moves; an empty table is left
    /// as it is. From row 3 with nothing selected this selects exactly {3}
    /// and focuses row 2.
    pub fn extend_row_selection_up(&mut self, n: usize)
        requires
            old(self).selection_ok(),
            old(self).window.total_rows > 0 ==> old(self).move_safe(
                as_i64(old(self).row_after_up(n)),
            ),
        ensures
            final(self).selection_ok(),
            old(self).window.total_rows <= 0 ==> *final(self) == *old(self),
            old(self).window.total_rows > 0 ==> {
                &&& final(self).focused_row == old(self).row_after_up(n)
                &&& final(self).viewport_start == old(self).viewport_for(as_i64(final(self).focused_row))
                &&& final(self).needs_fetch == old(self).fetch_flag_for(as_i64(final(self).focused_row))
                &&& old(self).selection_with(final(self).row_selection, old(self).focused_row)
            },
            final(self).same_content(*old(self)),
            final(self).focused_col == old(self).focused_col,
            final(self).h_scroll == old(self).h_scroll,
    {
        if self.window.total_rows <= 0 {
            return;
        }
        self.select_focused_row();
        self.scroll_up(n);
    }

    /// Selects row `row` alone.
    pub fn select_only_row(&mut self, row: usize)
        ensures
            final(self).row_selection matches RowSelection::Rows(v) && v@ == seq![row],
            final(self).selection_ok(),
            final(self).same_content(*old(self)),
            final(self).focused_row == old(self).focused_row,
            final(self).focused_col == old(self).focused_col,
            final(self).h_scroll == old(self).h_scroll,
            final(self).viewport_start == old(self).viewport_start,
            final(self).needs_fetch == old(self).needs_fetch,
    {
        let mut v: Vec<usize> = Vec::new();
        v.push(row);
        assert(v@ =~= seq![row]);
        self.row_selection = RowSelection::Rows(v);
    }

    /// Adds row `row` to the selected set, or takes it out when it is in;
    /// a set left empty becomes no selection. With every row selected the
    /// row alone becomes selected.
    pub fn toggle_row_selected(&mut self, row: usize)
        requires
            old(self).selection_ok(),
        ensures
            final(self).selection_ok(),
            old(self).selected_list().contains(row) ==> match final(self).row_selection {
                RowSelection::Rows(v) => forall|y: usize| #[trigger] v@.contains(y) <==> (old(self).selected_list().contains(y) && y != row),
                RowSelection::Empty => forall|y: usize| #[trigger] old(self).selected_list().contains(y) ==> y == row,
                RowSelection::All => false,
            },
            !old(self).selected_list().contains(row) ==> (final(self).row_selection matches RowSelection::Rows(v)
                && forall|y: usize| #[trigger] v@.contains(y) <==> (old(self).selected_list().contains(y) || y == row)),
            final(self).same_content(*old(self)),
            final(self).focused_row == old(self).focused_row,
            final(self).focused_col == old(self).focused_col,
            final(self).h_scroll == old(self).h_scroll,
            final(self).viewport_start == old(self).viewport_start,
            final(self).needs_fetch == old(self).needs_fetch,
    {
        let mut sel = RowSelection::Empty;
        std::mem::swap(&mut sel, &mut self.row_selection);
        let mut rows = match sel {
            RowSelection::Rows(v) => v,
            _ => Vec::new(),
        };
        let ghost before = rows@;
        assert(before == old(self).selected_list());
        if set_contains(&rows, row) {
            set_remove(&mut rows, row);
            if rows.len() == 0 {
                assert forall|y: usize| #[trigger] before.contains(y) implies y == row by {
                    if y != row {
                        assert(!rows@.contains(y));
                    }
                }
                self.row_selection = RowSelection::Empty;
            } else {
                self.row_selection = RowSelection::Rows(rows);
            }
        } else {
            set_insert(&mut rows, row);
            assert(rows@.contains(row));
            self.row_selection = RowSelection::Rows(rows);
        }
    }

    /// Selects every row (nothing in an empty table).
    pub fn select_all_rows(&mut self)
        ensures
            final(self).row_selection == if old(self).window.total_rows > 0 {
                RowSelection::All
            } else {
                RowSelection::Empty
            },
            final(self).same_content(*old(self)),
            final(self).focused_row == old(self).focused_row,
            final(self).focused_col == old(self).focused_col,
            final(self).h_scroll == old(self).h_scroll,
            final(self).viewport_start == old(self).viewport_start,
            final(self).needs_fetch == old(self).needs_fetch,
    {
        self.row_selection = if self.window.total_rows > 0 {
            RowSelection::All
        } else {
            RowSelection::Empty
        };
    }

    /// Whether any row is selected.
    pub fn has_row_selection(&self) -> (r: bool)
        ensures
            r == !(self.row_selection is Empty),
    {
        match self.row_selection {
            RowSelection::Empty => false,
            _ => true,
        }
    }

    /// The rows of a selected set, in increasing order; none otherwise.
    pub fn selected_rows(&self) -> (r: Vec<usize>)
        ensures
            r@ == self.selected_list(),
    {
        match &self.row_selection {
            RowSelection::Rows(v) => set_copy(v),
            _ => Vec::new(),
        }
    }

    /// The first and last row of a selected set.
    pub open spec fn spec_selected_row_range(self) -> Option<(usize, usize)> {
        match self.row_selection {
            RowSelection::Rows(v) => if v@.len() > 0 {
                Some((v@[0], v@[v@.len() - 1]))
            } else {
                None
            },
            _ => None,
        }
    }

    /// The first and last row of a selected set.
    pub fn selected_row_range(&self) -> (r: Option<(usize, usize)>)
        ensures
            r == self.spec_selected_row_range(),
    {
        match &self.row_selection {
            RowSelection::Rows(v) => if v.len() > 0 {
                Some((v[0], v[v.len() - 1]))
            } else {
                None
            },
            _ => None,
        }
    }

    /// Whether absolute row `abs_row` is selected.
    pub open spec fn spec_is_row_selected(self, abs_row: i64) -> bool {
        if abs_row < 0 {
            false
        } else {
            let r = abs_row as usize;
            match self.row_selection {
                RowSelection::Empty => false,
                RowSelection::Rows(v) => v@.contains(r),
                RowSelection::All => r < (if self.window.total_rows > 0 {
                    self.window.total_rows
                } else {
                    0
                }) as usize,
            }
        }
    }

    /// Whether absolute row `abs_row` is selected: in the selected set, or
    /// any existing row when every row is selected.
    pub fn is_row_selected(&self, abs_row: i64) -> (r: bool)
        ensures
            r == self.spec_is_row_selected(abs_row),
    {
        if abs_row < 0 {
            return false;
        }
        let abs = abs_row as usize;
        match &self.row_selection {
            RowSelection::Empty => false,
            RowSelection::Rows(v) => set_contains(v, abs),
            RowSelection::All => {
                let total: i64 = if self.window.total_rows > 0 { self.window.total_rows } else { 0 };
                abs < total as usize
            },
        }
    }

    /// The focused row after focusing row `row` (clamped to the last row as
    /// `total_rows.saturating_sub(1) as usize`).
    pub open spec fn row_for_focus(self, row: usize) -> usize {
        let m = sat_dec(self.window.total_rows) as usize;
        if row < m {
            row
        } else {
            m
        }
    }

    /// Focusing a cell does not overflow.
    pub open spec fn focus_safe(self, row: usize) -> bool {
        self.columns@.len() > 0 ==> self.move_safe(as_i64(self.row_for_focus(row)))
    }

    /// Focuses cell (`row`, `col`), clamped into the table, and clears the
    /// row selection; keeps the cell in view and asks for a fetch when
    /// needed. Without columns only the row is focused.
    pub fn focus_cell(&mut self, row: usize, col: usize)
        requires
            old(self).focus_safe(row),
        ensures
            final(self).row_selection == RowSelection::Empty,
            final(self).focused_row == old(self).row_for_focus(row),
            old(self).columns@.len() == 0 ==> {
                &&& final(self).focused_col == 0
                &&& final(self).viewport_start == old(self).viewport_start
                &&& final(self).h_scroll == old(self).h_scroll
                &&& final(self).needs_fetch == old(self).needs_fetch
            },
            old(self).columns@.len() > 0 ==> {
                &&& final(self).focused_col == if col < old(self).columns@.len() - 1 {
                    col
                } else {
                    (old(self).columns@.len() - 1) as usize
                }
                &&& final(self).viewport_start == old(self).viewport_for(as_i64(final(self).focused_row))
                &&& final(self).h_scroll == old(self).h_scroll_for(final(self).focused_col)
                &&& final(self).needs_fetch == old(self).fetch_flag_for(as_i64(final(self).focused_row))
            },
            final(self).same_content(*old(self)),
    {
        self.clear_row_selection();
        self.focus_cell_preserve_selection(row, col);
    }

    /// Focuses cell (`row`, `col`), clamped into the table, keeping the row
    /// selection; keeps the cell in view and asks for a fetch when needed.
    /// Without columns only the row is focused.
    pub fn focus_cell_preserve_selection(&mut self, row: usize, col: usize)
        requires
            old(self).focus_safe(row),
        ensures
            final(self).row_selection == old(self).row_selection,
            final(self).focused_row == old(self).row_for_focus(row),
            old(self).columns@.len() == 0 ==> {
                &&& final(self).focused_col == 0
                &&& final(self).viewport_start == old(self).viewport_start
                &&& final(self).h_scroll == old(self).h_scroll
                &&& final(self).needs_fetch == old(self).needs_fetch
            },
            old(self).columns@.len() > 0 ==> {
                &&& final(self).focused_col == if col < old(self).columns@.len() - 1 {
                    col
                } else {
                    (old(self).columns@.len() - 1) as usize
                }
                &&& final(self).viewport_start == old(self).viewport_for(as_i64(final(self).focused_row))
                &&& final(self).h_scroll == old(self).h_scroll_for(final(self).focused_col)
                &&& final(self).needs_fetch == old(self).fetch_flag_for(as_i64(final(self).focused_row))
            },
            final(self).same_content(*old(self)),
    {
        let m: usize = if self.window.total_rows == i64::MIN {
            i64::MIN as usize
        } else {
            (self.window.total_rows - 1) as usize
        };
        let r = if row < m { row } else { m };
        if self.columns.len() == 0 {
            self.focused_row = r;
            self.focused_col = 0;
            return;
        }
        self.focused_row = r;
        let last = self.columns.len() - 1;
        self.focused_col = if col < last { col } else { last };
        self.adjust_viewport();
        self.adjust_h_scroll();
        self.check_needs_fetch();
    }
}


proof fn lemma_scrolled_h_bounds(ws: Seq<u16>, h: int, f: int, avail: int)
    ensures
        h <= scrolled_h(ws, h, f, avail),
        scrolled_h(ws, h, f, avail) <= (if h < f { f } else { h }),
    decreases f - h,
{
    if h < f && f >= h + fit_count(ws, h, avail) {
        lemma_scrolled_h_bounds(ws, h + 1, f, avail);
    }
}

/// The new scroll lies between the old scroll and the focused column.
proof fn lemma_h_scroll_after_bounds(ws: Seq<u16>, h: usize, f: usize, avail: int)
    ensures
        (h_scroll_after(ws, h as int, f as int, avail) as usize) as int == h_scroll_after(ws, h as int, f as int, avail),
{
    lemma_scrolled_h_bounds(ws, h as int, f as int, avail);
}

/// After keeping column `f` in view, the scroll is not past `f`, and `f`
/// is visible or is the first visible column.
pub proof fn lemma_h_scroll_shows_focus(ws: Seq<u16>, h: int, f: int, avail: int)
    requires
        0 <= h,
        avail > 0,
    ensures
        h_scroll_after(ws, h, f, avail) <= f || f < 0,
        f >= h ==> (h_scroll_after(ws, h, f, avail) == f || f < h_scroll_after(ws, h, f, avail)
            + fit_count(ws, h_scroll_after(ws, h, f, avail), avail)),
    decreases f - h,
{
    if f >= h && h < f && f >= h + fit_count(ws, h, avail) {
        lemma_h_scroll_shows_focus(ws, h + 1, f, avail);
    }
}

impl GridState {
    /// The rows column widths are sampled from: the dedicated sample when
    /// there is one, otherwise the loaded rows.
    pub open spec fn sizing_rows(self) -> Seq<Vec<SqlValue>> {
        if self.width_sample_rows@.len() == 0 {
            self.window.rows@
        } else {
            self.width_sample_rows@
        }
    }

    /// `widths` are the widths the grid's columns take for its sample.
    pub open spec fn widths_fit_sample(self, widths: Seq<u16>) -> bool {
        &&& widths.len() == self.columns@.len()
        &&& forall|i: int|
            0 <= i < self.columns@.len() ==> #[trigger] widths[i] == column_width(
                self.columns@,
                self.sizing_rows(),
                self.manual_widths@,
                self.fk_cols@,
                i,
            )
    }

    /// Recomputes column widths from the sampled rows for a data area
    /// `avail_width` columns wide, then keeps the focused column in view.
    pub fn recompute_col_widths(&mut self, avail_width: u16)
        ensures
            old(self).widths_fit_sample(final(self).col_widths@),
            final(self).avail_col_width == avail_width,
            final(self).h_scroll == h_scroll_after(
                final(self).col_widths@,
                old(self).h_scroll as int,
                old(self).focused_col as int,
                avail_width as int,
            ),
            final(self).table_name == old(self).table_name,
            final(self).columns == old(self).columns,
            final(self).window == old(self).window,
            final(self).width_sample_rows == old(self).width_sample_rows,
            final(self).fk_cols == old(self).fk_cols,
            final(self).enumerated_values == old(self).enumerated_values,
            final(self).manual_widths == old(self).manual_widths,
            final(self).sort == old(self).sort,
            final(self).filter == old(self).filter,
            final(self).focused_row == old(self).focused_row,
            final(self).focused_col == old(self).focused_col,
            final(self).viewport_start == old(self).viewport_start,
            final(self).needs_fetch == old(self).needs_fetch,
            final(self).row_selection == old(self).row_selection,
    {
        let widths = if self.width_sample_rows.len() == 0 {
            compute_col_widths(&self.columns, &self.window.rows, &self.manual_widths, &self.fk_cols)
        } else {
            compute_col_widths(
                &self.columns,
                &self.width_sample_rows,
                &self.manual_widths,
                &self.fk_cols,
            )
        };
        self.col_widths = widths;
        self.avail_col_width = avail_width;
        proof {
            lemma_h_scroll_after_bounds(self.col_widths@, self.h_scroll, self.focused_col, avail_width as int);
        }
        self.adjust_h_scroll();
    }

    /// A grid on `init`: focus on the first cell, nothing selected, no sort
    /// or filter, widths sampled for `area_width` columns. Key and value
    /// markers whose length does not match the columns are replaced by
    /// empty ones.
    pub fn new(init: GridInit) -> (g: GridState)
        ensures
            g.table_name == init.table_name,
            g.columns == init.columns,
            g.window.offset == 0,
            g.window.rows == init.rows,
            g.window.rowids@.len() == 0,
            g.window.total_rows == init.total_rows,
            g.window.viewport_rows == 20,
            !g.window.fetch_in_flight,
            g.window.tick_count == 0,
            g.width_sample_rows == init.width_sample_rows,
            g.fk_cols@ == if init.fk_cols@.len() == init.columns@.len() {
                init.fk_cols@
            } else {
                Seq::new(init.columns@.len(), |i: int| false)
            },
            g.enumerated_values@.len() == init.columns@.len(),
            init.enumerated_values@.len() == init.columns@.len() ==> g.enumerated_values
                == init.enumerated_values,
            init.enumerated_values@.len() != init.columns@.len() ==> forall|i: int|
                0 <= i < init.columns@.len() ==> (#[trigger] g.enumerated_values@[i])@.len() == 0,
            g.manual_widths@ == Map::<usize, u16>::empty(),
            g.widths_fit_sample(g.col_widths@),
            g.avail_col_width == init.area_width,
            g.focused_row == 0,
            g.focused_col == 0,
            g.h_scroll == 0,
            !g.needs_fetch,
            g.viewport_start == 0,
            g.sort is None,
            g.filter.columns@.len() == 0,
            g.row_selection == RowSelection::Empty,
    {
        let GridInit {
            table_name,
            columns,
            fk_cols,
            enumerated_values,
            rows,
            width_sample_rows,
            total_rows,
            area_width,
        } = init;
        let col_count = columns.len();
        let fk_cols_safe = if fk_cols.len() == col_count {
            fk_cols
        } else {
            let mut v: Vec<bool> = Vec::new();
            let mut i: usize = 0;
            while i < col_count
                invariant
                    i <= col_count,
                    v@ == Seq::new(i as nat, |k: int| false),
                decreases col_count - i,
            {
                v.push(false);
                i += 1;
                assert(v@ =~= Seq::new(i as nat, |k: int| false));
            }
            v
        };
        let enumerated_values_safe = if enumerated_values.len() == col_count {
            enumerated_values
        } else {
            let mut v: Vec<Vec<String>> = Vec::new();
            let mut i: usize = 0;
            while i < col_count
                invariant
                    i <= col_count,
                    v@.len() == i,
                    forall|k: int| 0 <= k < i ==> (#[trigger] v@[k])@.len() == 0,
                decreases col_count - i,
            {
                v.push(Vec::new());
                i += 1;
            }
            v
        };
        let mut state = GridState {
            table_name,
            columns,
            window: VirtualWindow::new(0, rows, total_rows),
            width_sample_rows,
            focused_row: 0,
            focused_col: 0,
            col_widths: Vec::new(),
            h_scroll: 0,
            fk_cols: fk_cols_safe,
            enumerated_values: enumerated_values_safe,
            manual_widths: HashMap::new(),
            needs_fetch: false,
            viewport_start: 0,
            avail_col_width: area_width,
            sort: None,
            filter: FilterSet { columns: Vec::new() },
            row_selection: RowSelection::Empty,
        };
        state.recompute_col_widths(area_width);
        proof {
            if area_width > 0 {
                assert(scrolled_h(state.col_widths@, 0, 0, area_width as int) == 0);
            }
        }
        state
    }

    /// The first display row after scrolling to show an insert row at
    /// `insert_position` (the insert row shifts the rows after it down).
    pub open spec fn insert_view_start(self, insert_position: usize) -> int {
        let vp = as_i64(self.vp());
        let ip = as_i64(insert_position);
        let current = if ip < self.viewport_start {
            self.viewport_start + 1
        } else {
            self.viewport_start as int
        };
        let target_display = if ip < current {
            ip
        } else if ip >= current + vp {
            ip - vp + 1
        } else {
            current
        };
        let target_real = if ip < target_display {
            target_display - 1
        } else {
            target_display
        };
        let max_start = if self.window.total_rows - vp + 1 > 0 {
            self.window.total_rows - vp + 1
        } else {
            0
        };
        if target_real < 0 {
            0
        } else if target_real > max_start {
            max_start
        } else {
            target_real
        }
    }

    /// Scrolling to an insert row does not overflow.
    pub open spec fn insert_view_safe(self, insert_position: usize) -> bool {
        let vp = as_i64(self.vp());
        let ip = as_i64(insert_position);
        let current = if ip < self.viewport_start {
            self.viewport_start + 1
        } else {
            self.viewport_start as int
        };
        &&& (ip < self.viewport_start ==> in_i64(self.viewport_start + 1))
        &&& (ip >= current ==> in_i64(current + vp))
        &&& (ip >= current + vp ==> in_i64(ip - vp) && in_i64(ip - vp + 1))
        &&& in_i64(self.window.total_rows - vp)
        &&& in_i64(self.window.total_rows - vp + 1)
    }

    /// Scrolls so that an insert row placed at `insert_position` is in the
    /// viewport, then clamps the viewport's start into the table.
    pub fn ensure_insert_row_visible(&mut self, insert_position: usize)
        requires
            old(self).insert_view_safe(insert_position),
        ensures
            final(self).viewport_start == old(self).insert_view_start(insert_position),
            final(self).same_content(*old(self)),
            final(self).focused_row == old(self).focused_row,
            final(self).focused_col == old(self).focused_col,
            final(self).h_scroll == old(self).h_scroll,
            final(self).needs_fetch == old(self).needs_fetch,
            final(self).row_selection == old(self).row_selection,
    {
        let vpu: usize = if self.window.viewport_rows == 0 { 1 } else { self.window.viewport_rows };
        let viewport_rows = vpu as i64;
        let ip = insert_position as i64;
        let current = if ip < self.viewport_start {
            self.viewport_start + 1
        } else {
            self.viewport_start
        };
        let target_display = if ip < current {
            ip
        } else if ip >= current + viewport_rows {
            ip - viewport_rows + 1
        } else {
            current
        };
        let target_real = if ip < target_display { target_display - 1 } else { target_display };
        let span = self.window.total_rows - viewport_rows + 1;
        let max_start = if span > 0 { span } else { 0 };
        self.viewport_start = if target_real < 0 {
            0
        } else if target_real > max_start {
            max_start
        } else {
            target_real
        };
    }

    /// Clamps the viewport's start into `0 ..= max(total - vp, 0)`.
    pub fn clamp_viewport(&mut self)
        requires
            in_i64(old(self).window.total_rows - as_i64(old(self).vp())),
        ensures
            ({
                let total = old(self).window.total_rows as int;
                let vp = as_i64(old(self).vp());
                let max_start = if total - vp > 0 { total - vp } else { 0 };
                let vs = if old(self).viewport_start > max_start {
                    max_start
                } else {
                    old(self).viewport_start as int
                };
                final(self).viewport_start == if vs < 0 { 0 } else { vs }
            }),
            final(self).same_content(*old(self)),
            final(self).focused_row == old(self).focused_row,
            final(self).focused_col == old(self).focused_col,
            final(self).h_scroll == old(self).h_scroll,
            final(self).needs_fetch == old(self).needs_fetch,
            final(self).row_selection == old(self).row_selection,
    {
        let vpu: usize = if self.window.viewport_rows == 0 { 1 } else { self.window.viewport_rows };
        let viewport_rows = vpu as i64;
        let span = self.window.total_rows - viewport_rows;
        let max_start = if span > 0 { span } else { 0 };
        if self.viewport_start > max_start {
            self.viewport_start = max_start;
        }
        if self.viewport_start < 0 {
            self.viewport_start = 0;
        }
    }
}

/// `a - b` saturated into the range of `i64`.
pub open spec fn saturating_sub_i64(a: int, b: int) -> int {
    if a - b > i64::MAX {
        i64::MAX as int
    } else if a - b < i64::MIN {
        i64::MIN as int
    } else {
        a - b
    }
}

/// `a - b` saturated into the range of `i64`.
fn sub_saturating(a: i64, b: i64) -> (r: i64)
    ensures
        r == saturating_sub_i64(a as int, b as int),
{
    let d: i128 = (a as i128) - (b as i128);
    if d > (i64::MAX as i128) {
        i64::MAX
    } else if d < (i64::MIN as i128) {
        i64::MIN
    } else {
        d as i64
    }
}

impl GridState {
    /// The row count after `count` rows of the table were deleted.
    pub open spec fn total_after_delete(self, count: usize) -> int {
        saturating_sub_i64(self.window.total_rows as int, as_i64(count))
    }

    /// The view after `count` rows of its table were deleted: no selection,
    /// no loaded rows, the count lowered (saturating), the focus and the
    /// viewport's start pulled back into the table, a reload due.
    pub fn apply_rows_deleted(&mut self, count: usize)
        requires
            old(self).total_after_delete(count) > 0 ==> in_i64(
                old(self).total_after_delete(count) - as_i64(old(self).window.viewport_rows),
            ),
        ensures
            ({
                let t = old(self).total_after_delete(count);
                let vp = as_i64(old(self).window.viewport_rows);
                let max_row = ((t - 1) as i64) as usize;
                let max_start = if t - vp > 0 { t - vp } else { 0 };
                &&& final(self).window.total_rows == t
                &&& final(self).window.rows@.len() == 0
                &&& final(self).window.rowids@.len() == 0
                &&& !final(self).window.fetch_in_flight
                &&& final(self).window.offset == old(self).window.offset
                &&& final(self).window.viewport_rows == old(self).window.viewport_rows
                &&& final(self).window.tick_count == old(self).window.tick_count
                &&& final(self).row_selection == RowSelection::Empty
                &&& final(self).needs_fetch
                &&& (t <= 0 ==> final(self).focused_row == 0 && final(self).viewport_start == 0)
                &&& (t > 0 ==> final(self).focused_row == if old(self).focused_row > max_row {
                    max_row
                } else {
                    old(self).focused_row
                })
                &&& (t > 0 ==> final(self).viewport_start == if old(self).viewport_start > max_start {
                    max_start
                } else {
                    old(self).viewport_start as int
                })
            }),
            final(self).table_name == old(self).table_name,
            final(self).columns == old(self).columns,
            final(self).width_sample_rows == old(self).width_sample_rows,
            final(self).col_widths == old(self).col_widths,
            final(self).fk_cols == old(self).fk_cols,
            final(self).enumerated_values == old(self).enumerated_values,
            final(self).manual_widths == old(self).manual_widths,
            final(self).avail_col_width == old(self).avail_col_width,
            final(self).sort == old(self).sort,
            final(self).filter == old(self).filter,
            final(self).focused_col == old(self).focused_col,
            final(self).h_scroll == old(self).h_scroll,
    {
        self.clear_row_selection();
        self.window.rows.clear();
        self.window.rowids.clear();
        self.window.fetch_in_flight = false;
        self.window.total_rows = sub_saturating(self.window.total_rows, count as i64);
        if self.window.total_rows <= 0 {
            self.focused_row = 0;
            self.viewport_start = 0;
        } else {
            let max_row = (self.window.total_rows - 1) as usize;
            if self.focused_row > max_row {
                self.focused_row = max_row;
            }
            let span = self.window.total_rows - (self.window.viewport_rows as i64);
            let max_start = if span > 0 { span } else { 0 };
            if self.viewport_start > max_start {
                self.viewport_start = max_start;
            }
        }
        self.needs_fetch = true;
    }
}

impl GridState {
    /// The focused row once the table holds `total` rows.
    pub open spec fn focus_within(self, total: i64) -> usize {
        if total > 0 {
            let max_row = ((total - 1) as i64) as usize;
            if self.focused_row > max_row {
                max_row
            } else {
                self.focused_row
            }
        } else {
            0
        }
    }

    /// The viewport's start once the table holds `total` rows.
    pub open spec fn start_within(self, total: i64) -> int {
        let vp = as_i64(self.window.viewport_rows);
        let max_start = if total - vp > 0 { total - vp } else { 0 };
        if self.viewport_start > max_start {
            max_start
        } else {
            self.viewport_start as int
        }
    }

    /// Taking in a page of `rows_len` rows at `offset` of a table of `total`
    /// rows does not overflow.
    pub open spec fn window_ready_safe(self, offset: i64, rows_len: nat, total: i64) -> bool {
        let f = self.focus_within(total) as i64;
        let vp = as_i64(self.window.viewport_rows);
        &&& in_i64(total - vp)
        &&& in_i64(offset + 10)
        &&& (f >= offset + 10 ==> {
            &&& in_i64(offset + as_i64(rows_len as usize))
            &&& in_i64(f + vp)
            &&& in_i64(f + vp + 20)
        })
    }

    /// Takes in a loaded page: only the answer to the current request
    /// (`request_id == current_request`) for this table is applied. The page
    /// replaces the held rows, the focus and the viewport's start are pulled
    /// into the new row count, and a queued reload stays queued only while
    /// the focus still lacks rows around it. Answers whether it applied.
    pub fn apply_window_ready(
        &mut self,
        request_id: u64,
        current_request: u64,
        table: &str,
        offset: i64,
        rows: Vec<Vec<SqlValue>>,
        rowids: Vec<Option<i64>>,
        total_rows: i64,
    ) -> (applied: bool)
        requires
            request_id == current_request && table@ == old(self).table_name@ ==> old(self).window_ready_safe(
                offset,
                rows@.len(),
                total_rows,
            ),
        ensures
            applied == (request_id == current_request && table@ == old(self).table_name@),
            !applied ==> *final(self) == *old(self),
            applied ==> {
                let f = old(self).focus_within(total_rows);
                &&& final(self).window.offset == offset
                &&& final(self).window.rows@ == rows@
                &&& final(self).window.rowids@ == rowids@
                &&& final(self).window.total_rows == total_rows
                &&& !final(self).window.fetch_in_flight
                &&& final(self).window.viewport_rows == old(self).window.viewport_rows
                &&& final(self).window.tick_count == old(self).window.tick_count
                &&& final(self).focused_row == f
                &&& final(self).viewport_start == old(self).start_within(total_rows)
                &&& final(self).needs_fetch == (old(self).needs_fetch && final(self).window.spec_needs_prefetch(
                    f as i64,
                ))
                &&& final(self).table_name == old(self).table_name
                &&& final(self).columns == old(self).columns
                &&& final(self).width_sample_rows == old(self).width_sample_rows
                &&& final(self).col_widths == old(self).col_widths
                &&& final(self).fk_cols == old(self).fk_cols
                &&& final(self).enumerated_values == old(self).enumerated_values
                &&& final(self).manual_widths == old(self).manual_widths
                &&& final(self).avail_col_width == old(self).avail_col_width
                &&& final(self).sort == old(self).sort
                &&& final(self).filter == old(self).filter
                &&& final(self).focused_col == old(self).focused_col
                &&& final(self).h_scroll == old(self).h_scroll
                &&& final(self).row_selection == old(self).row_selection
            },
    {
        if request_id != current_request || !same_text(self.table_name.as_str(), table) {
            return false;
        }
        let fetch_was_queued = self.needs_fetch;
        self.window.offset = offset;
        self.window.rows = rows;
        self.window.rowids = rowids;
        self.window.total_rows = total_rows;
        self.window.fetch_in_flight = false;
        if total_rows > 0 {
            let max_row = (total_rows - 1) as usize;
            if self.focused_row > max_row {
                self.focused_row = max_row;
            }
        } else {
            self.focused_row = 0;
        }
        let vp = self.window.viewport_rows as i64;
        let span = total_rows - vp;
        let max_start = if span > 0 { span } else { 0 };
        if self.viewport_start > max_start {
            self.viewport_start = max_start;
        }
        let needs = self.window.needs_prefetch(self.focused_row as i64);
        self.needs_fetch = fetch_was_queued && needs;
        true
    }
}

/// A page of rows to load for a table view: the table, its columns, the
/// sort column and direction, and the bounds.
pub struct WindowFetch {
    pub table: String,
    pub columns: Vec<Column>,
    pub sort: Option<(String, bool)>,
    pub offset: i64,
    pub limit: i64,
}

/// The sort column's name and whether it ascends, when it names a column.
pub open spec fn sort_by(state: GridState) -> Option<(Seq<char>, bool)> {
    match state.sort {
        Some(s) => if s.col_idx < state.columns@.len() {
            Some((state.columns@[s.col_idx as int].name@, s.direction == SortDir::Asc))
        } else {
            None
        },
        None => None,
    }
}

/// The view of a fetch's sort.
pub open spec fn sort_view(s: Option<(String, bool)>) -> Option<(Seq<char>, bool)> {
    match s {
        Some((n, a)) => Some((n@, a)),
        None => None,
    }
}

impl GridState {
    /// The sort column's name and direction, when it names a column.
    pub fn sort_column(&self) -> (r: Option<(String, bool)>)
        ensures
            sort_view(r) == sort_by(*self),
    {
        match &self.sort {
            Some(s) => {
                if s.col_idx < self.columns.len() {
                    let asc = match s.direction {
                        SortDir::Asc => true,
                        SortDir::Desc => false,
                    };
                    Some((self.columns[s.col_idx].name.clone(), asc))
                } else {
                    None
                }
            },
            None => None,
        }
    }

    /// Starts the page load a scroll asked for, unless one is under way:
    /// marks it in flight, clears the request and answers what to load
    /// around the focused row. Nothing else changes.
    pub fn take_window_fetch(&mut self) -> (r: Option<WindowFetch>)
        requires
            old(self).window.fetch_params_safe(as_i64(old(self).focused_row) as i64),
        ensures
            old(self).needs_fetch && !old(self).window.fetch_in_flight ==> {
                &&& r is Some
                &&& final(self).window.fetch_in_flight
                &&& !final(self).needs_fetch
                &&& r->0.table@ == old(self).table_name@
                &&& r->0.columns@ == old(self).columns@
                &&& sort_view(r->0.sort) == sort_by(*old(self))
                &&& r->0.offset == if as_i64(old(self).focused_row) - 50 > 0 { as_i64(old(self).focused_row) - 50 } else { 0 }
                &&& r->0.limit == if as_i64(old(self).focused_row) + as_i64(old(self).window.viewport_rows) + 50 - r->0.offset > 100 {
                    as_i64(old(self).focused_row) + as_i64(old(self).window.viewport_rows) + 50 - r->0.offset
                } else {
                    100
                }
            },
            !(old(self).needs_fetch && !old(self).window.fetch_in_flight) ==> r is None && *final(self) == *old(self),
            final(self).window.rows == old(self).window.rows,
            final(self).window.offset == old(self).window.offset,
            final(self).window.total_rows == old(self).window.total_rows,
            final(self).focused_row == old(self).focused_row,
            final(self).viewport_start == old(self).viewport_start,
            final(self).window.rowids == old(self).window.rowids,
            final(self).window.viewport_rows == old(self).window.viewport_rows,
            final(self).window.tick_count == old(self).window.tick_count,
            final(self).table_name == old(self).table_name,
            final(self).columns == old(self).columns,
            final(self).filter == old(self).filter,
            final(self).sort == old(self).sort,
            final(self).row_selection == old(self).row_selection,
            final(self).focused_col == old(self).focused_col,
            final(self).h_scroll == old(self).h_scroll,
            old(self).needs_fetch && !old(self).window.fetch_in_flight ==> fetch_started(*old(self), *final(self), r),
    {
        if !(self.needs_fetch && !self.window.fetch_in_flight) {
            return None;
        }
        self.window.fetch_in_flight = true;
        self.needs_fetch = false;
        let (offset, limit) = self.window.fetch_params(self.focused_row as i64);
        let sort = self.sort_column();
        let columns = copy_columns(&self.columns);
        Some(WindowFetch { table: self.table_name.clone(), columns, sort, offset, limit })
    }

    /// Moves to the next sort of the focused column (ascending, descending,
    /// none; ascending when another column was sorted), goes back to the
    /// first row and starts loading the first page, which it answers.
    pub fn cycle_sort(&mut self) -> (r: WindowFetch)
        requires
            old(self).window.fetch_params_safe(0),
        ensures
            final(self).sort == next_sort(old(self).sort, old(self).focused_col),
            final(self).col_widths == old(self).col_widths,
            final(self).viewport_start == 0,
            final(self).focused_row == 0,
            final(self).window.rows@.len() == 0,
            final(self).window.offset == 0,
            final(self).window.fetch_in_flight,
            !final(self).needs_fetch,
            final(self).window.rowids == old(self).window.rowids,
            final(self).window.total_rows == old(self).window.total_rows,
            final(self).window.viewport_rows == old(self).window.viewport_rows,
            final(self).window.tick_count == old(self).window.tick_count,
            final(self).table_name == old(self).table_name,
            final(self).columns == old(self).columns,
            final(self).focused_col == old(self).focused_col,
            final(self).h_scroll == old(self).h_scroll,
            final(self).filter == old(self).filter,
            final(self).row_selection == old(self).row_selection,
            r.table@ == old(self).table_name@,
            r.columns@ == old(self).columns@,
            sort_view(r.sort) == sort_by(*final(self)),
            r.offset == 0,
            r.limit == if as_i64(old(self).window.viewport_rows) + 50 > 100 {
                as_i64(old(self).window.viewport_rows) + 50
            } else {
                100
            },
    {
        let col_idx = self.focused_col;
        let next = match self.sort {
            None => Some(SortSpec { col_idx, direction: SortDir::Asc }),
            Some(s) => if s.col_idx == col_idx {
                match s.direction {
                    SortDir::Asc => Some(SortSpec { col_idx, direction: SortDir::Desc }),
                    SortDir::Desc => None,
                }
            } else {
                Some(SortSpec { col_idx, direction: SortDir::Asc })
            },
        };
        self.sort = next;
        self.viewport_start = 0;
        self.focused_row = 0;
        self.window.rows.clear();
        self.window.offset = 0;
        self.window.fetch_in_flight = true;
        self.needs_fetch = false;
        let (offset, limit) = self.window.fetch_params(0);
        let sort = self.sort_column();
        let columns = copy_columns(&self.columns);
        WindowFetch { table: self.table_name.clone(), columns, sort, offset, limit }
    }
}

impl GridState {
    /// Jumps to the position that a letter lookup answered: only the answer
    /// to the current lookup (`request_id == current_request`) for this
    /// table is followed, focusing row `offset` as `scroll_to_row` does.
    /// Answers whether it jumped.
    pub fn jump_to_sorted_offset(&mut self, request_id: u64, current_request: u64, table: &str, offset: i64) -> (jumped: bool)
        requires
            request_id == current_request && table@ == old(self).table_name@ ==> {
                &&& old(self).window.total_rows > i64::MIN
                &&& old(self).move_safe(as_i64(old(self).row_at(offset)))
            },
        ensures
            jumped == (request_id == current_request && table@ == old(self).table_name@),
            !jumped ==> *final(self) == *old(self),
            jumped ==> {
                &&& final(self).focused_row == old(self).row_at(offset)
                &&& final(self).viewport_start == old(self).viewport_for(as_i64(final(self).focused_row))
                &&& final(self).needs_fetch == old(self).fetch_flag_for(as_i64(final(self).focused_row))
                &&& final(self).same_content(*old(self))
                &&& final(self).focused_col == old(self).focused_col
                &&& final(self).h_scroll == old(self).h_scroll
                &&& final(self).row_selection == old(self).row_selection
            },
    {
        if request_id != current_request || !same_text(self.table_name.as_str(), table) {
            return false;
        }
        self.scroll_to_row(offset);
        true
    }
}

impl GridState {
    /// `self` is `before` brought back to its first row with the first page
    /// loading: no rows held, the focus and the viewport at the top, the
    /// rest as it was but the filter.
    pub open spec fn restarted_from(self, before: GridState) -> bool {
        &&& self.viewport_start == 0
        &&& self.focused_row == 0
        &&& self.window.rows@.len() == 0
        &&& self.window.offset == 0
        &&& self.window.fetch_in_flight
        &&& self.window.rowids == before.window.rowids
        &&& self.window.total_rows == before.window.total_rows
        &&& self.window.viewport_rows == before.window.viewport_rows
        &&& self.window.tick_count == before.window.tick_count
        &&& self.needs_fetch == before.needs_fetch
        &&& self.table_name == before.table_name
        &&& self.columns == before.columns
        &&& self.sort == before.sort
        &&& self.focused_col == before.focused_col
        &&& self.h_scroll == before.h_scroll
        &&& self.row_selection == before.row_selection
        &&& self.col_widths == before.col_widths
    }

    /// `r` loads the first page of `self`.
    pub open spec fn first_page(self, r: WindowFetch) -> bool {
        &&& r.table@ == self.table_name@
        &&& r.columns@ == self.columns@
        &&& sort_view(r.sort) == sort_by(self)
        &&& r.offset == 0
        &&& r.limit == if as_i64(self.window.viewport_rows) + 50 > 100 {
            as_i64(self.window.viewport_rows) + 50
        } else {
            100
        }
    }

    /// Goes back to the first row and starts loading the first page.
    fn restart_from_top(&mut self) -> (r: WindowFetch)
        requires
            old(self).window.fetch_params_safe(0),
        ensures
            final(self).restarted_from(*old(self)),
            final(self).filter == old(self).filter,
            final(self).first_page(r),
    {
        self.viewport_start = 0;
        self.focused_row = 0;
        self.window.rows.clear();
        self.window.offset = 0;
        let (offset, limit) = self.window.fetch_params(0);
        self.window.fetch_in_flight = true;
        let sort = self.sort_column();
        let columns = copy_columns(&self.columns);
        WindowFetch { table: self.table_name.clone(), columns, sort, offset, limit }
    }

    /// Filters column `name` by rules confirmed in the filter editor, then
    /// starts over from the first page, which it answers.
    pub fn confirm_filter(&mut self, name: String, cf: ColumnFilter) -> (r: WindowFetch)
        requires
            old(self).filter.wf(),
            old(self).window.fetch_params_safe(0),
        ensures
            final(self).filter.wf(),
            filter_of(final(self).filter.columns@, name@) == Some(cf),
            forall|n: Seq<char>| n != name@ ==> filter_of(final(self).filter.columns@, n) == filter_of(
                old(self).filter.columns@,
                n,
            ),
            final(self).restarted_from(*old(self)),
            final(self).first_page(r),
    {
        self.filter.set_column_filter(name, cf);
        self.restart_from_top()
    }

    /// Applies rules edited for column `name` (dropping its filter when none
    /// is enabled), then starts over from the first page, which it answers.
    pub fn apply_column_filter(&mut self, name: String, cf: ColumnFilter) -> (r: WindowFetch)
        requires
            old(self).filter.wf(),
            old(self).window.fetch_params_safe(0),
        ensures
            final(self).filter.wf(),
            any_enabled(cf) ==> filter_of(final(self).filter.columns@, name@) == Some(cf),
            !any_enabled(cf) ==> filter_of(final(self).filter.columns@, name@) is None,
            forall|n: Seq<char>| n != name@ ==> filter_of(final(self).filter.columns@, n) == filter_of(
                old(self).filter.columns@,
                n,
            ),
            final(self).restarted_from(*old(self)),
            final(self).first_page(r),
    {
        self.filter.apply_column_filter(name, cf);
        self.restart_from_top()
    }

    /// Drops every filter, then starts over from the first page, which it
    /// answers.
    pub fn clear_filters(&mut self) -> (r: WindowFetch)
        requires
            old(self).window.fetch_params_safe(0),
        ensures
            final(self).filter.columns@.len() == 0,
            final(self).restarted_from(*old(self)),
            final(self).first_page(r),
    {
        self.filter = FilterSet::default();
        self.restart_from_top()
    }
}

impl GridState {
    /// The view after a row was inserted into its table: no loaded rows,
    /// one row more, a reload due.
    pub fn apply_row_inserted(&mut self)
        requires
            old(self).window.total_rows < i64::MAX,
        ensures
            final(self).window.rows@.len() == 0,
            final(self).window.rowids@.len() == 0,
            !final(self).window.fetch_in_flight,
            final(self).window.total_rows == old(self).window.total_rows + 1,
            final(self).window.offset == old(self).window.offset,
            final(self).window.viewport_rows == old(self).window.viewport_rows,
            final(self).window.tick_count == old(self).window.tick_count,
            final(self).needs_fetch,
            final(self).table_name == old(self).table_name,
            final(self).columns == old(self).columns,
            final(self).focused_row == old(self).focused_row,
            final(self).focused_col == old(self).focused_col,
            final(self).viewport_start == old(self).viewport_start,
            final(self).h_scroll == old(self).h_scroll,
            final(self).sort == old(self).sort,
            final(self).filter == old(self).filter,
            final(self).row_selection == old(self).row_selection,
    {
        self.window.rows.clear();
        self.window.rowids.clear();
        self.window.fetch_in_flight = false;
        self.window.total_rows = self.window.total_rows + 1;
        self.needs_fetch = true;
    }

    /// Forgets the widths set by hand and sizes every column from its sample
    /// again, for the current width.
    pub fn reset_column_widths(&mut self)
        ensures
            final(self).manual_widths@ == Map::<usize, u16>::empty(),
            (GridState { manual_widths: final(self).manual_widths, ..*old(self) }).widths_fit_sample(
                final(self).col_widths@,
            ),
            final(self).avail_col_width == old(self).avail_col_width,
            final(self).h_scroll == h_scroll_after(
                final(self).col_widths@,
                old(self).h_scroll as int,
                old(self).focused_col as int,
                old(self).avail_col_width as int,
            ),
            final(self).table_name == old(self).table_name,
            final(self).columns == old(self).columns,
            final(self).window == old(self).window,
            final(self).filter == old(self).filter,
            final(self).sort == old(self).sort,
            final(self).focused_row == old(self).focused_row,
            final(self).focused_col == old(self).focused_col,
            final(self).viewport_start == old(self).viewport_start,
            final(self).needs_fetch == old(self).needs_fetch,
            final(self).row_selection == old(self).row_selection,
    {
        self.manual_widths.clear();
        let w = self.avail_col_width;
        self.recompute_col_widths(w);
    }

    /// Drops the loaded rows and asks for them again.
    pub fn drop_loaded_rows(&mut self)
        ensures
            *final(self) == (GridState {
                window: VirtualWindow { rows: final(self).window.rows, rowids: final(self).window.rowids, fetch_in_flight: false, ..old(self).window },
                needs_fetch: true,
                ..*old(self)
            }),
            final(self).window.rows@.len() == 0,
            final(self).window.rowids@.len() == 0,
    {
        self.window.rows.clear();
        self.window.rowids.clear();
        self.window.fetch_in_flight = false;
        self.needs_fetch = true;
    }

    /// After a cell was written: drops the loaded rows and starts loading
    /// the page around the focused row again, which it answers.
    pub fn reload_after_edit(&mut self) -> (r: WindowFetch)
        requires
            old(self).window.fetch_params_safe(as_i64(old(self).focused_row) as i64),
        ensures
            final(self).window.rows@.len() == 0,
            final(self).window.fetch_in_flight,
            !final(self).needs_fetch,
            final(self).window.rowids == old(self).window.rowids,
            final(self).window.offset == old(self).window.offset,
            final(self).window.total_rows == old(self).window.total_rows,
            final(self).window.viewport_rows == old(self).window.viewport_rows,
            final(self).window.tick_count == old(self).window.tick_count,
            final(self).table_name == old(self).table_name,
            final(self).columns == old(self).columns,
            final(self).focused_row == old(self).focused_row,
            final(self).focused_col == old(self).focused_col,
            final(self).viewport_start == old(self).viewport_start,
            final(self).h_scroll == old(self).h_scroll,
            final(self).sort == old(self).sort,
            final(self).filter == old(self).filter,
            final(self).row_selection == old(self).row_selection,
            r.table@ == old(self).table_name@,
            r.columns@ == old(self).columns@,
            sort_view(r.sort) == sort_by(*old(self)),
            r.offset == if as_i64(old(self).focused_row) - 50 > 0 { as_i64(old(self).focused_row) - 50 } else { 0 },
            r.limit == if as_i64(old(self).focused_row) + as_i64(old(self).window.viewport_rows) + 50 - r.offset > 100 {
                as_i64(old(self).focused_row) + as_i64(old(self).window.viewport_rows) + 50 - r.offset
            } else {
                100
            },
    {
        self.window.rows.clear();
        self.window.fetch_in_flight = true;
        self.needs_fetch = false;
        let (offset, limit) = self.window.fetch_params(self.focused_row as i64);
        let sort = self.sort_column();
        let columns = copy_columns(&self.columns);
        WindowFetch { table: self.table_name.clone(), columns, sort, offset, limit }
    }
}

/// `after` is `before` with the page load `r` started: in flight, no
/// longer asked for, the rest as it was.
pub open spec fn fetch_started(before: GridState, after: GridState, r: Option<WindowFetch>) -> bool {
    &&& r is Some
    &&& after == GridState {
        window: VirtualWindow { fetch_in_flight: true, ..before.window },
        needs_fetch: false,
        ..before
    }
}

/// The sort after asking to sort by column `col`: ascending on a column not
/// sorted yet, then descending, then none.
pub open spec fn next_sort(current: Option<SortSpec>, col: usize) -> Option<SortSpec> {
    match current {
        None => Some(SortSpec { col_idx: col, direction: SortDir::Asc }),
        Some(s) => if s.col_idx == col {
            match s.direction {
                SortDir::Asc => Some(SortSpec { col_idx: col, direction: SortDir::Desc }),
                SortDir::Desc => None,
            }
        } else {
            Some(SortSpec { col_idx: col, direction: SortDir::Asc })
        },
    }
}

/// Sorting by the same column three times gives back the sort it started
/// from, whether that was no sort or a sort of that column.
pub proof fn lemma_sort_cycle_returns(current: Option<SortSpec>, col: usize)
    requires
        current matches Some(s) ==> s.col_idx == col,
    ensures
        next_sort(next_sort(next_sort(current, col), col), col) == current,
{
}

/// A copy of `cols`.
fn copy_columns(cols: &Vec<Column>) -> (r: Vec<Column>)
    ensures
        r@ == cols@,
{
    let mut columns: Vec<Column> = Vec::new();
    let mut i: usize = 0;
    while i < cols.len()
        invariant
            i <= cols@.len(),
            columns@ == cols@.subrange(0, i as int),
        decreases cols@.len() - i,
    {
        columns.push(crate::db::write::clone_column(&cols[i]));
        i = i + 1;
        assert(columns@ =~= cols@.subrange(0, i as int));
    }
    assert(cols@.subrange(0, cols@.len() as int) =~= cols@);
    columns
}

} // verus!

