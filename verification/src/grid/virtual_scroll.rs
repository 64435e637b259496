//! The window of rows currently held in memory for a table view.

use vstd::prelude::*;
use crate::value::SqlValue;

verus! {

/// Rows `offset .. offset + rows.len()` of a result of `total_rows` rows,
/// with the physical rowid of each (when the table exposes one).
pub struct VirtualWindow {
    pub offset: i64,
    pub rows: Vec<Vec<SqlValue>>,
    pub rowids: Vec<Option<i64>>,
    pub total_rows: i64,
    pub viewport_rows: usize,
    pub fetch_in_flight: bool,
    pub tick_count: u64,
}

/// `x` lies in the range of `i64`.
pub open spec fn in_i64(x: int) -> bool {
    i64::MIN <= x <= i64::MAX
}

/// A `usize` read as `i64` (wrapping, as `as` does).
pub open spec fn as_i64(x: usize) -> int {
    (x as i64) as int
}

impl VirtualWindow {
    /// The index into `rows` of absolute row `abs_row`, when it is at or
    /// after the window's start.
    pub open spec fn index_of(self, abs_row: i64) -> int {
        ((abs_row - self.offset) as usize) as int
    }

    /// Absolute row `abs_row` is held in the window.
    pub open spec fn holds(self, abs_row: i64) -> bool {
        abs_row >= self.offset && self.index_of(abs_row) < self.rows@.len()
    }

    /// `abs_row - offset` does not overflow where it is computed.
    pub open spec fn offset_safe(self, abs_row: i64) -> bool {
        abs_row < self.offset || in_i64(abs_row - self.offset)
    }

    /// The rowid of absolute row `abs_row`, when held and known.
    pub open spec fn rowid_at(self, abs_row: i64) -> Option<i64> {
        if !self.holds(abs_row) || self.index_of(abs_row) >= self.rowids@.len() {
            None
        } else {
            self.rowids@[self.index_of(abs_row)]
        }
    }

    /// A window at `offset` holding `rows` of `total_rows`, with no rowids,
    /// a viewport of 20 rows and no fetch under way.
    pub fn new(offset: i64, rows: Vec<Vec<SqlValue>>, total_rows: i64) -> (w: Self)
        ensures
            w.offset == offset,
            w.rows == rows,
            w.rowids@.len() == 0,
            w.total_rows == total_rows,
            w.viewport_rows == 20,
            !w.fetch_in_flight,
            w.tick_count == 0,
    {
        VirtualWindow {
            offset,
            rows,
            rowids: Vec::new(),
            total_rows,
            viewport_rows: 20,
            fetch_in_flight: false,
            tick_count: 0,
        }
    }

    /// The row at absolute position `abs_row`, if the window holds it.
    pub fn get_row(&self, abs_row: i64) -> (r: Option<&Vec<SqlValue>>)
        requires
            self.offset_safe(abs_row),
        ensures
            match r {
                Some(row) => self.holds(abs_row) && *row == self.rows@[self.index_of(abs_row)],
                None => !self.holds(abs_row),
            },
    {
        if abs_row < self.offset {
            return None;
        }
        let idx = (abs_row - self.offset) as usize;
        if idx < self.rows.len() {
            Some(&self.rows[idx])
        } else {
            None
        }
    }

    /// The rowid of absolute row `abs_row`, if the row is held and its
    /// rowid is known.
    pub fn get_rowid(&self, abs_row: i64) -> (r: Option<i64>)
        requires
            self.offset_safe(abs_row),
        ensures
            r == self.rowid_at(abs_row),
    {
        if abs_row < self.offset || self.get_row(abs_row).is_none() {
            return None;
        }
        let idx = (abs_row - self.offset) as usize;
        if idx < self.rowids.len() {
            self.rowids[idx]
        } else {
            None
        }
    }

    /// `needs_prefetch` does not overflow.
    pub open spec fn prefetch_safe(self, focused_row: i64) -> bool {
        &&& in_i64(self.offset + 10)
        &&& (focused_row >= self.offset + 10 ==> {
            &&& in_i64(self.offset + as_i64(self.rows@.len() as usize))
            &&& in_i64(focused_row + as_i64(self.viewport_rows))
            &&& in_i64(focused_row + as_i64(self.viewport_rows) + 20)
        })
    }

    /// Whether the focused row is within 10 rows of the window's start or
    /// the viewport (plus 20 rows) runs past its end.
    pub open spec fn spec_needs_prefetch(self, focused_row: i64) -> bool {
        focused_row < self.offset + 10 || focused_row + as_i64(self.viewport_rows) + 20 > self.offset
            + as_i64(self.rows@.len() as usize)
    }

    /// Whether more rows should be fetched around `focused_row`.
    pub fn needs_prefetch(&self, focused_row: i64) -> (r: bool)
        requires
            self.prefetch_safe(focused_row),
        ensures
            r == self.spec_needs_prefetch(focused_row),
    {
        if focused_row < self.offset + 10 {
            return true;
        }
        let window_end = self.offset + self.rows.len() as i64;
        let vp = self.viewport_rows as i64;
        focused_row + vp + 20 > window_end
    }

    /// `fetch_params` does not overflow.
    pub open spec fn fetch_params_safe(self, focused_row: i64) -> bool {
        &&& in_i64(focused_row - 50)
        &&& in_i64(focused_row + as_i64(self.viewport_rows))
        &&& in_i64(focused_row + as_i64(self.viewport_rows) + 50)
        &&& in_i64(focused_row + as_i64(self.viewport_rows) + 50 - if focused_row - 50 > 0 {
            focused_row - 50
        } else {
            0
        })
    }

    /// The window to fetch around `focused_row`: from 50 rows before it
    /// (not below 0) to 50 rows after the viewport, at least 100 rows.
    pub fn fetch_params(&self, focused_row: i64) -> (r: (i64, i64))
        requires
            self.fetch_params_safe(focused_row),
        ensures
            r.0 == if focused_row - 50 > 0 { focused_row - 50 } else { 0 },
            r.1 == if focused_row + as_i64(self.viewport_rows) + 50 - r.0 > 100 {
                focused_row + as_i64(self.viewport_rows) + 50 - r.0
            } else {
                100
            },
            r.0 >= 0,
            r.1 >= 100,
            (r.0 as int, r.1 as int) == fetch_window(as_i64(self.viewport_rows), focused_row as int),
    {
        let start = if focused_row - 50 > 0 { focused_row - 50 } else { 0 };
        let end = focused_row + self.viewport_rows as i64 + 50;
        let span = end - start;
        let limit = if span > 100 { span } else { 100 };
        (start, limit)
    }
}


/// A focused row less than 10 rows into the window, or above its start
/// (a row the window does not hold), always asks for rows.
pub proof fn lemma_prefetch_near_start(w: VirtualWindow, focused_row: i64)
    requires
        focused_row < w.offset + 10,
    ensures
        w.spec_needs_prefetch(focused_row),
{
}

/// A viewport that, with 20 rows to spare, runs past the window's last
/// row asks for rows.
pub proof fn lemma_prefetch_near_end(w: VirtualWindow, focused_row: i64)
    requires
        w.rows@.len() <= i64::MAX,
        w.viewport_rows <= i64::MAX,
        focused_row + w.viewport_rows + 20 > w.offset + w.rows@.len(),
    ensures
        w.spec_needs_prefetch(focused_row),
{
}

/// A focused row at least 10 rows into the window whose viewport, with 20
/// rows to spare, ends inside the window asks for nothing.
pub proof fn lemma_no_prefetch_inside(w: VirtualWindow, focused_row: i64)
    requires
        w.rows@.len() <= i64::MAX,
        w.rows@.len() <= usize::MAX,
        w.viewport_rows <= i64::MAX,
        focused_row >= w.offset + 10,
        focused_row + w.viewport_rows + 20 <= w.offset + w.rows@.len(),
    ensures
        !w.spec_needs_prefetch(focused_row),
{
    assert((w.viewport_rows as i64) as int == w.viewport_rows as int);
    assert(((w.rows@.len() as usize) as i64) as int == w.rows@.len());
}


/// The rows fetched around focused row `f` with a viewport of `vp` rows:
/// the first row and how many.
pub open spec fn fetch_window(vp: int, f: int) -> (int, int) {
    let start = if f - 50 > 0 { f - 50 } else { 0 };
    let span = f + vp + 50 - start;
    (start, if span > 100 { span } else { 100 })
}

/// The fetched window holds the focused row and the whole viewport below
/// it with 50 rows to spare on each side (not above the first row), and
/// at least 100 rows.
pub proof fn lemma_fetch_window_covers_viewport(vp: int, f: int)
    requires
        vp >= 0,
        f >= 0,
    ensures
        ({
            let (start, limit) = fetch_window(vp, f);
            &&& 0 <= start <= f
            &&& start >= f - 50
            &&& (f >= 50 ==> start == f - 50)
            &&& start + limit >= f + vp + 50
            &&& limit >= 100
        }),
{
}

} // verus!
