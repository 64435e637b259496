//! The A–Z rail shown beside a large table sorted by a text column.

use vstd::prelude::*;
use crate::value::{affinity, affinity_of, ColAffinity, SqlValue};
use super::view::Rect;
use super::GridState;
use super::virtual_scroll::as_i64;

verus! {

/// Columns the rail takes, left of the scrollbar.
pub const RAIL_WIDTH: u16 = 2;

/// Fewest rows for which the rail is shown.
pub const RAIL_MIN_ROWS: i64 = 200;

/// The rail is shown for tables of at least 200 rows sorted by a text
/// column.
pub open spec fn shows_rail(state: GridState) -> bool {
    &&& state.window.total_rows >= RAIL_MIN_ROWS
    &&& state.sort is Some
    &&& state.sort->0.col_idx < state.columns@.len()
    &&& affinity_of(state.columns@[state.sort->0.col_idx as int].col_type@) == ColAffinity::Text
}

/// Whether the rail is shown.
pub fn should_show_rail(state: &GridState) -> (r: bool)
    ensures
        r == shows_rail(*state),
{
    if state.window.total_rows < RAIL_MIN_ROWS {
        return false;
    }
    match &state.sort {
        Some(sort) => {
            if sort.col_idx < state.columns.len() {
                match affinity(state.columns[sort.col_idx].col_type.as_str()) {
                    ColAffinity::Text => true,
                    _ => false,
                }
            } else {
                false
            }
        },
        None => false,
    }
}

/// `#` followed by `A` to `Z`.
pub open spec fn rail_letters() -> Seq<char> {
    seq!['#'] + Seq::new(26, |i: int| (0x41 + i) as char)
}

/// `ceil(a / b)` for `b > 0`.
pub open spec fn ceil_div(a: int, b: int) -> int {
    (a + b - 1) / b
}

/// The letters shown on a track of `track_height` rows: all of them when
/// they fit, else every `ceil(27 / track_height)`-th one from `#`.
pub open spec fn shown_letters(track_height: nat) -> Seq<char> {
    let all = rail_letters();
    if track_height >= all.len() {
        all
    } else if track_height == 0 {
        seq!['#']
    } else {
        let step = ceil_div(all.len() as int, track_height as int);
        Seq::new(ceil_div(all.len() as int, step) as nat, |i: int| all[i * step])
    }
}

/// The rail's letters, `#` first.
fn all_letters() -> (v: Vec<char>)
    ensures
        v@ == rail_letters(),
{
    let mut v: Vec<char> = Vec::new();
    v.push('#');
    let mut i: u32 = 0;
    while i < 26
        invariant
            i <= 26,
            v@ == seq!['#'] + Seq::new(i as nat, |k: int| (0x41 + k) as char),
        decreases 26 - i,
    {
        v.push(char_from_ascii((0x41 + i) as u8));
        i = i + 1;
        assert(v@ =~= seq!['#'] + Seq::new(i as nat, |k: int| (0x41 + k) as char));
    }
    v
}

/// The character of an ASCII code.
fn char_from_ascii(b: u8) -> (c: char)
    requires
        b < 128,
    ensures
        c == (b as int) as char,
{
    b as char
}

proof fn lemma_shown_letters_fit(h: int, n: int)
    by (nonlinear_arith)
    requires
        0 < h < n,
    ensures
        ({
            let step = (n + h - 1) / h;
            &&& step >= 1
            &&& (n + step - 1) / step <= h
            &&& (n + step - 1) / step >= 1
            &&& ((n + step - 1) / step - 1) * step < n
        }),
{
    let step = (n + h - 1) / h;
    assert(step * h >= n);
    assert(step >= 1);
    let c = (n + step - 1) / step;
    assert(c * step <= n + step - 1);
    assert(c * step < n + step);
    assert((c - 1) * step < n);
    assert(n + step - 1 >= step);
    assert(c >= 1);
    assert(c <= h) by {
        if c > h {
            assert(c >= h + 1);
            assert(c * step >= (h + 1) * step);
            assert((h + 1) * step == h * step + step);
        }
    }
}

/// The letters shown on a track of `track_height` rows.
pub fn letters_to_show(track_height: usize) -> (v: Vec<char>)
    ensures
        v@ == shown_letters(track_height as nat),
        track_height > 0 ==> v@.len() <= track_height,
        v@.len() >= 1,
{
    let letters = all_letters();
    let n = letters.len();
    if track_height >= n {
        letters
    } else if track_height == 0 {
        let mut v: Vec<char> = Vec::new();
        v.push(letters[0]);
        assert(v@ =~= shown_letters(0));
        v
    } else {
        proof {
            lemma_shown_letters_fit(track_height as int, 27);
        }
        let step = (n + track_height - 1) / track_height;
        let count = (n + step - 1) / step;
        let mut v: Vec<char> = Vec::new();
        let mut i: usize = 0;
        while i < count
            invariant
                n == 27,
                letters@ == rail_letters(),
                step >= 1,
                count == ceil_div(27, step as int),
                (count - 1) * step < 27,
                count >= 1,
                i <= count,
                v@ == Seq::new(i as nat, |k: int| letters@[k * step]),
            decreases count - i,
        {
            proof {
                assert(i * step <= (count - 1) * step) by (nonlinear_arith)
                    requires
                        i < count,
                        step >= 1,
                ;
            }
            v.push(letters[i * step]);
            i = i + 1;
            assert(v@ =~= Seq::new(i as nat, |k: int| letters@[k * step]));
        }
        assert(v@ =~= shown_letters(track_height as nat));
        v
    }
}

/// The first character of the uppercase mapping of `c` (the character
/// itself when it has none).
pub uninterp spec fn uppercase_first(c: char) -> char;

/// The first character that `char::to_uppercase` yields for `c`, or `c`
/// when it yields none. The contract names the Unicode mapping and states
/// only its ASCII part: `a`..`z` map to `A`..`Z`, other ASCII characters to
/// themselves.
#[verifier::external_body]
fn first_uppercase(c: char) -> (r: char)
    ensures
        r == uppercase_first(c),
        'a' <= c <= 'z' ==> r as int == c as int - 32,
        '\0' <= c <= '\u{7f}' && !('a' <= c <= 'z') ==> r == c,
{
    c.to_uppercase().next().unwrap_or(c)
}

/// An ASCII letter.
pub open spec fn is_ascii_letter(c: char) -> bool {
    ('A' <= c <= 'Z') || ('a' <= c <= 'z')
}

/// The rail letter a value starting with `c` files under: its uppercase
/// form when that is an ASCII letter, else `#`.
pub open spec fn rail_letter(c: char) -> char {
    if is_ascii_letter(uppercase_first(c)) {
        uppercase_first(c)
    } else {
        '#'
    }
}

/// The rail letter of a leading character.
pub fn normalize_letter(ch: char) -> (r: char)
    ensures
        r == rail_letter(ch),
        r == '#' || ('A' <= r <= 'Z') || ('a' <= r <= 'z'),
{
    let upper = first_uppercase(ch);
    if ('A' <= upper && upper <= 'Z') || ('a' <= upper && upper <= 'z') {
        upper
    } else {
        '#'
    }
}

/// The row whose sorted value the rail highlights: the focused row when it
/// is loaded, else the first row of the viewport.
pub open spec fn rail_row(state: GridState) -> Option<Vec<SqlValue>> {
    let f = as_i64(state.focused_row) as i64;
    if state.window.holds(f) {
        Some(state.window.rows@[state.window.index_of(f)])
    } else if state.window.holds(state.viewport_start) {
        Some(state.window.rows@[state.window.index_of(state.viewport_start)])
    } else {
        None
    }
}

/// The letter the rail highlights: that of the first character of the
/// sorted column's text in the rail row.
pub open spec fn rail_active_letter(state: GridState) -> Option<char> {
    match rail_row(state) {
        Some(row) => match state.sort {
            Some(s) => if s.col_idx < row@.len() {
                match row@[s.col_idx as int] {
                    SqlValue::Text(t) => if t@.len() > 0 {
                        Some(rail_letter(t@[0]))
                    } else {
                        None
                    },
                    _ => None,
                }
            } else {
                None
            },
            None => None,
        },
        None => None,
    }
}

/// The letter the rail highlights, if any.
pub fn active_letter(state: &GridState) -> (r: Option<char>)
    requires
        state.window.offset_safe(as_i64(state.focused_row) as i64),
        state.window.offset_safe(state.viewport_start),
    ensures
        r == rail_active_letter(*state),
{
    let row = match state.window.get_row(state.focused_row as i64) {
        Some(row) => row,
        None => match state.window.get_row(state.viewport_start) {
            Some(row) => row,
            None => {
                return None;
            },
        },
    };
    let col = match &state.sort {
        Some(s) => s.col_idx,
        None => {
            return None;
        },
    };
    if col >= row.len() {
        return None;
    }
    match &row[col] {
        SqlValue::Text(t) => {
            if t.as_str().unicode_len() == 0 {
                None
            } else {
                Some(normalize_letter(t.as_str().get_char(0)))
            }
        },
        _ => None,
    }
}

/// The rail's first column and first row, and how many letters it shows,
/// in an area of this geometry; none when the track is empty.
pub open spec fn rail_letter_at(area: Rect, x: int, y: int) -> Option<char> {
    let track = if area.height >= 3 { area.height - 3 } else { 0 };
    let rail_x = area.x + (if area.width >= 3 { area.width - 3 } else { 0 });
    let rail_y = area.y + 3;
    let letters = shown_letters(track as nat);
    if track == 0 {
        None
    } else if x < rail_x || x >= rail_x + RAIL_WIDTH || y < rail_y || y >= rail_y + letters.len() {
        None
    } else {
        Some(letters[y - rail_y])
    }
}

/// The area's coordinates fit in `u16` where the rail's position is
/// computed.
pub open spec fn rail_geometry_ok(area: Rect, x: u16) -> bool {
    let rail_x = area.x + (if area.width >= 3 { area.width - 3 } else { 0 });
    &&& area.x + area.width <= u16::MAX
    &&& area.y + area.height <= u16::MAX
    &&& (x >= rail_x ==> rail_x + RAIL_WIDTH <= u16::MAX)
}

/// The rail letter under the pointer at `(x, y)`, when the rail is shown.
pub fn hit_test(area: Rect, state: &GridState, x: u16, y: u16) -> (r: Option<char>)
    requires
        rail_geometry_ok(area, x),
    ensures
        r == if shows_rail(*state) { rail_letter_at(area, x as int, y as int) } else { None },
{
    if !should_show_rail(state) {
        return None;
    }
    let track_height = area.height.saturating_sub(3) as usize;
    if track_height == 0 {
        return None;
    }
    let rail_x = area.x + area.width.saturating_sub(RAIL_WIDTH + 1);
    let rail_y_start = area.y + 3;
    let letters = letters_to_show(track_height);
    let rail_y_end = rail_y_start + letters.len() as u16;
    if x < rail_x || x >= rail_x + RAIL_WIDTH || y < rail_y_start || y >= rail_y_end {
        return None;
    }
    Some(letters[(y - rail_y_start) as usize])
}

} // verus!
