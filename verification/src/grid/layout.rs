//! Natural column widths from sampled rows.

use std::collections::HashMap;
use vstd::prelude::*;
use crate::text::{int_decimal, nat_decimal, push_decimal, push_signed_decimal, push_str};
use crate::value::{Column, SqlValue};
use super::width::{capped_width, seq_width};

verus! {

/// Widest a column is laid out on its own.
pub const MAX_COL_WIDTH: u16 = 40;

/// Narrowest a column is laid out on its own.
pub const MIN_COL_WIDTH: u16 = 6;

/// The text a value shows in a cell before truncation.
pub open spec fn cell_text(v: SqlValue) -> Seq<char> {
    match v {
        SqlValue::Null => seq!['N', 'U', 'L', 'L'],
        SqlValue::Integer(n) => int_decimal(n as int),
        SqlValue::Real(r) => r.fixed6@,
        SqlValue::Text(t) => t@,
        SqlValue::Blob(b) => seq!['<', 'b', 'l', 'o', 'b', ' '] + nat_decimal(b@.len()) + seq![
            ' ',
            'b',
            'y',
            't',
            'e',
            's',
            '>',
        ],
    }
}

/// `min(x, cap)`.
pub open spec fn cap(x: nat, c: nat) -> nat {
    if x < c {
        x
    } else {
        c
    }
}

/// The widest sampled value of column `i` (each capped), over `rows`.
pub open spec fn content_width(rows: Seq<Vec<SqlValue>>, i: int) -> nat
    decreases rows.len(),
{
    if rows.len() == 0 {
        0
    } else {
        let rest = content_width(rows.drop_last(), i);
        let row = rows.last();
        let w = if 0 <= i < row@.len() {
            cap(seq_width(cell_text(row@[i])), MAX_COL_WIDTH as nat)
        } else {
            0
        };
        if w > rest {
            w
        } else {
            rest
        }
    }
}

/// The header's width: a leading space, the name, and the key markers.
pub open spec fn header_width(col: Column, is_fk: bool) -> nat {
    cap(seq_width(col.name@), MAX_COL_WIDTH as nat) + 1 + (if col.is_pk {
        3nat
    } else {
        0nat
    }) + (if is_fk {
        3nat
    } else {
        0nat
    })
}

/// A column's natural width: its widest header or sampled value plus one
/// column of padding on each side, between the minimum and maximum width.
pub open spec fn natural_width(col: Column, is_fk: bool, rows: Seq<Vec<SqlValue>>, i: int) -> nat {
    let h = header_width(col, is_fk);
    let c = content_width(rows, i);
    let m = if h > c {
        h
    } else {
        c
    };
    let w = m + 2;
    if w < MIN_COL_WIDTH {
        MIN_COL_WIDTH as nat
    } else if w > MAX_COL_WIDTH {
        MAX_COL_WIDTH as nat
    } else {
        w
    }
}

/// The width of column `i`: a manual width when one was set for it,
/// otherwise its natural width.
pub open spec fn column_width(
    columns: Seq<Column>,
    rows: Seq<Vec<SqlValue>>,
    manual: Map<usize, u16>,
    fk_cols: Seq<bool>,
    i: int,
) -> nat {
    if manual.dom().contains(i as usize) {
        manual[i as usize] as nat
    } else {
        natural_width(columns[i], 0 <= i < fk_cols.len() && fk_cols[i], rows, i)
    }
}

/// The text a value shows in a cell before truncation.
pub fn cell_text_of(v: &SqlValue) -> (r: String)
    ensures
        r@ == cell_text(*v),
{
    let mut s = String::new();
    match v {
        SqlValue::Null => {
            crate::text::push_char(&mut s, 'N');
            crate::text::push_char(&mut s, 'U');
            crate::text::push_char(&mut s, 'L');
            crate::text::push_char(&mut s, 'L');
        },
        SqlValue::Integer(n) => push_signed_decimal(&mut s, *n),
        SqlValue::Real(r) => push_str(&mut s, r.fixed6.as_str()),
        SqlValue::Text(t) => push_str(&mut s, t.as_str()),
        SqlValue::Blob(b) => {
            crate::text::push_char(&mut s, '<');
            crate::text::push_char(&mut s, 'b');
            crate::text::push_char(&mut s, 'l');
            crate::text::push_char(&mut s, 'o');
            crate::text::push_char(&mut s, 'b');
            crate::text::push_char(&mut s, ' ');
            push_decimal(&mut s, b.len() as u64);
            crate::text::push_char(&mut s, ' ');
            crate::text::push_char(&mut s, 'b');
            crate::text::push_char(&mut s, 'y');
            crate::text::push_char(&mut s, 't');
            crate::text::push_char(&mut s, 'e');
            crate::text::push_char(&mut s, 's');
            crate::text::push_char(&mut s, '>');
        },
    }
    assert(s@ =~= cell_text(*v));
    s
}

fn content_width_of(rows: &Vec<Vec<SqlValue>>, i: usize) -> (r: u16)
    ensures
        r == content_width(rows@, i as int),
        r <= MAX_COL_WIDTH,
{
    let mut w: u16 = 0;
    let mut k: usize = 0;
    assert(rows@.subrange(0, 0) =~= Seq::<Vec<SqlValue>>::empty());
    while k < rows.len()
        invariant
            k <= rows@.len(),
            w == content_width(rows@.subrange(0, k as int), i as int),
            w <= MAX_COL_WIDTH,
        decreases rows.len() - k,
    {
        let row = &rows[k];
        let cw: u16 = if i < row.len() {
            let t = cell_text_of(&row[i]);
            capped_width(t.as_str(), MAX_COL_WIDTH as usize) as u16
        } else {
            0
        };
        proof {
            assert(rows@.subrange(0, k + 1).drop_last() =~= rows@.subrange(0, k as int));
            assert(rows@.subrange(0, k + 1).last() == rows@[k as int]);
        }
        if cw > w {
            w = cw;
        }
        k += 1;
    }
    assert(rows@.subrange(0, rows@.len() as int) =~= rows@);
    w
}

/// Each column's width: a manual width when set, otherwise its natural
/// width from the sampled rows. The available width does not change a
/// column's own width (narrow viewports scroll horizontally instead).
pub fn compute_col_widths(
    columns: &Vec<Column>,
    rows: &Vec<Vec<SqlValue>>,
    manual_widths: &HashMap<usize, u16>,
    fk_cols: &Vec<bool>,
) -> (r: Vec<u16>)
    ensures
        r@.len() == columns@.len(),
        forall|i: int|
            0 <= i < columns@.len() ==> #[trigger] r@[i] == column_width(
                columns@,
                rows@,
                manual_widths@,
                fk_cols@,
                i,
            ),
{
    let mut out: Vec<u16> = Vec::new();
    let mut i: usize = 0;
    while i < columns.len()
        invariant
            i <= columns@.len(),
            out@.len() == i,
            forall|k: int|
                0 <= k < i ==> #[trigger] out@[k] == column_width(
                    columns@,
                    rows@,
                    manual_widths@,
                    fk_cols@,
                    k,
                ),
        decreases columns.len() - i,
    {
        let w: u16 = match manual_widths.get(&i) {
            Some(m) => *m,
            None => {
                let col = &columns[i];
                let is_fk = i < fk_cols.len() && fk_cols[i];
                let nw = capped_width(col.name.as_str(), MAX_COL_WIDTH as usize) as u16;
                let mut h: u16 = nw + 1;
                if col.is_pk {
                    h = h + 3;
                }
                if is_fk {
                    h = h + 3;
                }
                let c = content_width_of(rows, i);
                let m = if h > c { h } else { c };
                let w = m + 2;
                if w < MIN_COL_WIDTH {
                    MIN_COL_WIDTH
                } else if w > MAX_COL_WIDTH {
                    MAX_COL_WIDTH
                } else {
                    w
                }
            },
        };
        out.push(w);
        i += 1;
    }
    out
}

} // verus!
