//! The texts of a column header: its name line with the sort arrow, and the
//! line below with the type badge, the key icons and the filter marker.

use vstd::prelude::*;
use crate::filter::{any_enabled, filter_of, ColumnFilter};
use crate::symbols::Symbols;
use crate::text::{push_char, push_str, string_of};
use super::view::{badge_text, col_badge, fitted};
use super::width::truncate_to_display_width;
use super::{GridState, SortDir};

verus! {

/// The texts of one column header.
pub struct HeaderText {
    /// The name after a space, cut to leave room for the sort arrow.
    pub name: String,
    /// The sort arrow, when the grid is sorted by this column.
    pub arrow: Option<char>,
    /// The badge line after a space, cut to the column's width.
    pub meta: String,
}

/// The type badge without trailing spaces.
pub open spec fn badge_label(col_type: Seq<char>) -> Seq<char> {
    let b = badge_text(col_type);
    if b == seq!['D', 'T', ' '] {
        seq!['D', 'T']
    } else {
        b
    }
}

/// The sort arrow of column `col_idx`, when the grid is sorted by it.
pub open spec fn header_arrow(state: GridState, col_idx: usize, s: Symbols) -> Option<char> {
    match state.sort {
        Some(sp) => if sp.col_idx == col_idx {
            Some(if sp.direction == SortDir::Asc { s.sort_asc } else { s.sort_desc })
        } else {
            None
        },
        None => None,
    }
}

/// Column `col_idx` is a foreign key.
pub open spec fn is_fk_col(state: GridState, col_idx: usize) -> bool {
    col_idx < state.fk_cols@.len() && state.fk_cols@[col_idx as int]
}

/// Some enabled rule filters the column named `name`.
pub open spec fn filter_active(state: GridState, name: Seq<char>) -> bool {
    match filter_of(state.filter.columns@, name) {
        Some(cf) => any_enabled(cf),
        None => false,
    }
}

/// The key icons after the badge: the primary-key icon, then the
/// foreign-key icon, each after a space.
pub open spec fn key_icons(is_pk: bool, is_fk: bool, s: Symbols) -> Seq<char> {
    (if is_pk { seq![' '] + s.pk_icon@ } else { Seq::empty() }) + (if is_fk {
        seq![' '] + s.fk_icon@
    } else {
        Seq::empty()
    })
}

/// The texts of column `col_idx`'s header in a cell `w` columns wide.
pub open spec fn header_spec(state: GridState, col_idx: usize, w: nat, s: Symbols) -> (Seq<char>, Option<char>, Seq<char>) {
    let col = state.columns@[col_idx as int];
    let arrow = header_arrow(state, col_idx, s);
    let reserve: int = 2 + if arrow is Some { 2int } else { 0int };
    let name_w: nat = if w - reserve > 0 { (w - reserve) as nat } else { 0 };
    let meta = badge_label(col.col_type@) + key_icons(col.is_pk, is_fk_col(state, col_idx), s) + (if filter_active(
        state,
        col.name@,
    ) {
        seq![' '] + s.filter_marker@
    } else {
        Seq::empty()
    });
    (fitted(seq![' '] + col.name@, name_w), arrow, fitted(seq![' '] + meta, w))
}

/// The name line: the name after a space, cut to `name_w` columns.
fn header_name(name: &String, name_w: usize) -> (r: String)
    ensures
        r@ == fitted(seq![' '] + name@, name_w as nat),
{
    proof {
        reveal_strlit(" ");
    }
    let mut spaced = string_of(" ");
    push_str(&mut spaced, name.as_str());
    assert(spaced@ =~= seq![' '] + name@);
    truncate_to_display_width(spaced.as_str(), name_w)
}

/// The badge without trailing spaces, after a space.
fn spaced_badge_label(col: &crate::value::Column) -> (r: String)
    ensures
        r@ == seq![' '] + badge_label(col.col_type@),
{
    proof {
        reveal_strlit(" ");
    }
    let badge = col_badge(col);
    let mut meta = string_of(" ");
    if badge.unicode_len() == 3 && badge.get_char(2) == ' ' {
        push_char(&mut meta, badge.get_char(0));
        push_char(&mut meta, badge.get_char(1));
        assert(badge@ =~= seq!['D', 'T', ' ']);
        assert(meta@ =~= seq![' '] + badge_label(col.col_type@));
    } else {
        push_str(&mut meta, badge);
        assert(badge@ != seq!['D', 'T', ' ']);
        assert(meta@ =~= seq![' '] + badge_label(col.col_type@));
    }
    meta
}

/// The badge line of column `col_idx`, uncut.
fn header_meta(state: &GridState, col_idx: usize, symbols: &Symbols) -> (r: String)
    requires
        col_idx < state.columns@.len(),
        state.filter.wf(),
    ensures
        r@ == seq![' '] + (badge_label(state.columns@[col_idx as int].col_type@) + key_icons(
            state.columns@[col_idx as int].is_pk,
            is_fk_col(*state, col_idx),
            *symbols,
        ) + (if filter_active(*state, state.columns@[col_idx as int].name@) {
            seq![' '] + symbols.filter_marker@
        } else {
            Seq::empty()
        })),
{
    let col = &state.columns[col_idx];
    let mut meta = spaced_badge_label(col);
    let ghost base = meta@;
    if col.is_pk {
        push_char(&mut meta, ' ');
        push_str(&mut meta, symbols.pk_icon.as_str());
    }
    let is_fk = col_idx < state.fk_cols.len() && state.fk_cols[col_idx];
    if is_fk {
        push_char(&mut meta, ' ');
        push_str(&mut meta, symbols.fk_icon.as_str());
    }
    assert(meta@ =~= base + key_icons(col.is_pk, is_fk, *symbols));
    let ghost keyed = meta@;
    let active = match state.filter.column_filter(col.name.as_str()) {
        Some(cf) => any_rule_enabled(cf),
        None => false,
    };
    assert(active == filter_active(*state, col.name@));
    if active {
        push_char(&mut meta, ' ');
        push_str(&mut meta, symbols.filter_marker.as_str());
    }
    assert(meta@ =~= keyed + (if active { seq![' '] + symbols.filter_marker@ } else { Seq::empty() }));
    meta
}

/// The texts of column `col_idx`'s header in a cell `actual_w` columns
/// wide.
pub fn header_text(state: &GridState, col_idx: usize, actual_w: u16, symbols: &Symbols) -> (r: HeaderText)
    requires
        col_idx < state.columns@.len(),
        state.filter.wf(),
    ensures
        (r.name@, r.arrow, r.meta@) == header_spec(*state, col_idx, actual_w as nat, *symbols),
{
    let arrow = match state.sort {
        Some(sp) => if sp.col_idx == col_idx {
            Some(
                match sp.direction {
                    SortDir::Asc => symbols.sort_asc,
                    SortDir::Desc => symbols.sort_desc,
                },
            )
        } else {
            None
        },
        None => None,
    };
    let reserve: usize = if arrow.is_some() { 4 } else { 2 };
    let name_w: usize = (actual_w as usize).saturating_sub(reserve);
    let name = header_name(&state.columns[col_idx].name, name_w);
    let meta_full = header_meta(state, col_idx, symbols);
    let meta = truncate_to_display_width(meta_full.as_str(), actual_w as usize);
    HeaderText { name, arrow, meta }
}

/// Whether some rule of `cf` is enabled.
fn any_rule_enabled(cf: &ColumnFilter) -> (r: bool)
    ensures
        r == any_enabled(*cf),
{
    let mut k: usize = 0;
    while k < cf.rules.len()
        invariant
            k <= cf.rules@.len(),
            forall|j: int| 0 <= j < k ==> !(#[trigger] cf.rules@[j]).enabled,
        decreases cf.rules@.len() - k,
    {
        if cf.rules[k].enabled {
            return true;
        }
        k = k + 1;
    }
    false
}

} // verus!
