//! The colours the grid picks from the theme: a header's type badge, and
//! the palette entry of an enumerated value. Blending a palette entry
//! towards another colour happens in floating point and is left to the
//! renderer.

use vstd::prelude::*;
use vstd::utf8::encode_utf8;
use vstd::wrapping::u64_specs;
use crate::text::{chars_of, same_text};
use crate::theme::{Rgb, Theme};
use crate::value::{
    affinity, affinity_of, chars_contain, seq_contains, to_uppercase, unicode_upper, ColAffinity, Column,
};

verus! {

/// The colour of a header's type badge: pink for date and time types (by
/// the uppercased declared type), otherwise by affinity.
pub open spec fn badge_rgb(col_type: Seq<char>, t: Theme) -> Rgb {
    let u = unicode_upper(col_type);
    if seq_contains(u, "DATETIME"@) || seq_contains(u, "TIMESTAMP"@) || seq_contains(u, "DATE"@) {
        t.pink
    } else {
        match affinity_of(col_type) {
            ColAffinity::Integer => t.yellow,
            ColAffinity::Real => t.blue,
            ColAffinity::Text => t.teal,
            ColAffinity::Blob => t.purple,
            ColAffinity::Numeric => t.yellow,
        }
    }
}

/// Whether `hay` contains `needle`.
fn string_contains(hay: &String, needle: &str) -> (r: bool)
    ensures
        r == seq_contains(hay@, needle@),
{
    let h = chars_of(hay.as_str());
    let n = chars_of(needle);
    chars_contain(h.as_slice(), n.as_slice())
}

/// The colour of column `col`'s type badge.
pub fn badge_color(col: &Column, theme: &Theme) -> (r: Rgb)
    ensures
        r == badge_rgb(col.col_type@, *theme),
{
    let upper = to_uppercase(col.col_type.as_str());
    if string_contains(&upper, "DATETIME") || string_contains(&upper, "TIMESTAMP") || string_contains(
        &upper,
        "DATE",
    ) {
        return theme.pink;
    }
    match affinity(col.col_type.as_str()) {
        ColAffinity::Integer => theme.yellow,
        ColAffinity::Real => theme.blue,
        ColAffinity::Text => theme.teal,
        ColAffinity::Blob => theme.purple,
        ColAffinity::Numeric => theme.yellow,
    }
}

/// The hash that places a value missing from the column's list: each byte
/// in turn, `h * 131 + byte`, wrapping.
pub open spec fn value_hash(b: Seq<u8>) -> u64
    decreases b.len(),
{
    if b.len() == 0 {
        0
    } else {
        u64_specs::wrapping_add(u64_specs::wrapping_mul(value_hash(b.drop_last()), 131), b.last() as u64)
    }
}

/// The first position of `v` among `values`, if it is there.
pub open spec fn first_position(values: Seq<String>, v: Seq<char>) -> Option<int>
    decreases values.len(),
{
    if values.len() == 0 {
        None
    } else {
        match first_position(values.drop_last(), v) {
            Some(i) => Some(i),
            None => if values.last()@ == v {
                Some(values.len() - 1)
            } else {
                None
            },
        }
    }
}

/// The palette position of an enumerated value: its position among the
/// column's values, otherwise the hash of its bytes.
pub open spec fn enum_position(value: Seq<char>, values: Seq<String>) -> usize {
    match first_position(values, value) {
        Some(i) => i as usize,
        None => value_hash(encode_utf8(value)) as usize,
    }
}

/// The palette position of `value` in a column enumerating `enum_values`.
pub fn enum_color_index(value: &str, enum_values: &[String]) -> (r: usize)
    ensures
        r == enum_position(value@, enum_values@),
{
    let mut i: usize = 0;
    while i < enum_values.len()
        invariant
            i <= enum_values@.len(),
            first_position(enum_values@.subrange(0, i as int), value@) is None,
        decreases enum_values@.len() - i,
    {
        proof {
            assert(enum_values@.subrange(0, i + 1).drop_last() =~= enum_values@.subrange(0, i as int));
        }
        if same_text(enum_values[i].as_str(), value) {
            proof {
                lemma_first_position_prefix(enum_values@, value@, i + 1);
            }
            return i;
        }
        i = i + 1;
    }
    assert(enum_values@.subrange(0, enum_values@.len() as int) =~= enum_values@);
    let bytes = value.as_bytes();
    let mut h: u64 = 0;
    let mut k: usize = 0;
    while k < bytes.len()
        invariant
            k <= bytes@.len(),
            h == value_hash(bytes@.subrange(0, k as int)),
        decreases bytes@.len() - k,
    {
        proof {
            assert(bytes@.subrange(0, k + 1).drop_last() =~= bytes@.subrange(0, k as int));
        }
        h = h.wrapping_mul(131).wrapping_add(bytes[k] as u64);
        k = k + 1;
    }
    assert(bytes@.subrange(0, bytes@.len() as int) =~= bytes@);
    h as usize
}

/// A position found in a prefix is the first position in the whole list.
proof fn lemma_first_position_prefix(values: Seq<String>, v: Seq<char>, n: int)
    requires
        0 <= n <= values.len(),
        first_position(values.subrange(0, n), v) is Some,
    ensures
        first_position(values, v) == first_position(values.subrange(0, n), v),
    decreases values.len() - n,
{
    if n < values.len() {
        assert(values.subrange(0, n + 1).drop_last() =~= values.subrange(0, n));
        lemma_first_position_prefix(values, v, n + 1);
    } else {
        assert(values.subrange(0, n) =~= values);
    }
}

/// The eight base colours of enumerated values, in order.
pub open spec fn palette(t: Theme) -> Seq<Rgb> {
    seq![t.teal, t.blue, t.green, t.yellow, t.purple, t.pink, t.accent, t.red]
}

/// The base colour and the variant of palette position `index`: positions
/// cycle through the eight base colours; variant 0 is the base colour
/// itself, the next ones are blended towards the foreground, the dim
/// foreground and the raised background.
pub fn palette_entry(theme: &Theme, index: usize) -> (r: (Rgb, usize))
    ensures
        r.0 == palette(*theme)[(index % 8) as int],
        r.1 == index / 8,
{
    let base = match index % 8 {
        0 => theme.teal,
        1 => theme.blue,
        2 => theme.green,
        3 => theme.yellow,
        4 => theme.purple,
        5 => theme.pink,
        6 => theme.accent,
        _ => theme.red,
    };
    (base, index / 8)
}

/// The background of a data row before any selection tint: raised when
/// focused, else alternating by the row's parity.
pub open spec fn row_base_rgb(t: Theme, abs_row: i64, is_focused: bool) -> Rgb {
    if is_focused {
        t.bg_raised
    } else if abs_row % 2 == 0 {
        t.bg
    } else {
        t.bg_soft
    }
}

/// The background of row `abs_row` before any selection tint.
pub fn row_base_color(theme: &Theme, abs_row: i64, is_focused: bool) -> (r: Rgb)
    ensures
        r == row_base_rgb(*theme, abs_row, is_focused),
{
    if is_focused {
        return theme.bg_raised;
    }
    let even = if abs_row >= 0 {
        abs_row % 2 == 0
    } else {
        let m: i64 = -(abs_row + 1);
        proof {
            assert(m == -(abs_row + 1));
            assert((abs_row % 2 == 0) == (m % 2 == 1)) by (nonlinear_arith)
                requires
                    m == -(abs_row + 1),
                    m >= 0,
            ;
        }
        m % 2 == 1
    };
    if even {
        theme.bg
    } else {
        theme.bg_soft
    }
}

} // verus!
