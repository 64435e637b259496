//! Display widths of text in terminal columns.

use vstd::prelude::*;
use crate::text::{chars_of, push_char};

verus! {

/// What `unicode_width::UnicodeWidthChar::width` reports for a character:
/// `None` for control characters, otherwise its column count.
pub uninterp spec fn unicode_char_width(c: char) -> Option<usize>;

/// Calls `unicode_width::UnicodeWidthChar::width`. Claimed, as the crate's
/// table lookup shows: printable ASCII is one column wide, C0 and C1 control
/// characters have no width, every other character has one; and the result
/// is the named function of the character.
#[verifier::external_body]
fn char_width(c: char) -> (r: Option<usize>)
    ensures
        r == unicode_char_width(c),
        ('\u{20}' <= c && c < '\u{7F}') ==> r == Some(1usize),
        (c < '\u{20}' || ('\u{7F}' <= c && c < '\u{A0}')) ==> r is None,
        c >= '\u{A0}' ==> r is Some,
{
    unicode_width::UnicodeWidthChar::width(c)
}

/// The columns a character takes when laid out alone; control characters
/// count as one.
pub open spec fn cell_width(c: char) -> nat {
    match unicode_char_width(c) {
        Some(w) => w as nat,
        None => 1,
    }
}

/// The columns a character takes (controls count as one): one for printable
/// ASCII and for every control character.
pub fn char_cells(c: char) -> (r: usize)
    ensures
        r == cell_width(c),
        ('\u{20}' <= c && c < '\u{7F}') ==> r == 1,
        (c < '\u{20}' || ('\u{7F}' <= c && c < '\u{A0}')) ==> r == 1,
{
    match char_width(c) {
        Some(w) => w,
        None => 1,
    }
}

/// Columns taken by a character sequence, char by char.
pub open spec fn seq_width(s: Seq<char>) -> nat
    decreases s.len(),
{
    if s.len() == 0 {
        0
    } else {
        seq_width(s.drop_last()) + cell_width(s.last())
    }
}

/// The longest prefix of `s` whose width does not exceed `max_w`, taking
/// characters in order and stopping at the first that does not fit.
pub open spec fn fitting_prefix_len(s: Seq<char>, max_w: nat) -> nat
    decreases s.len(),
{
    if s.len() == 0 || cell_width(s[0]) > max_w {
        0
    } else {
        1 + fitting_prefix_len(s.subrange(1, s.len() as int), (max_w - cell_width(s[0])) as nat)
    }
}

proof fn lemma_fitting_prefix_bound(s: Seq<char>, max_w: nat)
    ensures
        fitting_prefix_len(s, max_w) <= s.len(),
    decreases s.len(),
{
    if s.len() > 0 && cell_width(s[0]) <= max_w {
        lemma_fitting_prefix_bound(s.subrange(1, s.len() as int), (max_w - cell_width(s[0])) as nat);
    }
}

proof fn lemma_seq_width_step(s: Seq<char>, i: int)
    requires
        0 <= i < s.len(),
    ensures
        seq_width(s.subrange(0, i + 1)) == seq_width(s.subrange(0, i)) + cell_width(s[i]),
{
    assert(s.subrange(0, i + 1).drop_last() =~= s.subrange(0, i));
}

/// Taking chars while they fit: after `i` chars of total width `w`, the
/// rest of the prefix is the fitting prefix of the remainder.
proof fn lemma_fitting_prefix_shift(s: Seq<char>, i: int, w: nat, max_w: nat)
    requires
        0 <= i < s.len(),
        w + cell_width(s[i]) <= max_w,
        fitting_prefix_len(s, max_w) == i + fitting_prefix_len(s.subrange(i, s.len() as int), (max_w - w) as nat),
    ensures
        fitting_prefix_len(s, max_w) == i + 1 + fitting_prefix_len(
            s.subrange(i + 1, s.len() as int),
            (max_w - w - cell_width(s[i])) as nat,
        ),
{
    let rest = s.subrange(i, s.len() as int);
    assert(rest.subrange(1, rest.len() as int) =~= s.subrange(i + 1, s.len() as int));
    assert(rest[0] == s[i]);
}

/// How many leading characters of `s` are kept in `max_w` columns: none
/// when there is no room at all, else the longest prefix that fits.
pub open spec fn truncated_len(s: Seq<char>, max_w: nat) -> nat {
    if max_w == 0 {
        0
    } else {
        fitting_prefix_len(s, max_w)
    }
}

/// `s` cut to the longest prefix that fits in `max_w` columns; empty when
/// `max_w` is zero.
pub fn truncate_to_display_width(s: &str, max_w: usize) -> (r: String)
    ensures
        r@ == s@.subrange(0, truncated_len(s@, max_w as nat) as int),
{
    if max_w == 0 {
        let e = String::new();
        assert(e@ =~= s@.subrange(0, 0));
        return e;
    }
    let cs = chars_of(s);
    let mut r = String::new();
    let mut cur: usize = 0;
    let mut i: usize = 0;
    proof {
        assert(s@.subrange(0, s@.len() as int) =~= s@);
        lemma_fitting_prefix_bound(s@, max_w as nat);
    }
    while i < cs.len()
        invariant
            max_w > 0,
            cs@ == s@,
            i <= cs@.len(),
            cur <= max_w,
            r@ == s@.subrange(0, i as int),
            fitting_prefix_len(s@, max_w as nat) == i + fitting_prefix_len(
                s@.subrange(i as int, s@.len() as int),
                (max_w - cur) as nat,
            ),
        decreases cs.len() - i,
    {
        let cw = char_cells(cs[i]);
        if cw > max_w - cur {
            proof {
                let rest = s@.subrange(i as int, s@.len() as int);
                assert(rest[0] == s@[i as int]);
                assert(fitting_prefix_len(rest, (max_w - cur) as nat) == 0);
                assert(r@ == s@.subrange(0, fitting_prefix_len(s@, max_w as nat) as int));
            }
            return r;
        }
        proof {
            lemma_fitting_prefix_shift(s@, i as int, cur as nat, max_w as nat);
        }
        push_char(&mut r, cs[i]);
        cur = cur + cw;
        i += 1;
        assert(r@ =~= s@.subrange(0, i as int));
    }
    proof {
        if i == cs.len() {
            let rest = s@.subrange(i as int, s@.len() as int);
            assert(rest.len() == 0);
            assert(fitting_prefix_len(rest, (max_w - cur) as nat) == 0);
        }
    }
    r
}

/// The width of `s` in columns, char by char, counted up to `cap`.
pub fn capped_width(s: &str, cap: usize) -> (r: usize)
    ensures
        r == if seq_width(s@) < cap { seq_width(s@) } else { cap as nat },
{
    let cs = chars_of(s);
    let mut w: usize = 0;
    let mut i: usize = 0;
    assert(s@.subrange(0, 0) =~= Seq::<char>::empty());
    while i < cs.len()
        invariant
            cs@ == s@,
            i <= cs@.len(),
            w == if seq_width(s@.subrange(0, i as int)) < cap {
                seq_width(s@.subrange(0, i as int))
            } else {
                cap as nat
            },
        decreases cs.len() - i,
    {
        let cw = char_cells(cs[i]);
        proof {
            lemma_seq_width_step(s@, i as int);
        }
        if w < cap {
            if cw >= cap - w {
                w = cap;
            } else {
                w = w + cw;
            }
        }
        i += 1;
    }
    assert(s@.subrange(0, s@.len() as int) =~= s@);
    w
}

} // verus!
