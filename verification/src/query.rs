//! SQL text construction. Values always stay bound parameters; object
//! names are quoted here in one place.

use vstd::prelude::*;
use crate::text::{chars_of, concat_map, lemma_concat_map_add, lemma_concat_map_single, lemma_concat_map_step, push_char};

verus! {

/// How one character of an identifier appears inside double quotes.
pub open spec fn quote_piece(c: char) -> Seq<char> {
    if c == '"' {
        seq!['"', '"']
    } else {
        seq![c]
    }
}

/// The identifier body with every `"` doubled.
pub open spec fn escape_quotes(s: Seq<char>) -> Seq<char> {
    concat_map(s, |c: char| quote_piece(c))
}

/// A double-quoted SQL identifier.
pub open spec fn quoted(s: Seq<char>) -> Seq<char> {
    seq!['"'] + escape_quotes(s) + seq!['"']
}

/// Reading back the body of a quoted identifier: `""` stands for `"`.
pub open spec fn unescape_quotes(s: Seq<char>) -> Seq<char>
    decreases s.len(),
{
    if s.len() == 0 {
        Seq::empty()
    } else if s.len() >= 2 && s[0] == '"' && s[1] == '"' {
        seq!['"'] + unescape_quotes(s.subrange(2, s.len() as int))
    } else {
        seq![s[0]] + unescape_quotes(s.subrange(1, s.len() as int))
    }
}

/// Reading back a quoted identifier.
pub open spec fn unquote(q: Seq<char>) -> Seq<char> {
    unescape_quotes(q.subrange(1, q.len() - 1))
}

/// Escaping is undone by reading back, from the front.
proof fn lemma_unescape_escape(s: Seq<char>)
    ensures
        unescape_quotes(escape_quotes(s)) == s,
    decreases s.len(),
{
    let f = |c: char| quote_piece(c);
    if s.len() > 0 {
        let rest = s.subrange(1, s.len() as int);
        assert(s =~= seq![s[0]] + rest);
        lemma_concat_map_add(seq![s[0]], rest, f);
        lemma_concat_map_single(s[0], f);
        lemma_unescape_escape(rest);
        let e = escape_quotes(s);
        if s[0] == '"' {
            assert(e.subrange(2, e.len() as int) =~= escape_quotes(rest));
        } else {
            assert(e.subrange(1, e.len() as int) =~= escape_quotes(rest));
        }
    } else {
        assert(escape_quotes(s) =~= Seq::<char>::empty());
    }
}

/// An identifier read back from its quoted form is the identifier itself:
/// no name can end the quoted region early.
pub proof fn lemma_quote_round_trip(s: Seq<char>)
    ensures
        unquote(quoted(s)) == s,
{
    let q = quoted(s);
    assert(q.subrange(1, q.len() - 1) =~= escape_quotes(s));
    lemma_unescape_escape(s);
}

/// Quotes an identifier for SQLite, doubling embedded double quotes.
pub fn quote_identifier(identifier: &str) -> (r: String)
    ensures
        r@ == quoted(identifier@),
{
    let cs = chars_of(identifier);
    let mut r = String::new();
    push_char(&mut r, '"');
    let ghost f = |c: char| quote_piece(c);
    let mut i: usize = 0;
    while i < cs.len()
        invariant
            cs@ == identifier@,
            i <= cs@.len(),
            r@ == seq!['"'] + concat_map(cs@.subrange(0, i as int), f),
            f == (|c: char| quote_piece(c)),
        decreases cs.len() - i,
    {
        let c = cs[i];
        if c == '"' {
            push_char(&mut r, '"');
            push_char(&mut r, '"');
        } else {
            push_char(&mut r, c);
        }
        proof {
            lemma_concat_map_step(cs@, i as int, f);
        }
        i += 1;
        assert(r@ =~= seq!['"'] + concat_map(cs@.subrange(0, i as int), f));
    }
    push_char(&mut r, '"');
    assert(cs@.subrange(0, cs@.len() as int) =~= identifier@);
    assert(r@ =~= quoted(identifier@));
    r
}

} // verus!
