//! Strings in order: lexicographic comparison by code point (which is the
//! byte order of their UTF-8 forms) and sorted sets of distinct strings.

use vstd::prelude::*;

verus! {

/// `a` sorts strictly before `b`, comparing code points from the front; a
/// proper prefix sorts first.
pub open spec fn lex_lt(a: Seq<char>, b: Seq<char>) -> bool
    decreases a.len(),
{
    if a.len() == 0 {
        b.len() > 0
    } else if b.len() == 0 {
        false
    } else if a[0] != b[0] {
        a[0] < b[0]
    } else {
        lex_lt(a.drop_first(), b.drop_first())
    }
}

/// Each string sorts strictly before the next.
pub open spec fn strictly_sorted(s: Seq<Seq<char>>) -> bool {
    forall|i: int, j: int| 0 <= i < j < s.len() ==> lex_lt(#[trigger] s[i], #[trigger] s[j])
}

/// The texts of a list of strings.
pub open spec fn texts_of(v: Seq<String>) -> Seq<Seq<char>> {
    v.map_values(|s: String| s@)
}

/// `s` lists the strings of `set`, each once, in order.
pub open spec fn sorted_listing(s: Seq<Seq<char>>, set: Set<Seq<char>>) -> bool {
    &&& strictly_sorted(s)
    &&& forall|t: Seq<char>| #[trigger] set.contains(t) <==> s.contains(t)
}

/// No string sorts before itself.
pub proof fn lemma_lex_irreflexive(a: Seq<char>)
    ensures
        !lex_lt(a, a),
    decreases a.len(),
{
    if a.len() > 0 {
        lemma_lex_irreflexive(a.drop_first());
    }
}

/// Of two different strings, one sorts before the other.
pub proof fn lemma_lex_total(a: Seq<char>, b: Seq<char>)
    requires
        a != b,
    ensures
        lex_lt(a, b) || lex_lt(b, a),
    decreases a.len(),
{
    if a.len() > 0 && b.len() > 0 && a[0] == b[0] {
        if a.drop_first() == b.drop_first() {
            assert(a =~= seq![a[0]] + a.drop_first());
            assert(b =~= seq![b[0]] + b.drop_first());
        }
        lemma_lex_total(a.drop_first(), b.drop_first());
    } else if a.len() > 0 && b.len() > 0 {
        assert(a[0] < b[0] || b[0] < a[0]);
    } else if a.len() == 0 && b.len() == 0 {
        assert(a =~= b);
    }
}

/// Order is transitive.
pub proof fn lemma_lex_transitive(a: Seq<char>, b: Seq<char>, c: Seq<char>)
    requires
        lex_lt(a, b),
        lex_lt(b, c),
    ensures
        lex_lt(a, c),
    decreases a.len(),
{
    if a.len() > 0 && b.len() > 0 && c.len() > 0 && a[0] == b[0] && b[0] == c[0] {
        lemma_lex_transitive(a.drop_first(), b.drop_first(), c.drop_first());
    }
}

/// Order is asymmetric.
pub proof fn lemma_lex_asymmetric(a: Seq<char>, b: Seq<char>)
    requires
        lex_lt(a, b),
    ensures
        !lex_lt(b, a),
{
    if lex_lt(b, a) {
        lemma_lex_transitive(a, b, a);
        lemma_lex_irreflexive(a);
    }
}

proof fn lemma_lex_skip(a: Seq<char>, b: Seq<char>, i: int)
    requires
        0 <= i <= a.len(),
        i <= b.len(),
        a.subrange(0, i) == b.subrange(0, i),
    ensures
        lex_lt(a, b) == lex_lt(a.subrange(i, a.len() as int), b.subrange(i, b.len() as int)),
    decreases i,
{
    if i > 0 {
        assert(a[0] == a.subrange(0, i)[0]);
        assert(b[0] == b.subrange(0, i)[0]);
        let a1 = a.drop_first();
        let b1 = b.drop_first();
        assert(a1.subrange(0, i - 1) =~= a.subrange(1, i));
        assert(b1.subrange(0, i - 1) =~= b.subrange(1, i));
        assert(a.subrange(1, i) =~= a.subrange(0, i).subrange(1, i));
        assert(b.subrange(1, i) =~= b.subrange(0, i).subrange(1, i));
        lemma_lex_skip(a1, b1, i - 1);
        assert(a1.subrange(i - 1, a1.len() as int) =~= a.subrange(i, a.len() as int));
        assert(b1.subrange(i - 1, b1.len() as int) =~= b.subrange(i, b.len() as int));
    } else {
        assert(a.subrange(0, a.len() as int) =~= a);
        assert(b.subrange(0, b.len() as int) =~= b);
    }
}

/// Whether `a` sorts strictly before `b`.
pub fn str_lt(a: &str, b: &str) -> (r: bool)
    ensures
        r == lex_lt(a@, b@),
{
    let na = a.unicode_len();
    let nb = b.unicode_len();
    let mut i: usize = 0;
    while i < na && i < nb
        invariant
            na == a@.len(),
            nb == b@.len(),
            i <= na,
            i <= nb,
            a@.subrange(0, i as int) == b@.subrange(0, i as int),
        decreases na - i,
    {
        let ca = a.get_char(i);
        let cb = b.get_char(i);
        if ca != cb {
            proof {
                lemma_lex_skip(a@, b@, i as int);
                let ra = a@.subrange(i as int, a@.len() as int);
                let rb = b@.subrange(i as int, b@.len() as int);
                assert(ra[0] == ca);
                assert(rb[0] == cb);
            }
            return ca < cb;
        }
        assert(a@.subrange(0, i + 1) =~= a@.subrange(0, i as int).push(ca));
        assert(b@.subrange(0, i + 1) =~= b@.subrange(0, i as int).push(cb));
        i = i + 1;
    }
    proof {
        lemma_lex_skip(a@, b@, i as int);
    }
    i == na && i < nb
}

/// Inserts `t` into a strictly sorted list of strings, unless it is there.
pub fn insert_sorted(out: &mut Vec<String>, t: String)
    requires
        strictly_sorted(texts_of(old(out)@)),
    ensures
        strictly_sorted(texts_of(final(out)@)),
        forall|u: Seq<char>| #[trigger] texts_of(final(out)@).contains(u) <==> (texts_of(old(out)@).contains(u) || u == t@),
{
    let ghost before = texts_of(out@);
    let mut p: usize = 0;
    while p < out.len() && str_lt(out[p].as_str(), t.as_str())
        invariant
            p <= out@.len(),
            before == texts_of(out@),
            forall|k: int| 0 <= k < p ==> lex_lt(#[trigger] before[k], t@),
        decreases out@.len() - p,
    {
        p = p + 1;
    }
    if p < out.len() {
        if str_lt(t.as_str(), out[p].as_str()) {
        } else {
            proof {
                if before[p as int] != t@ {
                    lemma_lex_total(before[p as int], t@);
                }
                assert(before.contains(t@)) by {
                    assert(before[p as int] == t@);
                }
            }
            return;
        }
    }
    proof {
        assert forall|k: int| p <= k < before.len() implies lex_lt(t@, #[trigger] before[k]) by {
            if k > p {
                lemma_lex_transitive(t@, before[p as int], before[k]);
            }
        }
    }
    let ghost tv = t@;
    out.insert(p, t);
    proof {
        let after = texts_of(out@);
        assert(after =~= before.insert(p as int, tv));
        assert forall|i: int, j: int| 0 <= i < j < after.len() implies lex_lt(#[trigger] after[i], #[trigger] after[j]) by {
            if j < p {
            } else if i < p && j == p {
            } else if i < p && j > p {
                assert(after[j] == before[j - 1]);
                lemma_lex_transitive(before[i], tv, before[j - 1]);
            } else if i == p {
                assert(after[j] == before[j - 1]);
            } else {
                assert(after[i] == before[i - 1]);
                assert(after[j] == before[j - 1]);
            }
        }
        assert forall|u: Seq<char>| #[trigger] after.contains(u) <==> (before.contains(u) || u == tv) by {
            if after.contains(u) {
                let k = choose|k: int| 0 <= k < after.len() && after[k] == u;
                if k < p {
                    assert(before[k] == u);
                } else if k > p {
                    assert(before[k - 1] == u);
                }
            }
            if before.contains(u) {
                let k = choose|k: int| 0 <= k < before.len() && before[k] == u;
                if k < p {
                    assert(after[k] == u);
                } else {
                    assert(after[k + 1] == u);
                }
            }
            if u == tv {
                assert(after[p as int] == u);
            }
        }
    }
}

} // verus!
