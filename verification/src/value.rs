//! SQL values, column metadata and SQLite type affinity.

use vstd::prelude::*;
use vstd::utf8::is_ascii_chars;

verus! {

/// A floating-point value as the library reads it: its IEEE-754 bit
/// pattern, and the two renderings the interface shows (`to_string` and
/// six fixed decimals). The host fills all three from the same number.
#[derive(Clone, Debug)]
pub struct RealNumber {
    pub bits: u64,
    pub display: String,
    pub fixed6: String,
}

/// A single SQLite value.
#[derive(Clone, Debug)]
pub enum SqlValue {
    Null,
    Integer(i64),
    Real(RealNumber),
    Text(String),
    Blob(Vec<u8>),
}

/// The mathematical value of a [`SqlValue`].
pub enum ValueModel {
    Null,
    Integer(i64),
    Real(u64, Seq<char>, Seq<char>),
    Text(Seq<char>),
    Blob(Seq<u8>),
}

impl View for SqlValue {
    type V = ValueModel;

    open spec fn view(&self) -> ValueModel {
        match self {
            SqlValue::Null => ValueModel::Null,
            SqlValue::Integer(n) => ValueModel::Integer(*n),
            SqlValue::Real(r) => ValueModel::Real(r.bits, r.display@, r.fixed6@),
            SqlValue::Text(t) => ValueModel::Text(t@),
            SqlValue::Blob(b) => ValueModel::Blob(b@),
        }
    }
}

/// A copy of a value.
pub fn clone_value(v: &SqlValue) -> (r: SqlValue)
    ensures
        r@ == v@,
{
    match v {
        SqlValue::Null => SqlValue::Null,
        SqlValue::Integer(n) => SqlValue::Integer(*n),
        SqlValue::Real(r) => SqlValue::Real(
            RealNumber { bits: r.bits, display: r.display.clone(), fixed6: r.fixed6.clone() },
        ),
        SqlValue::Text(t) => SqlValue::Text(t.clone()),
        SqlValue::Blob(b) => SqlValue::Blob(b.clone()),
    }
}

/// The five SQLite column affinities.
#[derive(PartialEq, Eq, Structural, Clone, Copy, Debug)]
pub enum ColAffinity {
    Integer,
    Text,
    Blob,
    Real,
    Numeric,
}

/// Column metadata as reported by `PRAGMA table_xinfo`.
#[derive(Clone, Debug)]
pub struct Column {
    pub cid: i64,
    pub name: String,
    pub col_type: String,
    pub not_null: bool,
    pub default_value: Option<String>,
    pub is_pk: bool,
    pub pk_position: i64,
    pub writable: bool,
}

/// How rows of a table are identified stably.
#[derive(Clone, Debug)]
pub enum RowIdentity {
    /// A physical rowid reachable under this alias.
    RowidAlias(String),
    /// The primary-key columns, in key order.
    PrimaryKey(Vec<String>),
}

/// ASCII upper-casing of one character.
pub open spec fn ascii_upper(c: char) -> char {
    if 'a' <= c && c <= 'z' {
        ((c as u32) - 32) as char
    } else {
        c
    }
}

/// ASCII upper-casing of a character sequence.
pub open spec fn ascii_upper_seq(s: Seq<char>) -> Seq<char> {
    s.map_values(|c: char| ascii_upper(c))
}

/// `needle` occurs in `hay` at position `i`.
pub open spec fn occurs_at(hay: Seq<char>, needle: Seq<char>, i: int) -> bool {
    0 <= i && i + needle.len() <= hay.len() && hay.subrange(i, i + needle.len()) == needle
}

/// `needle` occurs somewhere in `hay`.
pub open spec fn seq_contains(hay: Seq<char>, needle: Seq<char>) -> bool {
    exists|i: int| occurs_at(hay, needle, i)
}

/// SQLite's affinity rules (in order) applied to a declared column type.
pub open spec fn affinity_of(col_type: Seq<char>) -> ColAffinity {
    let t = ascii_upper_seq(col_type);
    if seq_contains(t, seq!['I', 'N', 'T']) {
        ColAffinity::Integer
    } else if seq_contains(t, seq!['C', 'H', 'A', 'R']) || seq_contains(t, seq!['C', 'L', 'O', 'B'])
        || seq_contains(t, seq!['T', 'E', 'X', 'T']) {
        ColAffinity::Text
    } else if seq_contains(t, seq!['B', 'L', 'O', 'B']) || t.len() == 0 {
        ColAffinity::Blob
    } else if seq_contains(t, seq!['R', 'E', 'A', 'L']) || seq_contains(t, seq!['F', 'L', 'O', 'A'])
        || seq_contains(t, seq!['D', 'O', 'U', 'B']) {
        ColAffinity::Real
    } else {
        ColAffinity::Numeric
    }
}

/// ASCII upper-casing of one character.
pub fn to_ascii_upper(c: char) -> (r: char)
    ensures
        r == ascii_upper(c),
{
    if 'a' <= c && c <= 'z' {
        let b: u8 = (c as u8) - 32;
        b as char
    } else {
        c
    }
}

/// Whether `needle` occurs in `hay`.
pub fn chars_contain(hay: &[char], needle: &[char]) -> (r: bool)
    ensures
        r == seq_contains(hay@, needle@),
{
    if needle.len() > hay.len() {
        assert forall|i: int| !occurs_at(hay@, needle@, i) by {}
        return false;
    }
    if needle.len() == 0 {
        assert(hay@.subrange(0, 0) =~= needle@);
        assert(occurs_at(hay@, needle@, 0));
        return true;
    }
    let last = hay.len() - needle.len();
    assert(hay@.len() <= usize::MAX);
    let mut i: usize = 0;
    while i <= last
        invariant
            last == hay@.len() - needle@.len(),
            0 < needle@.len() <= hay@.len(),
            hay@.len() <= usize::MAX,
            i <= last + 1,
            forall|k: int| 0 <= k < i ==> !occurs_at(hay@, needle@, k),
        decreases last + 1 - i,
    {
        let mut j: usize = 0;
        let mut ok = true;
        while j < needle.len()
            invariant
                i <= last,
                i + needle@.len() <= hay@.len(),
                hay@.len() <= usize::MAX,
                0 < needle@.len() <= hay@.len(),
                last == hay@.len() - needle@.len(),
                j <= needle@.len(),
                ok == forall|m: int| 0 <= m < j ==> hay@[i + m] == needle@[m],
            decreases needle.len() - j,
        {
            if hay[i + j] != needle[j] {
                ok = false;
            }
            j += 1;
        }
        if ok {
            assert(hay@.subrange(i as int, i + needle@.len()) =~= needle@);
            assert(occurs_at(hay@, needle@, i as int));
            return true;
        }
        assert(!occurs_at(hay@, needle@, i as int)) by {
            if occurs_at(hay@, needle@, i as int) {
                let m = choose|m: int| 0 <= m < needle@.len() && hay@[i + m] != needle@[m];
                assert(hay@.subrange(i as int, i + needle@.len())[m] == hay@[i + m]);
            }
        }
        i += 1;
    }
    assert forall|k: int| !occurs_at(hay@, needle@, k) by {
        if occurs_at(hay@, needle@, k) {
            assert(0 <= k < i);
        }
    }
    false
}

/// The ASCII upper-cased characters of `s`.
pub fn ascii_upper_chars(s: &str) -> (v: Vec<char>)
    ensures
        v@ == ascii_upper_seq(s@),
{
    let cs = crate::text::chars_of(s);
    let mut v: Vec<char> = Vec::new();
    let mut i: usize = 0;
    while i < cs.len()
        invariant
            cs@ == s@,
            i <= cs@.len(),
            v@ == ascii_upper_seq(s@.subrange(0, i as int)),
        decreases cs.len() - i,
    {
        v.push(to_ascii_upper(cs[i]));
        i += 1;
        assert(ascii_upper_seq(s@.subrange(0, i as int)) =~= ascii_upper_seq(
            s@.subrange(0, i - 1),
        ).push(ascii_upper(s@[i - 1])));
    }
    assert(s@.subrange(0, s@.len() as int) =~= s@);
    v
}

/// The affinity SQLite gives a column declared with type `col_type`.
pub fn affinity(col_type: &str) -> (a: ColAffinity)
    ensures
        a == affinity_of(col_type@),
{
    let t = ascii_upper_chars(col_type);
    let int_k = ['I', 'N', 'T'];
    let char_k = ['C', 'H', 'A', 'R'];
    let clob_k = ['C', 'L', 'O', 'B'];
    let text_k = ['T', 'E', 'X', 'T'];
    let blob_k = ['B', 'L', 'O', 'B'];
    let real_k = ['R', 'E', 'A', 'L'];
    let floa_k = ['F', 'L', 'O', 'A'];
    let doub_k = ['D', 'O', 'U', 'B'];
    assert(int_k@ =~= seq!['I', 'N', 'T']);
    assert(char_k@ =~= seq!['C', 'H', 'A', 'R']);
    assert(clob_k@ =~= seq!['C', 'L', 'O', 'B']);
    assert(text_k@ =~= seq!['T', 'E', 'X', 'T']);
    assert(blob_k@ =~= seq!['B', 'L', 'O', 'B']);
    assert(real_k@ =~= seq!['R', 'E', 'A', 'L']);
    assert(floa_k@ =~= seq!['F', 'L', 'O', 'A']);
    assert(doub_k@ =~= seq!['D', 'O', 'U', 'B']);
    if chars_contain(t.as_slice(), int_k.as_slice()) {
        ColAffinity::Integer
    } else if chars_contain(t.as_slice(), char_k.as_slice()) || chars_contain(
        t.as_slice(),
        clob_k.as_slice(),
    ) || chars_contain(t.as_slice(), text_k.as_slice()) {
        ColAffinity::Text
    } else if chars_contain(t.as_slice(), blob_k.as_slice()) || t.len() == 0 {
        ColAffinity::Blob
    } else if chars_contain(t.as_slice(), real_k.as_slice()) || chars_contain(
        t.as_slice(),
        floa_k.as_slice(),
    ) || chars_contain(t.as_slice(), doub_k.as_slice()) {
        ColAffinity::Real
    } else {
        ColAffinity::Numeric
    }
}

/// The Unicode uppercase form of a string.
pub uninterp spec fn unicode_upper(s: Seq<char>) -> Seq<char>;

/// Calls `str::to_uppercase`. The contract names the Unicode mapping and
/// states its ASCII part only: an ASCII string maps letter by letter, `a`
/// to `z` onto `A` to `Z`.
#[verifier::external_body]
pub(crate) fn to_uppercase(s: &str) -> (r: String)
    ensures
        r@ == unicode_upper(s@),
        is_ascii_chars(s@) ==> r@ == ascii_upper_seq(s@),
{
    s.to_uppercase()
}

} // verus!
