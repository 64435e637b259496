//! Column filters and their translation into a parameterised SQL
//! `WHERE` clause.

use vstd::prelude::*;
use crate::query::{quote_identifier, quoted};
use crate::text::{
    chars_of, concat_map, digit_char, lemma_concat_map_step, nat_decimal, push_char, push_decimal,
    push_decimal_wide, push_str, string_of,
};
use crate::value::{clone_value, SqlValue, ValueModel};
use crate::app_dirs::{joined, opt_view, path_join};
use crate::text::{hex_fixed, push_hex_fixed, same_text};
use vstd::utf8::encode_utf8;
use vstd::wrapping::u64_specs;

verus! {

/// Comparison and matching operators a filter rule can use.
#[derive(PartialEq, Eq, Structural, Clone, Copy, Debug)]
pub enum FilterOp {
    Eq,
    Ne,
    Lt,
    Le,
    Gt,
    Ge,
    Contains,
    NotContains,
    StartsWith,
    EndsWith,
    Like,
    Regex,
    IsNull,
    IsNotNull,
    Between,
    In,
    Today,
    ThisWeek,
    ThisMonth,
    ThisYear,
    LastNDays,
    Formula,
}

/// The operand of a filter rule.
#[derive(Debug)]
pub enum FilterValue {
    Literal(SqlValue),
    Pattern(String),
    Regex(String),
    Range(SqlValue, SqlValue),
    List(Vec<SqlValue>),
    N(i64),
    Formula(String),
}

/// One rule on one column.
#[derive(Debug)]
pub struct FilterRule {
    pub op: FilterOp,
    pub value: FilterValue,
    pub enabled: bool,
    pub label: Option<String>,
}

/// The rules of one column; enabled rules are alternatives (`OR`).
#[derive(Debug)]
pub struct ColumnFilter {
    pub rules: Vec<FilterRule>,
}

/// Filters by column name; columns are conjoined (`AND`). A name occurs at
/// most once, in the order in which columns were first filtered.
#[derive(Debug)]
pub struct FilterSet {
    pub columns: Vec<(String, ColumnFilter)>,
}

impl Default for FilterSet {
    /// No column is filtered.
    fn default() -> (f: FilterSet)
        ensures
            f.columns@.len() == 0,
    {
        FilterSet { columns: Vec::new() }
    }
}

/// The rules held for column `name` among `cols`, if any.
pub open spec fn filter_of(cols: Seq<(String, ColumnFilter)>, name: Seq<char>) -> Option<ColumnFilter>
    decreases cols.len(),
{
    if cols.len() == 0 {
        None
    } else if cols.last().0@ == name {
        Some(cols.last().1)
    } else {
        filter_of(cols.drop_last(), name)
    }
}

/// No column name occurs twice among `cols`.
pub open spec fn names_unique(cols: Seq<(String, ColumnFilter)>) -> bool {
    forall|i: int, j: int| 0 <= i < j < cols.len() ==> (#[trigger] cols[i]).0@ != (#[trigger] cols[j]).0@
}

/// Some rule of `cf` is enabled.
pub open spec fn any_enabled(cf: ColumnFilter) -> bool {
    exists|k: int| 0 <= k < cf.rules@.len() && (#[trigger] cf.rules@[k]).enabled
}

/// With names unique, the entry at `i` is what is held for its name.
proof fn lemma_filter_of_at(cols: Seq<(String, ColumnFilter)>, i: int)
    requires
        names_unique(cols),
        0 <= i < cols.len(),
    ensures
        filter_of(cols, cols[i].0@) == Some(cols[i].1),
    decreases cols.len(),
{
    if i < cols.len() - 1 {
        let front = cols.drop_last();
        assert(cols[i].0@ != cols[cols.len() - 1].0@);
        assert(front[i] == cols[i]);
        assert(names_unique(front)) by {
            assert forall|a: int, b: int| 0 <= a < b < front.len() implies (#[trigger] front[a]).0@ != (
            #[trigger] front[b]).0@ by {
                assert(front[a] == cols[a] && front[b] == cols[b]);
            }
        }
        lemma_filter_of_at(front, i);
    }
}

/// A name held nowhere among `cols` has no rules.
proof fn lemma_filter_of_absent(cols: Seq<(String, ColumnFilter)>, name: Seq<char>)
    requires
        forall|i: int| 0 <= i < cols.len() ==> (#[trigger] cols[i]).0@ != name,
    ensures
        filter_of(cols, name) is None,
    decreases cols.len(),
{
    if cols.len() > 0 {
        let front = cols.drop_last();
        assert(cols[cols.len() - 1].0@ != name);
        assert forall|i: int| 0 <= i < front.len() implies (#[trigger] front[i]).0@ != name by {
            assert(front[i] == cols[i]);
        }
        lemma_filter_of_absent(front, name);
    }
}

/// What `filter_of` gives for `name` follows from where it is held.
proof fn lemma_filter_of_lookup(cols: Seq<(String, ColumnFilter)>, name: Seq<char>)
    requires
        names_unique(cols),
    ensures
        (exists|i: int| 0 <= i < cols.len() && (#[trigger] cols[i]).0@ == name) ==> {
            let i = choose|i: int| 0 <= i < cols.len() && (#[trigger] cols[i]).0@ == name;
            filter_of(cols, name) == Some(cols[i].1)
        },
        !(exists|i: int| 0 <= i < cols.len() && (#[trigger] cols[i]).0@ == name) ==> filter_of(cols, name) is None,
{
    if exists|i: int| 0 <= i < cols.len() && (#[trigger] cols[i]).0@ == name {
        let i = choose|i: int| 0 <= i < cols.len() && (#[trigger] cols[i]).0@ == name;
        lemma_filter_of_at(cols, i);
    } else {
        lemma_filter_of_absent(cols, name);
    }
}

impl FilterSet {
    /// No column is filtered twice.
    pub open spec fn wf(self) -> bool {
        names_unique(self.columns@)
    }

    /// Where column `name` is filtered, if it is.
    fn position_of(&self, name: &str) -> (r: Option<usize>)
        ensures
            match r {
                Some(i) => i < self.columns@.len() && self.columns@[i as int].0@ == name@,
                None => forall|i: int| 0 <= i < self.columns@.len() ==> (#[trigger] self.columns@[i]).0@ != name@,
            },
    {
        let mut i: usize = 0;
        while i < self.columns.len()
            invariant
                i <= self.columns@.len(),
                forall|k: int| 0 <= k < i ==> (#[trigger] self.columns@[k]).0@ != name@,
            decreases self.columns@.len() - i,
        {
            if same_text(self.columns[i].0.as_str(), name) {
                return Some(i);
            }
            i = i + 1;
        }
        None
    }

    /// The rules of column `name`, if it is filtered.
    pub fn column_filter(&self, name: &str) -> (r: Option<&ColumnFilter>)
        requires
            self.wf(),
        ensures
            match r {
                Some(cf) => filter_of(self.columns@, name@) == Some(*cf),
                None => filter_of(self.columns@, name@) is None,
            },
    {
        proof {
            lemma_filter_of_lookup(self.columns@, name@);
        }
        match self.position_of(name) {
            Some(i) => {
                proof {
                    lemma_filter_of_at(self.columns@, i as int);
                }
                Some(&self.columns[i].1)
            },
            None => None,
        }
    }

    /// Filters column `name` by `cf`: in its place when it was filtered
    /// already, after the others otherwise. Reading any column back gives
    /// `cf` for `name` and what it gave before for every other name.
    pub fn set_column_filter(&mut self, name: String, cf: ColumnFilter)
        requires
            old(self).wf(),
        ensures
            final(self).wf(),
            filter_of(final(self).columns@, name@) == Some(cf),
            forall|n: Seq<char>| n != name@ ==> filter_of(final(self).columns@, n) == filter_of(
                old(self).columns@,
                n,
            ),
    {
        let ghost old_cols = self.columns@;
        let ghost key = name@;
        match self.position_of(name.as_str()) {
            Some(i) => {
                self.columns.set(i, (name, cf));
                proof {
                    let cols = self.columns@;
                    assert(names_unique(cols)) by {
                        assert forall|a: int, b: int| 0 <= a < b < cols.len() implies (#[trigger] cols[a]).0@ != (
                        #[trigger] cols[b]).0@ by {
                            if a != i as int && b != i as int {
                                assert(cols[a] == old_cols[a] && cols[b] == old_cols[b]);
                            } else if a == i as int {
                                assert(cols[b] == old_cols[b]);
                                assert(old_cols[a].0@ == key);
                            } else {
                                assert(cols[a] == old_cols[a]);
                                assert(old_cols[b].0@ == key);
                            }
                        }
                    }
                    lemma_filter_of_at(cols, i as int);
                    assert forall|n: Seq<char>| n != key implies filter_of(cols, n) == filter_of(old_cols, n) by {
                        lemma_filter_of_lookup(cols, n);
                        lemma_filter_of_lookup(old_cols, n);
                        if exists|j: int| 0 <= j < old_cols.len() && (#[trigger] old_cols[j]).0@ == n {
                            let j = choose|j: int| 0 <= j < old_cols.len() && (#[trigger] old_cols[j]).0@ == n;
                            assert(j != i as int);
                            assert(cols[j] == old_cols[j]);
                            lemma_filter_of_at(cols, j);
                            lemma_filter_of_at(old_cols, j);
                        } else {
                            assert forall|j: int| 0 <= j < cols.len() implies (#[trigger] cols[j]).0@ != n by {
                                if j != i as int {
                                    assert(cols[j] == old_cols[j]);
                                }
                            }
                            lemma_filter_of_absent(cols, n);
                        }
                    }
                }
            },
            None => {
                self.columns.push((name, cf));
                proof {
                    let cols = self.columns@;
                    assert(cols.drop_last() =~= old_cols);
                    assert(names_unique(cols)) by {
                        assert forall|a: int, b: int| 0 <= a < b < cols.len() implies (#[trigger] cols[a]).0@ != (
                        #[trigger] cols[b]).0@ by {
                            assert(cols[a] == old_cols[a]);
                            if b < old_cols.len() {
                                assert(cols[b] == old_cols[b]);
                            }
                        }
                    }
                }
            },
        }
    }

    /// Stops filtering column `name`; every other column keeps its rules.
    pub fn remove_column_filter(&mut self, name: &str)
        requires
            old(self).wf(),
        ensures
            final(self).wf(),
            filter_of(final(self).columns@, name@) is None,
            forall|n: Seq<char>| n != name@ ==> filter_of(final(self).columns@, n) == filter_of(
                old(self).columns@,
                n,
            ),
    {
        let ghost old_cols = self.columns@;
        match self.position_of(name) {
            Some(i) => {
                let _gone = self.columns.remove(i);
                proof {
                    let cols = self.columns@;
                    assert(cols =~= old_cols.remove(i as int));
                    assert(forall|k: int| 0 <= k < cols.len() ==> #[trigger] cols[k] == old_cols[if k < i { k } else { k + 1 }]);
                    assert(names_unique(cols)) by {
                        assert forall|a: int, b: int| 0 <= a < b < cols.len() implies (#[trigger] cols[a]).0@ != (
                        #[trigger] cols[b]).0@ by {
                            let a2 = if a < i { a } else { a + 1 };
                            let b2 = if b < i { b } else { b + 1 };
                            assert(cols[a] == old_cols[a2] && cols[b] == old_cols[b2]);
                        }
                    }
                    assert forall|k: int| 0 <= k < cols.len() implies (#[trigger] cols[k]).0@ != name@ by {
                        let k2 = if k < i { k } else { k + 1 };
                        assert(cols[k] == old_cols[k2]);
                        assert(k2 != i as int);
                    }
                    lemma_filter_of_absent(cols, name@);
                    assert forall|n: Seq<char>| n != name@ implies filter_of(cols, n) == filter_of(old_cols, n) by {
                        lemma_filter_of_lookup(cols, n);
                        lemma_filter_of_lookup(old_cols, n);
                        if exists|j: int| 0 <= j < old_cols.len() && (#[trigger] old_cols[j]).0@ == n {
                            let j = choose|j: int| 0 <= j < old_cols.len() && (#[trigger] old_cols[j]).0@ == n;
                            assert(j != i as int);
                            let j2 = if j < i { j } else { j - 1 };
                            assert(cols[j2] == old_cols[j]);
                            lemma_filter_of_at(cols, j2);
                            lemma_filter_of_at(old_cols, j);
                        } else {
                            assert forall|k: int| 0 <= k < cols.len() implies (#[trigger] cols[k]).0@ != n by {
                                let k2 = if k < i { k } else { k + 1 };
                                assert(cols[k] == old_cols[k2]);
                            }
                            lemma_filter_of_absent(cols, n);
                        }
                    }
                }
            },
            None => {
                proof {
                    lemma_filter_of_absent(old_cols, name@);
                }
            },
        }
    }

    /// Applies the rules edited for column `name`: they filter the column
    /// when one of them is enabled, otherwise the column stops being
    /// filtered.
    pub fn apply_column_filter(&mut self, name: String, cf: ColumnFilter)
        requires
            old(self).wf(),
        ensures
            final(self).wf(),
            any_enabled(cf) ==> filter_of(final(self).columns@, name@) == Some(cf),
            !any_enabled(cf) ==> filter_of(final(self).columns@, name@) is None,
            forall|n: Seq<char>| n != name@ ==> filter_of(final(self).columns@, n) == filter_of(
                old(self).columns@,
                n,
            ),
    {
        let mut enabled = false;
        let mut k: usize = 0;
        while k < cf.rules.len()
            invariant
                k <= cf.rules@.len(),
                enabled == exists|j: int| 0 <= j < k && (#[trigger] cf.rules@[j]).enabled,
            decreases cf.rules@.len() - k,
        {
            if cf.rules[k].enabled {
                enabled = true;
            }
            k = k + 1;
        }
        if enabled {
            self.set_column_filter(name, cf);
        } else {
            self.remove_column_filter(name.as_str());
        }
    }
}

/// Why a filter cannot be turned into SQL.
#[derive(Debug)]
pub enum FilterError {
    RequiresLiteral(FilterOp),
    RequiresPattern(FilterOp),
    RequiresRegex,
    InvalidRegex(String),
    RequiresRange,
    EmptyList,
    RequiresList,
    RequiresDayCount,
    NegativeDayCount,
    RequiresFormula,
    UnsupportedFormulaCharacter,
    EmptyFormula,
}

/// The mathematical value of a [`FilterError`].
pub enum FilterFailure {
    RequiresLiteral(FilterOp),
    RequiresPattern(FilterOp),
    RequiresRegex,
    InvalidRegex(Seq<char>),
    RequiresRange,
    EmptyList,
    RequiresList,
    RequiresDayCount,
    NegativeDayCount,
    RequiresFormula,
    UnsupportedFormulaCharacter,
    EmptyFormula,
}

impl View for FilterError {
    type V = FilterFailure;

    open spec fn view(&self) -> FilterFailure {
        match self {
            FilterError::RequiresLiteral(op) => FilterFailure::RequiresLiteral(*op),
            FilterError::RequiresPattern(op) => FilterFailure::RequiresPattern(*op),
            FilterError::RequiresRegex => FilterFailure::RequiresRegex,
            FilterError::InvalidRegex(m) => FilterFailure::InvalidRegex(m@),
            FilterError::RequiresRange => FilterFailure::RequiresRange,
            FilterError::EmptyList => FilterFailure::EmptyList,
            FilterError::RequiresList => FilterFailure::RequiresList,
            FilterError::RequiresDayCount => FilterFailure::RequiresDayCount,
            FilterError::NegativeDayCount => FilterFailure::NegativeDayCount,
            FilterError::RequiresFormula => FilterFailure::RequiresFormula,
            FilterError::UnsupportedFormulaCharacter => FilterFailure::UnsupportedFormulaCharacter,
            FilterError::EmptyFormula => FilterFailure::EmptyFormula,
        }
    }
}

/// How an operator is written in messages: its variant name.
pub open spec fn op_label(op: FilterOp) -> Seq<char> {
    match op {
        FilterOp::Eq => "Eq"@,
        FilterOp::Ne => "Ne"@,
        FilterOp::Lt => "Lt"@,
        FilterOp::Le => "Le"@,
        FilterOp::Gt => "Gt"@,
        FilterOp::Ge => "Ge"@,
        FilterOp::Contains => "Contains"@,
        FilterOp::NotContains => "NotContains"@,
        FilterOp::StartsWith => "StartsWith"@,
        FilterOp::EndsWith => "EndsWith"@,
        FilterOp::Like => "Like"@,
        FilterOp::Regex => "Regex"@,
        FilterOp::IsNull => "IsNull"@,
        FilterOp::IsNotNull => "IsNotNull"@,
        FilterOp::Between => "Between"@,
        FilterOp::In => "In"@,
        FilterOp::Today => "Today"@,
        FilterOp::ThisWeek => "ThisWeek"@,
        FilterOp::ThisMonth => "ThisMonth"@,
        FilterOp::ThisYear => "ThisYear"@,
        FilterOp::LastNDays => "LastNDays"@,
        FilterOp::Formula => "Formula"@,
    }
}

/// The operator's name as written in messages.
pub fn op_label_text(op: FilterOp) -> (r: &'static str)
    ensures
        r@ == op_label(op),
{
    let r = match op {
            FilterOp::Eq => "Eq",
            FilterOp::Ne => "Ne",
            FilterOp::Lt => "Lt",
            FilterOp::Le => "Le",
            FilterOp::Gt => "Gt",
            FilterOp::Ge => "Ge",
            FilterOp::Contains => "Contains",
            FilterOp::NotContains => "NotContains",
            FilterOp::StartsWith => "StartsWith",
            FilterOp::EndsWith => "EndsWith",
            FilterOp::Like => "Like",
            FilterOp::Regex => "Regex",
            FilterOp::IsNull => "IsNull",
            FilterOp::IsNotNull => "IsNotNull",
            FilterOp::Between => "Between",
            FilterOp::In => "In",
            FilterOp::Today => "Today",
            FilterOp::ThisWeek => "ThisWeek",
            FilterOp::ThisMonth => "ThisMonth",
            FilterOp::ThisYear => "ThisYear",
            FilterOp::LastNDays => "LastNDays",
            FilterOp::Formula => "Formula",
    };
    proof {
        reveal_strlit("Eq");
        reveal_strlit("Ne");
        reveal_strlit("Lt");
        reveal_strlit("Le");
        reveal_strlit("Gt");
        reveal_strlit("Ge");
        reveal_strlit("Contains");
        reveal_strlit("NotContains");
        reveal_strlit("StartsWith");
        reveal_strlit("EndsWith");
        reveal_strlit("Like");
        reveal_strlit("Regex");
        reveal_strlit("IsNull");
        reveal_strlit("IsNotNull");
        reveal_strlit("Between");
        reveal_strlit("In");
        reveal_strlit("Today");
        reveal_strlit("ThisWeek");
        reveal_strlit("ThisMonth");
        reveal_strlit("ThisYear");
        reveal_strlit("LastNDays");
        reveal_strlit("Formula");
    }
    r
}

/// The text a filter error is shown with.
pub open spec fn filter_error_text(e: FilterFailure) -> Seq<char> {
    match e {
        FilterFailure::RequiresLiteral(op) => op_label(op) + " filter requires a literal value"@,
        FilterFailure::RequiresPattern(op) => op_label(op) + " filter requires a text pattern"@,
        FilterFailure::RequiresRegex => "regex filter requires a regular expression"@,
        FilterFailure::InvalidRegex(m) => "invalid regular expression: "@ + m,
        FilterFailure::RequiresRange => "between filter requires a lower and upper value"@,
        FilterFailure::EmptyList => "in filter requires at least one value"@,
        FilterFailure::RequiresList => "in filter requires a list of values"@,
        FilterFailure::RequiresDayCount => "last-N-days filter requires a day count"@,
        FilterFailure::NegativeDayCount => "last-N-days filter cannot be negative"@,
        FilterFailure::RequiresFormula => "formula filter requires a formula"@,
        FilterFailure::UnsupportedFormulaCharacter => "formula contains an unsupported character"@,
        FilterFailure::EmptyFormula => "formula cannot be empty"@,
    }
}

impl FilterError {
    /// The text this error is shown with.
    pub fn message(&self) -> (m: String)
        ensures
            m@ == filter_error_text(self@),
    {
        match self {
            FilterError::RequiresLiteral(op) => {
                let mut m = string_of(op_label_text(*op));
                push_str(&mut m, " filter requires a literal value");
                m
            },
            FilterError::RequiresPattern(op) => {
                let mut m = string_of(op_label_text(*op));
                push_str(&mut m, " filter requires a text pattern");
                m
            },
            FilterError::RequiresRegex => string_of("regex filter requires a regular expression"),
            FilterError::InvalidRegex(e) => {
                let mut m = string_of("invalid regular expression: ");
                push_str(&mut m, e.as_str());
                m
            },
            FilterError::RequiresRange => string_of("between filter requires a lower and upper value"),
            FilterError::EmptyList => string_of("in filter requires at least one value"),
            FilterError::RequiresList => string_of("in filter requires a list of values"),
            FilterError::RequiresDayCount => string_of("last-N-days filter requires a day count"),
            FilterError::NegativeDayCount => string_of("last-N-days filter cannot be negative"),
            FilterError::RequiresFormula => string_of("formula filter requires a formula"),
            FilterError::UnsupportedFormulaCharacter => string_of("formula contains an unsupported character"),
            FilterError::EmptyFormula => string_of("formula cannot be empty"),
        }
    }
}

/// What `regex::Regex::new` reports for a pattern: `None` when it compiles,
/// otherwise the error's message.
pub uninterp spec fn regex_error_message(pattern: Seq<char>) -> Option<Seq<char>>;

/// Compiles `pattern` with `regex::Regex::new` and returns the error's
/// `Display` text, or `None` when the pattern compiles. Claimed: the result
/// is the named function of the pattern.
#[verifier::external_body]
fn regex_check(pattern: &str) -> (r: Option<String>)
    ensures
        r.deep_view() == regex_error_message(pattern@),
{
    regex::Regex::new(pattern).err().map(|e| e.to_string())
}

/// The views of a sequence of values.
pub open spec fn values_view(v: Seq<SqlValue>) -> Seq<ValueModel> {
    v.map_values(|x: SqlValue| x@)
}

/// Positional parameter `?k`.
pub open spec fn placeholder(k: nat) -> Seq<char> {
    seq!['?'] + nat_decimal(k)
}

/// `?start, ?start+1, ...` for `count` parameters.
pub open spec fn placeholder_list(start: nat, count: nat) -> Seq<char>
    decreases count,
{
    if count == 0 {
        Seq::empty()
    } else if count == 1 {
        placeholder(start)
    } else {
        placeholder_list(start, (count - 1) as nat) + ", "@ + placeholder((start + count - 1) as nat)
    }
}

/// `pieces` joined by `sep`.
pub open spec fn join(pieces: Seq<Seq<char>>, sep: Seq<char>) -> Seq<char>
    decreases pieces.len(),
{
    if pieces.len() == 0 {
        Seq::empty()
    } else if pieces.len() == 1 {
        pieces[0]
    } else {
        join(pieces.drop_last(), sep) + sep + pieces.last()
    }
}

/// A `LIKE` wildcard or the escape character itself.
pub open spec fn is_like_special(c: char) -> bool {
    c == '%' || c == '_' || c == '\\'
}

/// One character of a literal LIKE pattern, escaped with `\`.
pub open spec fn like_piece(c: char) -> Seq<char> {
    if is_like_special(c) {
        seq!['\\', c]
    } else {
        seq![c]
    }
}

/// Text matched literally by `LIKE ... ESCAPE '\'`.
pub open spec fn escape_like(s: Seq<char>) -> Seq<char> {
    concat_map(s, |c: char| like_piece(c))
}

/// Characters allowed verbatim in a formula.
pub open spec fn formula_char_allowed(c: char) -> bool {
    ('0' <= c && c <= '9') || c == '+' || c == '-' || c == '*' || c == '/' || c == '('
        || c == ')' || c == '>' || c == '<' || c == '=' || c == '!' || c == '.' || c == ' '
        || c == '\t'
}

/// ASCII letter or digit.
pub open spec fn ascii_alnum(c: char) -> bool {
    ('0' <= c && c <= '9') || ('a' <= c && c <= 'z') || ('A' <= c && c <= 'Z')
}

/// The word `col` stands at `i`, not glued to letters or digits.
pub open spec fn col_token_at(f: Seq<char>, i: int) -> bool {
    &&& 0 <= i
    &&& i + 3 <= f.len()
    &&& f[i] == 'c' && f[i + 1] == 'o' && f[i + 2] == 'l'
    &&& (i == 0 || !ascii_alnum(f[i - 1]))
    &&& (i + 3 >= f.len() || !ascii_alnum(f[i + 3]))
}

/// The formula from position `i` on, with each `col` replaced by the quoted
/// column; `None` when a character is not allowed.
pub open spec fn sanitize_from(f: Seq<char>, i: int, qc: Seq<char>) -> Option<Seq<char>>
    decreases f.len() - i,
{
    if i < 0 || i >= f.len() {
        Some(Seq::empty())
    } else if col_token_at(f, i) {
        match sanitize_from(f, i + 3, qc) {
            Some(rest) => Some(qc + rest),
            None => None,
        }
    } else if formula_char_allowed(f[i]) {
        match sanitize_from(f, i + 1, qc) {
            Some(rest) => Some(seq![f[i]] + rest),
            None => None,
        }
    } else {
        None
    }
}

/// Only spaces and tabs: nothing is left after trimming.
pub open spec fn all_blank(s: Seq<char>) -> bool {
    forall|k: int| 0 <= k < s.len() ==> (s[k] == ' ' || s[k] == '\t')
}

/// A sanitized formula, or why it is refused.
pub open spec fn formula_sql(f: Seq<char>, col_name: Seq<char>) -> Result<Seq<char>, FilterFailure> {
    match sanitize_from(f, 0, quoted(col_name)) {
        None => Err(FilterFailure::UnsupportedFormulaCharacter),
        Some(r) => if all_blank(r) {
            Err(FilterFailure::EmptyFormula)
        } else {
            Ok(r)
        },
    }
}

/// A comparison of the quoted column with one bound literal.
pub open spec fn compare_sql(
    qc: Seq<char>,
    op_text: Seq<char>,
    op: FilterOp,
    value: FilterValue,
    next: nat,
) -> Result<(Seq<char>, Seq<ValueModel>), FilterFailure> {
    match value {
        FilterValue::Literal(v) => Ok((qc + op_text + placeholder(next), seq![v@])),
        _ => Err(FilterFailure::RequiresLiteral(op)),
    }
}

/// A LIKE test with a pattern built from the rule's literal text.
pub open spec fn like_sql(
    qc: Seq<char>,
    op_text: Seq<char>,
    prefix: Seq<char>,
    suffix: Seq<char>,
    op: FilterOp,
    value: FilterValue,
    next: nat,
) -> Result<(Seq<char>, Seq<ValueModel>), FilterFailure> {
    match value {
        FilterValue::Pattern(p) => Ok(
            (
                qc + op_text + placeholder(next) + " ESCAPE '\\'"@,
                seq![ValueModel::Text(prefix + escape_like(p@) + suffix)],
            ),
        ),
        _ => Err(FilterFailure::RequiresPattern(op)),
    }
}

/// The SQL of one enabled rule on column `col_name`, whose first
/// parameter is `?next`, with the values it binds.
pub open spec fn rule_sql(col_name: Seq<char>, rule: FilterRule, next: nat) -> Result<
    (Seq<char>, Seq<ValueModel>),
    FilterFailure,
> {
    let qc = quoted(col_name);
    match rule.op {
        FilterOp::Eq => compare_sql(qc, " = "@, rule.op, rule.value, next),
        FilterOp::Ne => compare_sql(qc, " != "@, rule.op, rule.value, next),
        FilterOp::Lt => compare_sql(qc, " < "@, rule.op, rule.value, next),
        FilterOp::Le => compare_sql(qc, " <= "@, rule.op, rule.value, next),
        FilterOp::Gt => compare_sql(qc, " > "@, rule.op, rule.value, next),
        FilterOp::Ge => compare_sql(qc, " >= "@, rule.op, rule.value, next),
        FilterOp::Contains => like_sql(qc, " LIKE "@, seq!['%'], seq!['%'], rule.op, rule.value, next),
        FilterOp::NotContains => like_sql(
            qc,
            " NOT LIKE "@,
            seq!['%'],
            seq!['%'],
            rule.op,
            rule.value,
            next,
        ),
        FilterOp::StartsWith => like_sql(qc, " LIKE "@, Seq::empty(), seq!['%'], rule.op, rule.value, next),
        FilterOp::EndsWith => like_sql(qc, " LIKE "@, seq!['%'], Seq::empty(), rule.op, rule.value, next),
        FilterOp::Like => match rule.value {
            FilterValue::Pattern(p) => Ok((qc + " LIKE "@ + placeholder(next), seq![ValueModel::Text(p@)])),
            _ => Err(FilterFailure::RequiresPattern(rule.op)),
        },
        FilterOp::Regex => match rule.value {
            FilterValue::Regex(p) => match regex_error_message(p@) {
                None => Ok(("regexp("@ + placeholder(next) + ", "@ + qc + ")"@, seq![ValueModel::Text(p@)])),
                Some(m) => Err(FilterFailure::InvalidRegex(m)),
            },
            _ => Err(FilterFailure::RequiresRegex),
        },
        FilterOp::IsNull => Ok((qc + " IS NULL"@, Seq::empty())),
        FilterOp::IsNotNull => Ok((qc + " IS NOT NULL"@, Seq::empty())),
        FilterOp::Between => match rule.value {
            FilterValue::Range(lo, hi) => Ok(
                (
                    qc + " BETWEEN "@ + placeholder(next) + " AND "@ + placeholder(next + 1),
                    seq![lo@, hi@],
                ),
            ),
            _ => Err(FilterFailure::RequiresRange),
        },
        FilterOp::In => match rule.value {
            FilterValue::List(vals) => if vals@.len() == 0 {
                Err(FilterFailure::EmptyList)
            } else {
                Ok((qc + " IN ("@ + placeholder_list(next, vals@.len()) + ")"@, values_view(vals@)))
            },
            _ => Err(FilterFailure::RequiresList),
        },
        FilterOp::Today => Ok(("date("@ + qc + ") = date('now')"@, Seq::empty())),
        FilterOp::ThisWeek => Ok(("date("@ + qc + ") >= date('now', 'weekday 0', '-6 days')"@, Seq::empty())),
        FilterOp::ThisMonth => Ok(("strftime('%Y-%m', "@ + qc + ") = strftime('%Y-%m', 'now')"@, Seq::empty())),
        FilterOp::ThisYear => Ok(("strftime('%Y', "@ + qc + ") = strftime('%Y', 'now')"@, Seq::empty())),
        FilterOp::LastNDays => match rule.value {
            FilterValue::N(n) => if n < 0 {
                Err(FilterFailure::NegativeDayCount)
            } else {
                Ok(("date("@ + qc + ") >= date('now', '-"@ + nat_decimal(n as nat) + " days')"@, Seq::empty()))
            },
            _ => Err(FilterFailure::RequiresDayCount),
        },
        FilterOp::Formula => match rule.value {
            FilterValue::Formula(f) => match formula_sql(f@, col_name) {
                Ok(r) => Ok((r, Seq::empty())),
                Err(e) => Err(e),
            },
            _ => Err(FilterFailure::RequiresFormula),
        },
    }
}

/// The clauses of the enabled rules among `rules`, in order, with their
/// values; parameters are numbered from `?next`.
pub open spec fn rules_sql(col_name: Seq<char>, rules: Seq<FilterRule>, next: nat) -> Result<
    (Seq<Seq<char>>, Seq<ValueModel>),
    FilterFailure,
>
    decreases rules.len(),
{
    if rules.len() == 0 {
        Ok((Seq::empty(), Seq::empty()))
    } else {
        match rules_sql(col_name, rules.drop_last(), next) {
            Err(e) => Err(e),
            Ok((cs, ps)) => if !rules.last().enabled {
                Ok((cs, ps))
            } else {
                match rule_sql(col_name, rules.last(), next + ps.len()) {
                    Err(e) => Err(e),
                    Ok((c, p)) => Ok((cs.push(c), ps + p)),
                }
            },
        }
    }
}

/// One column's condition from its enabled clauses: the clause itself when
/// there is one, the clauses joined by `OR` in parentheses otherwise.
pub open spec fn column_part(cs: Seq<Seq<char>>) -> Seq<char> {
    if cs.len() == 1 {
        cs[0]
    } else {
        seq!['('] + join(cs, " OR "@) + seq![')']
    }
}

/// The conditions of the columns among `cols` that have an enabled rule,
/// with all bound values; parameters are numbered from `?next`.
pub open spec fn columns_sql(cols: Seq<(String, ColumnFilter)>, next: nat) -> Result<
    (Seq<Seq<char>>, Seq<ValueModel>),
    FilterFailure,
>
    decreases cols.len(),
{
    if cols.len() == 0 {
        Ok((Seq::empty(), Seq::empty()))
    } else {
        match columns_sql(cols.drop_last(), next) {
            Err(e) => Err(e),
            Ok((parts, ps)) => {
                let (name, cf) = cols.last();
                match rules_sql(name@, cf.rules@, next + ps.len()) {
                    Err(e) => Err(e),
                    Ok((cs, p)) => if cs.len() == 0 {
                        Ok((parts, ps))
                    } else {
                        Ok((parts.push(column_part(cs)), ps + p))
                    },
                }
            },
        }
    }
}

/// The `WHERE` condition (without the keyword) and its positional values.
pub open spec fn filter_sql(filter: FilterSet) -> Result<(Seq<char>, Seq<ValueModel>), FilterFailure> {
    match columns_sql(filter.columns@, 1) {
        Err(e) => Err(e),
        Ok((parts, ps)) => Ok((join(parts, " AND "@), ps)),
    }
}


/// Appends `?k`.
fn push_placeholder(s: &mut String, k: u128)
    ensures
        final(s)@ == old(s)@ + placeholder(k as nat),
{
    push_char(s, '?');
    push_decimal_wide(s, k);
    assert(s@ =~= old(s)@ + placeholder(k as nat));
}

/// Escapes `%`, `_` and `\` with `\` so that `LIKE ... ESCAPE '\'` matches
/// the text literally.
pub fn escape_like_literal(pattern: &str) -> (r: String)
    ensures
        r@ == escape_like(pattern@),
{
    let cs = chars_of(pattern);
    let mut r = String::new();
    let ghost f = |c: char| like_piece(c);
    let mut i: usize = 0;
    while i < cs.len()
        invariant
            cs@ == pattern@,
            i <= cs@.len(),
            r@ == concat_map(cs@.subrange(0, i as int), f),
            f == (|c: char| like_piece(c)),
        decreases cs.len() - i,
    {
        let c = cs[i];
        if c == '%' || c == '_' || c == '\\' {
            push_char(&mut r, '\\');
        }
        push_char(&mut r, c);
        proof {
            lemma_concat_map_step(cs@, i as int, f);
        }
        i += 1;
        assert(r@ =~= concat_map(cs@.subrange(0, i as int), f));
    }
    assert(cs@.subrange(0, cs@.len() as int) =~= pattern@);
    r
}

fn is_ascii_alnum(c: char) -> (r: bool)
    ensures
        r == ascii_alnum(c),
{
    ('0' <= c && c <= '9') || ('a' <= c && c <= 'z') || ('A' <= c && c <= 'Z')
}

fn is_formula_char(c: char) -> (r: bool)
    ensures
        r == formula_char_allowed(c),
{
    ('0' <= c && c <= '9') || c == '+' || c == '-' || c == '*' || c == '/' || c == '(' || c == ')'
        || c == '>' || c == '<' || c == '=' || c == '!' || c == '.' || c == ' ' || c == '\t'
}

fn is_col_token(f: &Vec<char>, i: usize) -> (r: bool)
    requires
        i < f@.len(),
    ensures
        r == col_token_at(f@, i as int),
{
    if f.len() - i < 3 {
        return false;
    }
    if !(f[i] == 'c' && f[i + 1] == 'o' && f[i + 2] == 'l') {
        return false;
    }
    let before_ok = i == 0 || !is_ascii_alnum(f[i - 1]);
    let after_ok = f.len() - i <= 3 || !is_ascii_alnum(f[i + 3]);
    before_ok && after_ok
}

/// Replaces each free-standing `col` in `formula` by the quoted column and
/// refuses any character outside digits, arithmetic and comparison signs,
/// `.`, parentheses, spaces and tabs; a formula left blank is refused too.
pub fn sanitize_formula(formula: &str, col_name: &str) -> (r: Result<String, FilterError>)
    ensures
        match formula_sql(formula@, col_name@) {
            Ok(text) => r matches Ok(s) && s@ == text,
            Err(e) => r matches Err(x) && x@ == e,
        },
{
    let qc = quote_identifier(col_name);
    let f = chars_of(formula);
    let ghost whole = sanitize_from(f@, 0, qc@);
    let mut result = String::new();
    let mut i: usize = 0;
    assert(whole matches Some(rest) ==> whole == Some(result@ + rest)) by {
        if let Some(rest) = whole {
            assert(result@ + rest =~= rest);
        }
    }
    while i < f.len()
        invariant
            f@ == formula@,
            qc@ == quoted(col_name@),
            i <= f@.len(),
            whole == sanitize_from(f@, 0, qc@),
            match sanitize_from(f@, i as int, qc@) {
                Some(rest) => whole == Some(result@ + rest),
                None => whole is None,
            },
        decreases f.len() - i,
    {
        if is_col_token(&f, i) {
            proof {
                if let Some(rest) = sanitize_from(f@, i + 3, qc@) {
                    assert(result@ + (qc@ + rest) =~= (result@ + qc@) + rest);
                }
            }
            push_str(&mut result, qc.as_str());
            i += 3;
        } else if is_formula_char(f[i]) {
            let c = f[i];
            proof {
                if let Some(rest) = sanitize_from(f@, i + 1, qc@) {
                    assert(result@ + (seq![c] + rest) =~= result@.push(c) + rest);
                }
            }
            push_char(&mut result, c);
            i += 1;
        } else {
            assert(sanitize_from(f@, i as int, qc@) is None);
            return Err(FilterError::UnsupportedFormulaCharacter);
        }
    }
    assert(result@ + Seq::<char>::empty() =~= result@);
    let cs = chars_of(result.as_str());
    let mut blank = true;
    let mut k: usize = 0;
    while k < cs.len()
        invariant
            k <= cs@.len(),
            blank == forall|m: int| 0 <= m < k ==> (cs@[m] == ' ' || cs@[m] == '\t'),
        decreases cs.len() - k,
    {
        if !(cs[k] == ' ' || cs[k] == '\t') {
            blank = false;
        }
        k += 1;
    }
    if blank {
        Err(FilterError::EmptyFormula)
    } else {
        Ok(result)
    }
}

proof fn lemma_values_view_push(v: Seq<SqlValue>, x: SqlValue)
    ensures
        values_view(v.push(x)) == values_view(v).push(x@),
{
    assert(values_view(v.push(x)) =~= values_view(v).push(x@));
}

/// A comparison with one bound literal.
fn compare_to_sql(
    qc: &String,
    op_text: &str,
    op: FilterOp,
    value: &FilterValue,
    params: &mut Vec<SqlValue>,
) -> (r: Result<String, FilterError>)
    ensures
        match compare_sql(qc@, op_text@, op, *value, old(params)@.len() + 1) {
            Ok((c, p)) => r matches Ok(s) && s@ == c && values_view(final(params)@) == values_view(
                old(params)@,
            ) + p,
            Err(e) => r matches Err(x) && x@ == e,
        },
{
    match value {
        FilterValue::Literal(v) => {
            let k: u128 = params.len() as u128 + 1;
            let ghost before = params@;
            params.push(clone_value(v));
            proof {
                lemma_values_view_push(before, params@.last());
            }
            let mut s = qc.clone();
            push_str(&mut s, op_text);
            push_placeholder(&mut s, k);
            assert(values_view(params@) =~= values_view(before) + seq![v@]);
            Ok(s)
        },
        _ => Err(FilterError::RequiresLiteral(op)),
    }
}

/// A LIKE test of literal text between `prefix` and `suffix` wildcards.
fn like_to_sql(
    qc: &String,
    op_text: &str,
    prefix: bool,
    suffix: bool,
    op: FilterOp,
    value: &FilterValue,
    params: &mut Vec<SqlValue>,
) -> (r: Result<String, FilterError>)
    ensures
        match like_sql(
            qc@,
            op_text@,
            if prefix { seq!['%'] } else { Seq::empty() },
            if suffix { seq!['%'] } else { Seq::empty() },
            op,
            *value,
            old(params)@.len() + 1,
        ) {
            Ok((c, p)) => r matches Ok(s) && s@ == c && values_view(final(params)@) == values_view(
                old(params)@,
            ) + p,
            Err(e) => r matches Err(x) && x@ == e,
        },
{
    match value {
        FilterValue::Pattern(p) => {
            let mut pattern = String::new();
            if prefix {
                push_char(&mut pattern, '%');
            }
            let escaped = escape_like_literal(p.as_str());
            push_str(&mut pattern, escaped.as_str());
            if suffix {
                push_char(&mut pattern, '%');
            }
            let k: u128 = params.len() as u128 + 1;
            let ghost before = params@;
            let ghost text = pattern@;
            assert(text =~= (if prefix { seq!['%'] } else { Seq::empty() }) + escape_like(p@) + (
            if suffix {
                seq!['%']
            } else {
                Seq::empty()
            }));
            params.push(SqlValue::Text(pattern));
            proof {
                lemma_values_view_push(before, params@.last());
            }
            let mut s = qc.clone();
            push_str(&mut s, op_text);
            push_placeholder(&mut s, k);
            push_str(&mut s, " ESCAPE '\\'");
            assert(values_view(params@) =~= values_view(before) + seq![ValueModel::Text(text)]);
            Ok(s)
        },
        _ => Err(FilterError::RequiresPattern(op)),
    }
}


/// The views of a sequence of strings.
pub open spec fn strings_view(v: Seq<String>) -> Seq<Seq<char>> {
    v.map_values(|x: String| x@)
}

/// `pieces` joined by `sep`.
pub fn join_strings(pieces: &Vec<String>, sep: &str) -> (r: String)
    ensures
        r@ == join(strings_view(pieces@), sep@),
{
    let mut r = String::new();
    let mut i: usize = 0;
    assert(strings_view(pieces@).subrange(0, 0) =~= Seq::<Seq<char>>::empty());
    while i < pieces.len()
        invariant
            i <= pieces@.len(),
            r@ == join(strings_view(pieces@).subrange(0, i as int), sep@),
        decreases pieces.len() - i,
    {
        let ghost sv = strings_view(pieces@);
        if i > 0 {
            push_str(&mut r, sep);
        }
        push_str(&mut r, pieces[i].as_str());
        proof {
            let pre = sv.subrange(0, i as int);
            let post = sv.subrange(0, i + 1);
            assert(post.drop_last() =~= pre);
            assert(post.last() == pieces@[i as int]@);
            if i == 0 {
                assert(r@ =~= join(post, sep@));
            }
        }
        i += 1;
    }
    assert(strings_view(pieces@).subrange(0, pieces@.len() as int) =~= strings_view(pieces@));
    r
}

fn push_value(params: &mut Vec<SqlValue>, v: SqlValue)
    ensures
        values_view(final(params)@) == values_view(old(params)@).push(v@),
{
    let ghost before = params@;
    params.push(v);
    proof {
        lemma_values_view_push(before, v);
    }
}

/// The SQL of one rule on column `col_name`; the values it binds are
/// appended to `params`, numbered after those already there.
pub fn rule_to_sql(col_name: &str, rule: &FilterRule, params: &mut Vec<SqlValue>) -> (r: Result<
    String,
    FilterError,
>)
    ensures
        match rule_sql(col_name@, *rule, old(params)@.len() + 1) {
            Ok((c, p)) => r matches Ok(s) && s@ == c && values_view(final(params)@) == values_view(
                old(params)@,
            ) + p,
            Err(e) => r matches Err(x) && x@ == e,
        },
{
    let qc = quote_identifier(col_name);
    let k: u128 = params.len() as u128 + 1;
    let ghost before = values_view(params@);
    match rule.op {
        FilterOp::Eq => compare_to_sql(&qc, " = ", rule.op, &rule.value, params),
        FilterOp::Ne => compare_to_sql(&qc, " != ", rule.op, &rule.value, params),
        FilterOp::Lt => compare_to_sql(&qc, " < ", rule.op, &rule.value, params),
        FilterOp::Le => compare_to_sql(&qc, " <= ", rule.op, &rule.value, params),
        FilterOp::Gt => compare_to_sql(&qc, " > ", rule.op, &rule.value, params),
        FilterOp::Ge => compare_to_sql(&qc, " >= ", rule.op, &rule.value, params),
        FilterOp::Contains => like_to_sql(&qc, " LIKE ", true, true, rule.op, &rule.value, params),
        FilterOp::NotContains => like_to_sql(
            &qc,
            " NOT LIKE ",
            true,
            true,
            rule.op,
            &rule.value,
            params,
        ),
        FilterOp::StartsWith => like_to_sql(&qc, " LIKE ", false, true, rule.op, &rule.value, params),
        FilterOp::EndsWith => like_to_sql(&qc, " LIKE ", true, false, rule.op, &rule.value, params),
        FilterOp::Like => match &rule.value {
            FilterValue::Pattern(p) => {
                push_value(params, SqlValue::Text(p.clone()));
                let mut s = qc.clone();
                push_str(&mut s, " LIKE ");
                push_placeholder(&mut s, k);
                Ok(s)
            },
            _ => Err(FilterError::RequiresPattern(rule.op)),
        },
        FilterOp::Regex => match &rule.value {
            FilterValue::Regex(p) => match regex_check(p.as_str()) {
                Some(m) => Err(FilterError::InvalidRegex(m)),
                None => {
                    push_value(params, SqlValue::Text(p.clone()));
                    let mut s = string_of("regexp(");
                    push_placeholder(&mut s, k);
                    push_str(&mut s, ", ");
                    push_str(&mut s, qc.as_str());
                    push_str(&mut s, ")");
                    Ok(s)
                },
            },
            _ => Err(FilterError::RequiresRegex),
        },
        FilterOp::IsNull => {
            let mut s = qc.clone();
            push_str(&mut s, " IS NULL");
            assert(values_view(params@) =~= before + Seq::<ValueModel>::empty());
            Ok(s)
        },
        FilterOp::IsNotNull => {
            let mut s = qc.clone();
            push_str(&mut s, " IS NOT NULL");
            assert(values_view(params@) =~= before + Seq::<ValueModel>::empty());
            Ok(s)
        },
        FilterOp::Between => match &rule.value {
            FilterValue::Range(lo, hi) => {
                push_value(params, clone_value(lo));
                push_value(params, clone_value(hi));
                let mut s = qc.clone();
                push_str(&mut s, " BETWEEN ");
                push_placeholder(&mut s, k);
                push_str(&mut s, " AND ");
                push_placeholder(&mut s, k + 1);
                assert(values_view(params@) =~= before + seq![lo@, hi@]);
                Ok(s)
            },
            _ => Err(FilterError::RequiresRange),
        },
        FilterOp::In => match &rule.value {
            FilterValue::List(vals) => {
                if vals.len() == 0 {
                    return Err(FilterError::EmptyList);
                }
                let mut s = qc.clone();
                push_str(&mut s, " IN (");
                let ghost head = s@;
                let mut i: usize = 0;
                assert(values_view(vals@).subrange(0, 0) =~= Seq::<ValueModel>::empty());
                assert(values_view(params@) =~= before + values_view(vals@).subrange(0, 0));
                assert(s@ =~= head + placeholder_list(k as nat, 0));
                while i < vals.len()
                    invariant
                        i <= vals@.len(),
                        k == old(params)@.len() + 1,
                        old(params)@.len() <= usize::MAX,
                        before == values_view(old(params)@),
                        s@ == head + placeholder_list(k as nat, i as nat),
                        values_view(params@) == before + values_view(vals@).subrange(0, i as int),
                    decreases vals.len() - i,
                {
                    if i > 0 {
                        push_str(&mut s, ", ");
                    }
                    push_placeholder(&mut s, k + i as u128);
                    push_value(params, clone_value(&vals[i]));
                    proof {
                        assert(values_view(vals@).subrange(0, i + 1) =~= values_view(
                            vals@,
                        ).subrange(0, i as int).push(vals@[i as int]@));
                    }
                    i += 1;
                    assert(s@ =~= head + placeholder_list(k as nat, i as nat));
                    assert(values_view(params@) =~= before + values_view(vals@).subrange(
                        0,
                        i as int,
                    ));
                }
                push_str(&mut s, ")");
                assert(values_view(vals@).subrange(0, vals@.len() as int) =~= values_view(vals@));
                Ok(s)
            },
            _ => Err(FilterError::RequiresList),
        },
        FilterOp::Today => {
            let mut s = string_of("date(");
            push_str(&mut s, qc.as_str());
            push_str(&mut s, ") = date('now')");
            assert(values_view(params@) =~= before + Seq::<ValueModel>::empty());
            Ok(s)
        },
        FilterOp::ThisWeek => {
            let mut s = string_of("date(");
            push_str(&mut s, qc.as_str());
            push_str(&mut s, ") >= date('now', 'weekday 0', '-6 days')");
            assert(values_view(params@) =~= before + Seq::<ValueModel>::empty());
            Ok(s)
        },
        FilterOp::ThisMonth => {
            let mut s = string_of("strftime('%Y-%m', ");
            push_str(&mut s, qc.as_str());
            push_str(&mut s, ") = strftime('%Y-%m', 'now')");
            assert(values_view(params@) =~= before + Seq::<ValueModel>::empty());
            Ok(s)
        },
        FilterOp::ThisYear => {
            let mut s = string_of("strftime('%Y', ");
            push_str(&mut s, qc.as_str());
            push_str(&mut s, ") = strftime('%Y', 'now')");
            assert(values_view(params@) =~= before + Seq::<ValueModel>::empty());
            Ok(s)
        },
        FilterOp::LastNDays => match &rule.value {
            FilterValue::N(n) => {
                if *n < 0 {
                    return Err(FilterError::NegativeDayCount);
                }
                let mut s = string_of("date(");
                push_str(&mut s, qc.as_str());
                push_str(&mut s, ") >= date('now', '-");
                push_decimal(&mut s, *n as u64);
                push_str(&mut s, " days')");
                assert(values_view(params@) =~= before + Seq::<ValueModel>::empty());
                Ok(s)
            },
            _ => Err(FilterError::RequiresDayCount),
        },
        FilterOp::Formula => match &rule.value {
            FilterValue::Formula(f) => {
                let r = sanitize_formula(f.as_str(), col_name);
                assert(values_view(params@) =~= before + Seq::<ValueModel>::empty());
                r
            },
            _ => Err(FilterError::RequiresFormula),
        },
    }
}

/// Translates a filter set into a `WHERE` condition (without the keyword)
/// using positional parameters `?1, ?2, ...`, and the values they bind.
/// Enabled rules of one column are alternatives, columns are conjoined,
/// disabled rules are left out.
pub fn filter_to_sql(filter: &FilterSet) -> (r: Result<(String, Vec<SqlValue>), FilterError>)
    ensures
        match filter_sql(*filter) {
            Ok((w, p)) => r matches Ok((s, v)) && s@ == w && values_view(v@) == p,
            Err(e) => r matches Err(x) && x@ == e,
        },
{
    let mut parts: Vec<String> = Vec::new();
    let mut params: Vec<SqlValue> = Vec::new();
    let mut c: usize = 0;
    let ghost cols = filter.columns@;
    assert(cols.subrange(0, 0) =~= Seq::<(String, ColumnFilter)>::empty());
    assert(values_view(params@) =~= Seq::<ValueModel>::empty());
    assert(strings_view(parts@) =~= Seq::<Seq<char>>::empty());
    while c < filter.columns.len()
        invariant
            cols == filter.columns@,
            c <= cols.len(),
            columns_sql(cols.subrange(0, c as int), 1) == Ok::<
                (Seq<Seq<char>>, Seq<ValueModel>),
                FilterFailure,
            >((strings_view(parts@), values_view(params@))),
        decreases cols.len() - c,
    {
        let name = &filter.columns[c].0;
        let rules = &filter.columns[c].1.rules;
        let ghost ps0 = values_view(params@);
        let ghost mut acc: Seq<ValueModel> = Seq::empty();
        let mut col_parts: Vec<String> = Vec::new();
        let mut j: usize = 0;
        assert(rules@.subrange(0, 0) =~= Seq::<FilterRule>::empty());
        assert(strings_view(col_parts@) =~= Seq::<Seq<char>>::empty());
        assert(values_view(params@) =~= ps0 + acc);
        while j < rules.len()
            invariant
                cols == filter.columns@,
                c < cols.len(),
                name == cols[c as int].0,
                rules == cols[c as int].1.rules,
                columns_sql(cols.subrange(0, c as int), 1) == Ok::<
                    (Seq<Seq<char>>, Seq<ValueModel>),
                    FilterFailure,
                >((strings_view(parts@), ps0)),
                j <= rules@.len(),
                col_parts@.len() == 0 ==> acc.len() == 0,
                values_view(params@) == ps0 + acc,
                rules_sql(name@, rules@.subrange(0, j as int), ps0.len() + 1) == Ok::<
                    (Seq<Seq<char>>, Seq<ValueModel>),
                    FilterFailure,
                >((strings_view(col_parts@), acc)),
            decreases rules.len() - j,
        {
            let rule = &rules[j];
            proof {
                assert(rules@.subrange(0, j + 1).drop_last() =~= rules@.subrange(0, j as int));
                assert(rules@.subrange(0, j + 1).last() == rules@[j as int]);
            }
            if rule.enabled {
                let ghost pv = params@;
                match rule_to_sql(name.as_str(), rule, &mut params) {
                    Ok(s) => {
                        proof {
                            let (cl, p) = rule_sql(name@, *rule, pv.len() + 1)->Ok_0;
                            assert(values_view(params@) =~= ps0 + (acc + p));
                            acc = acc + p;
                        }
                        let ghost cp = col_parts@;
                        col_parts.push(s);
                        assert(strings_view(col_parts@) =~= strings_view(cp).push(s@));
                    },
                    Err(e) => {
                        proof {
                            let ghost err = e@;
                            assert(rules_sql(name@, rules@.subrange(0, j + 1), ps0.len() + 1)
                                == Err::<(Seq<Seq<char>>, Seq<ValueModel>), FilterFailure>(err));
                            lemma_rules_sql_err_prefix(name@, rules@, (j + 1) as int, ps0.len() + 1, err);
                            lemma_columns_sql_err_at(cols, c as int, 1, err);
                        }
                        return Err(e);
                    },
                }
            }
            j += 1;
        }
        assert(rules@.subrange(0, rules@.len() as int) =~= rules@);
        proof {
            assert(cols.subrange(0, c + 1).drop_last() =~= cols.subrange(0, c as int));
            assert(cols.subrange(0, c + 1).last() == cols[c as int]);
        }
        if col_parts.len() == 1 {
            let ghost pp = parts@;
            parts.push(col_parts[0].clone());
            assert(strings_view(parts@) =~= strings_view(pp).push(column_part(strings_view(col_parts@))));
        } else if col_parts.len() > 1 {
            let mut s = String::new();
            push_char(&mut s, '(');
            let joined = join_strings(&col_parts, " OR ");
            push_str(&mut s, joined.as_str());
            push_char(&mut s, ')');
            assert(s@ =~= seq!['('] + joined@ + seq![')']);
            assert(s@ == column_part(strings_view(col_parts@)));
            let ghost pp = parts@;
            parts.push(s);
            assert(strings_view(parts@) =~= strings_view(pp).push(column_part(strings_view(col_parts@))));
        }
        assert(values_view(params@) =~= ps0 + acc);
        proof {
            if col_parts@.len() == 0 {
                assert(ps0 + acc =~= ps0);
            }
        }
        c += 1;
    }
    assert(cols.subrange(0, cols.len() as int) =~= cols);
    let w = join_strings(&parts, " AND ");
    Ok((w, params))
}

/// An error in the first `n` rules is the error of all of them.
proof fn lemma_rules_sql_err_prefix(
    col_name: Seq<char>,
    rules: Seq<FilterRule>,
    n: int,
    next: nat,
    e: FilterFailure,
)
    requires
        0 <= n <= rules.len(),
        rules_sql(col_name, rules.subrange(0, n), next) == Err::<
            (Seq<Seq<char>>, Seq<ValueModel>),
            FilterFailure,
        >(e),
    ensures
        rules_sql(col_name, rules, next) == Err::<(Seq<Seq<char>>, Seq<ValueModel>), FilterFailure>(
            e,
        ),
    decreases rules.len() - n,
{
    if n < rules.len() {
        assert(rules.subrange(0, n + 1).drop_last() =~= rules.subrange(0, n));
        lemma_rules_sql_err_prefix(col_name, rules, n + 1, next, e);
    } else {
        assert(rules.subrange(0, n) =~= rules);
    }
}

/// An error in column `c` (after a successful prefix) is the error of all.
proof fn lemma_columns_sql_err_at(cols: Seq<(String, ColumnFilter)>, c: int, next: nat, e: FilterFailure)
    requires
        0 <= c < cols.len(),
        columns_sql(cols.subrange(0, c), next) is Ok,
        rules_sql(
            cols[c].0@,
            cols[c].1.rules@,
            next + (columns_sql(cols.subrange(0, c), next)->Ok_0).1.len(),
        ) == Err::<(Seq<Seq<char>>, Seq<ValueModel>), FilterFailure>(e),
    ensures
        columns_sql(cols, next) == Err::<(Seq<Seq<char>>, Seq<ValueModel>), FilterFailure>(e),
{
    assert(cols.subrange(0, c + 1).drop_last() =~= cols.subrange(0, c));
    assert(cols.subrange(0, c + 1).last() == cols[c]);
    lemma_columns_sql_err_prefix(cols, c + 1, next, e);
}

proof fn lemma_columns_sql_err_prefix(
    cols: Seq<(String, ColumnFilter)>,
    n: int,
    next: nat,
    e: FilterFailure,
)
    requires
        0 <= n <= cols.len(),
        columns_sql(cols.subrange(0, n), next) == Err::<
            (Seq<Seq<char>>, Seq<ValueModel>),
            FilterFailure,
        >(e),
    ensures
        columns_sql(cols, next) == Err::<(Seq<Seq<char>>, Seq<ValueModel>), FilterFailure>(e),
    decreases cols.len() - n,
{
    if n < cols.len() {
        assert(cols.subrange(0, n + 1).drop_last() =~= cols.subrange(0, n));
        lemma_columns_sql_err_prefix(cols, n + 1, next, e);
    } else {
        assert(cols.subrange(0, n) =~= cols);
    }
}

/// No enabled rule in `rules` gives no clause and no value.
proof fn lemma_rules_sql_none_enabled(col_name: Seq<char>, rules: Seq<FilterRule>, next: nat)
    requires
        forall|i: int| 0 <= i < rules.len() ==> !(#[trigger] rules[i]).enabled,
    ensures
        rules_sql(col_name, rules, next) == Ok::<(Seq<Seq<char>>, Seq<ValueModel>), FilterFailure>(
            (Seq::empty(), Seq::empty()),
        ),
    decreases rules.len(),
{
    if rules.len() > 0 {
        let front = rules.drop_last();
        assert forall|i: int| 0 <= i < front.len() implies !(#[trigger] front[i]).enabled by {
            assert(front[i] == rules[i]);
        }
        lemma_rules_sql_none_enabled(col_name, front, next);
        assert(!rules[rules.len() - 1].enabled);
    }
}

/// A filter set in which no rule is enabled filters nothing: its condition
/// is empty and it binds no value, whatever its columns and disabled rules
/// hold.
pub proof fn lemma_no_enabled_rule_filters_nothing(filter: FilterSet)
    requires
        forall|c: int, i: int|
            0 <= c < filter.columns@.len() && 0 <= i < filter.columns@[c].1.rules@.len()
                ==> !(#[trigger] filter.columns@[c].1.rules@[i]).enabled,
    ensures
        filter_sql(filter) == Ok::<(Seq<char>, Seq<ValueModel>), FilterFailure>(
            (Seq::empty(), Seq::empty()),
        ),
{
    lemma_columns_sql_none_enabled(filter.columns@, 1);
}

proof fn lemma_columns_sql_none_enabled(cols: Seq<(String, ColumnFilter)>, next: nat)
    requires
        forall|c: int, i: int|
            0 <= c < cols.len() && 0 <= i < cols[c].1.rules@.len()
                ==> !(#[trigger] cols[c].1.rules@[i]).enabled,
    ensures
        columns_sql(cols, next) == Ok::<(Seq<Seq<char>>, Seq<ValueModel>), FilterFailure>(
            (Seq::empty(), Seq::empty()),
        ),
    decreases cols.len(),
{
    if cols.len() > 0 {
        let front = cols.drop_last();
        assert forall|c: int, i: int|
            0 <= c < front.len() && 0 <= i < front[c].1.rules@.len()
                implies !(#[trigger] front[c].1.rules@[i]).enabled by {
            assert(front[c] == cols[c]);
        }
        lemma_columns_sql_none_enabled(front, next);
        let last = cols.last();
        assert forall|i: int| 0 <= i < last.1.rules@.len() implies !(#[trigger] last.1.rules@[i]).enabled by {
            assert(cols[cols.len() - 1].1.rules@[i] == last.1.rules@[i]);
        }
        lemma_rules_sql_none_enabled(last.0@, last.1.rules@, next);
    }
}

/// The 64-bit FNV-1a hash of `b`.
pub open spec fn fnv1a64(b: Seq<u8>) -> u64
    decreases b.len(),
{
    if b.len() == 0 {
        0xcbf29ce484222325
    } else {
        u64_specs::wrapping_mul(fnv1a64(b.drop_last()) ^ (b.last() as u64), 0x100000001b3)
    }
}

/// Computes the 64-bit FNV-1a hash of `bytes`.
fn fnv1a64_of(bytes: &[u8]) -> (h: u64)
    ensures
        h == fnv1a64(bytes@),
{
    let mut h: u64 = 0xcbf29ce484222325;
    let mut i: usize = 0;
    while i < bytes.len()
        invariant
            i <= bytes.len(),
            h == fnv1a64(bytes@.subrange(0, i as int)),
        decreases bytes.len() - i,
    {
        proof {
            assert(bytes@.subrange(0, i + 1).drop_last() =~= bytes@.subrange(0, i as int));
        }
        h = (h ^ (bytes[i] as u64)).wrapping_mul(0x100000001b3);
        i = i + 1;
    }
    assert(bytes@.subrange(0, bytes.len() as int) =~= bytes@);
    h
}

/// Each byte of `b` as two lowercase hex digits.
pub open spec fn hex_bytes(b: Seq<u8>) -> Seq<char>
    decreases b.len(),
{
    if b.len() == 0 {
        Seq::empty()
    } else {
        hex_bytes(b.drop_last()) + hex_fixed(b.last() as nat, 2)
    }
}

/// Appends each byte of `bytes` as two lowercase hex digits.
fn push_hex_bytes(s: &mut String, bytes: &[u8])
    ensures
        final(s)@ == old(s)@ + hex_bytes(bytes@),
{
    let ghost start = s@;
    let mut i: usize = 0;
    while i < bytes.len()
        invariant
            i <= bytes.len(),
            s@ == start + hex_bytes(bytes@.subrange(0, i as int)),
        decreases bytes.len() - i,
    {
        push_hex_fixed(s, bytes[i] as u64, 2);
        proof {
            assert(bytes@.subrange(0, i + 1).drop_last() =~= bytes@.subrange(0, i as int));
            assert(s@ =~= start + hex_bytes(bytes@.subrange(0, i + 1)));
        }
        i = i + 1;
    }
    assert(bytes@.subrange(0, bytes.len() as int) =~= bytes@);
}

/// The bytes that identify a database among saved filters: the name itself
/// for an in-memory database, else its canonical path when it could be
/// resolved, else the path as given.
pub open spec fn database_identity(db_path: Seq<char>, canonical: Option<Seq<char>>) -> Seq<char> {
    if db_path == ":memory:"@ {
        db_path
    } else {
        match canonical {
            Some(c) => c,
            None => db_path,
        }
    }
}

/// Where the filter of `table_name` in the database `db_path` is saved,
/// under the local data directory: one directory per database, named by
/// the hash of its identity, and one file per table, named by the hex of
/// the table name.
pub open spec fn filter_file(db_path: Seq<char>, canonical: Option<Seq<char>>, table_name: Seq<char>, data_dir: Seq<char>) -> Seq<char> {
    joined(
        joined(joined(data_dir, "filters-v2"@), hex_fixed(fnv1a64(encode_utf8(database_identity(db_path, canonical))) as nat, 16)),
        hex_bytes(encode_utf8(table_name)) + ".toml"@,
    )
}

/// The saved-filter file of `table_name` in the database `db_path`, whose
/// canonical path is `canonical` when it could be resolved; none when the
/// local data directory is unknown.
pub fn filter_path(db_path: &str, canonical: Option<&str>, table_name: &str, data_dir: Option<&str>) -> (r: Option<String>)
    ensures
        match data_dir {
            Some(d) => r is Some && r->0@ == filter_file(db_path@, opt_view(canonical), table_name@, d@),
            None => r is None,
        },
{
    let d = match data_dir {
        Some(d) => d,
        None => {
            return None;
        },
    };
    let identity: &str = if str_eq(db_path, ":memory:") {
        db_path
    } else {
        match canonical {
            Some(c) => c,
            None => db_path,
        }
    };
    let database_key = fnv1a64_of(identity.as_bytes());
    let mut key_dir = String::new();
    push_hex_fixed(&mut key_dir, database_key, 16);
    let mut file_name = String::new();
    push_hex_bytes(&mut file_name, table_name.as_bytes());
    push_str(&mut file_name, ".toml");
    assert(file_name@ =~= hex_bytes(encode_utf8(table_name@)) + ".toml"@);
    assert(key_dir@ =~= hex_fixed(fnv1a64(encode_utf8(identity@)) as nat, 16));
    let base = path_join(d, "filters-v2");
    let dir = path_join(base.as_str(), key_dir.as_str());
    Some(path_join(dir.as_str(), file_name.as_str()))
}

/// Whether two strings hold the same characters.
fn str_eq(a: &str, b: &str) -> (r: bool)
    ensures
        r == (a@ == b@),
{
    let n = a.unicode_len();
    if n != b.unicode_len() {
        return false;
    }
    let mut i: usize = 0;
    while i < n
        invariant
            n == a@.len(),
            n == b@.len(),
            i <= n,
            a@.subrange(0, i as int) == b@.subrange(0, i as int),
        decreases n - i,
    {
        if a.get_char(i) != b.get_char(i) {
            return false;
        }
        assert(a@.subrange(0, i + 1) =~= a@.subrange(0, i as int).push(a@[i as int]));
        assert(b@.subrange(0, i + 1) =~= b@.subrange(0, i as int).push(b@[i as int]));
        i = i + 1;
    }
    assert(a@ =~= a@.subrange(0, n as int));
    assert(b@ =~= b@.subrange(0, n as int));
    true
}

/// A lowercase hex digit.
pub open spec fn is_hex_digit_char(c: char) -> bool {
    ('0' <= c <= '9') || ('a' <= c <= 'f')
}

/// Fixed-width hex renderings hold hex digits only.
pub proof fn lemma_hex_fixed_digits(v: nat, n: nat)
    ensures
        hex_fixed(v, n).len() == n,
        forall|i: int| 0 <= i < n ==> is_hex_digit_char(#[trigger] hex_fixed(v, n)[i]),
    decreases n,
{
    if n > 0 {
        lemma_hex_fixed_digits(v / 16, (n - 1) as nat);
    }
}

/// A table's filter file name is hex digits followed by `.toml`, whatever
/// the table is called: no table name can lead out of its database's
/// filter directory.
pub proof fn lemma_table_key_is_hex(b: Seq<u8>)
    ensures
        forall|i: int| 0 <= i < hex_bytes(b).len() ==> is_hex_digit_char(#[trigger] hex_bytes(b)[i]),
        hex_bytes(b).len() == 2 * b.len(),
    decreases b.len(),
{
    if b.len() > 0 {
        lemma_table_key_is_hex(b.drop_last());
        lemma_hex_fixed_digits(b.last() as nat, 2);
        let p = hex_bytes(b.drop_last());
        let q = hex_fixed(b.last() as nat, 2);
        assert forall|i: int| 0 <= i < hex_bytes(b).len() implies is_hex_digit_char(#[trigger] hex_bytes(b)[i]) by {
            if i < p.len() {
                assert(hex_bytes(b)[i] == p[i]);
            } else {
                assert(hex_bytes(b)[i] == q[i - p.len()]);
            }
        }
    }
}

/// Whether `regex` finds a match of `pattern` in `text`, for a pattern
/// that compiles.
pub uninterp spec fn regex_is_match(pattern: Seq<char>, text: Seq<char>) -> bool;

/// Compiles `pattern` with `regex::Regex::new` and calls `is_match` on
/// `text`; `None` when the pattern does not compile. Claimed: the outcome
/// is the compile name's and the match name's for these arguments.
#[verifier::external_body]
fn regex_match(pattern: &str, text: &str) -> (r: Option<bool>)
    ensures
        match r {
            None => regex_error_message(pattern@) is Some,
            Some(b) => regex_error_message(pattern@) is None && b == regex_is_match(pattern@, text@),
        },
{
    regex::Regex::new(pattern).ok().map(|re| re.is_match(text))
}

/// The database's `regexp(pattern, text)` function: the compile error's
/// message for a bad pattern, false for a NULL text, else whether the
/// pattern matches somewhere in the text.
pub fn sqlite_regexp(pattern: &str, text: Option<&str>) -> (r: Result<bool, String>)
    ensures
        match regex_error_message(pattern@) {
            Some(m) => r matches Err(e) && e@ == m,
            None => r matches Ok(b) && b == match text {
                Some(t) => regex_is_match(pattern@, t@),
                None => false,
            },
        },
{
    match regex_check(pattern) {
        Some(message) => {
            return Err(message);
        },
        None => {},
    }
    match text {
        None => Ok(false),
        Some(t) => match regex_match(pattern, t) {
            Some(b) => Ok(b),
            None => Ok(false),
        },
    }
}


/// A filter set whose one column holds exactly one enabled rule.
pub open spec fn one_rule_set(f: FilterSet, rule: FilterRule) -> bool {
    &&& f.columns@.len() == 1
    &&& f.columns@[0].1.rules@.len() == 1
    &&& f.columns@[0].1.rules@[0] == rule
    &&& rule.enabled
}

/// `?1`, the first positional parameter.
proof fn lemma_first_placeholder()
    ensures
        placeholder(1) == seq!['?', '1'],
{
    assert(nat_decimal(1) == seq![digit_char(1)]);
    assert(digit_char(1) == '1');
    assert(placeholder(1) =~= seq!['?', '1']);
}

/// With one column holding one enabled rule, the condition is that rule's
/// clause with its parameters numbered from `?1`.
proof fn lemma_single_rule_filter(f: FilterSet, rule: FilterRule)
    requires
        one_rule_set(f, rule),
    ensures
        filter_sql(f) == match rule_sql(f.columns@[0].0@, rule, 1) {
            Ok((c, p)) => Ok::<(Seq<char>, Seq<ValueModel>), FilterFailure>((c, p)),
            Err(e) => Err(e),
        },
{
    let cols = f.columns@;
    let rules = cols[0].1.rules@;
    assert(cols.drop_last() =~= Seq::<(String, ColumnFilter)>::empty());
    assert(rules.drop_last() =~= Seq::<FilterRule>::empty());
    assert(rules_sql(cols[0].0@, rules.drop_last(), 1) == Ok::<(Seq<Seq<char>>, Seq<ValueModel>), FilterFailure>(
        (Seq::empty(), Seq::empty()),
    ));
    assert(columns_sql(cols.drop_last(), 1) == Ok::<(Seq<Seq<char>>, Seq<ValueModel>), FilterFailure>(
        (Seq::empty(), Seq::empty()),
    ));
    match rule_sql(cols[0].0@, rule, 1) {
        Ok((c, p)) => {
            assert(Seq::<ValueModel>::empty() + p =~= p);
            assert(rules_sql(cols[0].0@, rules, 1) == Ok::<(Seq<Seq<char>>, Seq<ValueModel>), FilterFailure>(
                (seq![c], p),
            ));
            assert(Seq::<Seq<char>>::empty().push(column_part(seq![c])) =~= seq![c]);
            assert(columns_sql(cols, 1) == Ok::<(Seq<Seq<char>>, Seq<ValueModel>), FilterFailure>((seq![c], p)));
            assert(join(seq![c], " AND "@) == c);
        },
        Err(e) => {
            assert(rules_sql(cols[0].0@, rules, 1) == Err::<(Seq<Seq<char>>, Seq<ValueModel>), FilterFailure>(e));
        },
    }
}

/// A comparison rule on column `c` keeps the rows whose value compares
/// with the bound as the operator says: `=`, `!=`, the strict `<` and `>`,
/// and the non-strict `<=` and `>=` (which keep a row equal to the bound),
/// against the literal bound as `?1`.
pub proof fn lemma_comparison_filters(f: FilterSet, rule: FilterRule, v: SqlValue)
    requires
        one_rule_set(f, rule),
        rule.value == FilterValue::Literal(v),
        rule.op is Eq || rule.op is Ne || rule.op is Lt || rule.op is Le || rule.op is Gt || rule.op is Ge,
    ensures
        filter_sql(f) == Ok::<(Seq<char>, Seq<ValueModel>), FilterFailure>(
            (
                quoted(f.columns@[0].0@) + match rule.op {
                    FilterOp::Eq => " = ?1"@,
                    FilterOp::Ne => " != ?1"@,
                    FilterOp::Lt => " < ?1"@,
                    FilterOp::Le => " <= ?1"@,
                    FilterOp::Gt => " > ?1"@,
                    _ => " >= ?1"@,
                },
                seq![v@],
            ),
        ),
{
    lemma_single_rule_filter(f, rule);
    lemma_first_placeholder();
    reveal_strlit(" = ?1");
    reveal_strlit(" != ?1");
    reveal_strlit(" < ?1");
    reveal_strlit(" <= ?1");
    reveal_strlit(" > ?1");
    reveal_strlit(" >= ?1");
    reveal_strlit(" = ");
    reveal_strlit(" != ");
    reveal_strlit(" < ");
    reveal_strlit(" <= ");
    reveal_strlit(" > ");
    reveal_strlit(" >= ");
    let qc = quoted(f.columns@[0].0@);
    assert(" = "@ + placeholder(1) =~= " = ?1"@);
    assert(" != "@ + placeholder(1) =~= " != ?1"@);
    assert(" < "@ + placeholder(1) =~= " < ?1"@);
    assert(" <= "@ + placeholder(1) =~= " <= ?1"@);
    assert(" > "@ + placeholder(1) =~= " > ?1"@);
    assert(" >= "@ + placeholder(1) =~= " >= ?1"@);
    assert(qc + " = "@ + placeholder(1) =~= qc + (" = "@ + placeholder(1)));
    assert(qc + " != "@ + placeholder(1) =~= qc + (" != "@ + placeholder(1)));
    assert(qc + " < "@ + placeholder(1) =~= qc + (" < "@ + placeholder(1)));
    assert(qc + " <= "@ + placeholder(1) =~= qc + (" <= "@ + placeholder(1)));
    assert(qc + " > "@ + placeholder(1) =~= qc + (" > "@ + placeholder(1)));
    assert(qc + " >= "@ + placeholder(1) =~= qc + (" >= "@ + placeholder(1)));
}

/// The `<=` and `<` rules on the same column and bound are different
/// conditions: `<=` keeps the rows equal to the bound, `<` does not.
pub proof fn lemma_le_is_not_lt(f: FilterSet, g: FilterSet, le: FilterRule, lt: FilterRule, v: SqlValue)
    requires
        one_rule_set(f, le),
        one_rule_set(g, lt),
        f.columns@[0].0@ == g.columns@[0].0@,
        le.op == FilterOp::Le,
        lt.op == FilterOp::Lt,
        le.value == FilterValue::Literal(v),
        lt.value == FilterValue::Literal(v),
    ensures
        filter_sql(f) != filter_sql(g),
{
    lemma_comparison_filters(f, le, v);
    lemma_comparison_filters(g, lt, v);
    reveal_strlit(" <= ?1");
    reveal_strlit(" < ?1");
    let qc = quoted(f.columns@[0].0@);
    assert((qc + " <= ?1"@).len() != (qc + " < ?1"@).len());
}

/// The date rules compare calendar parts of the column with today's:
/// `Today` the date, `ThisWeek` from this week's Monday on, `ThisMonth` year
/// and month together (the same month of another year is not kept),
/// `ThisYear` the year; `IsNull` and `IsNotNull` test for NULL. None binds a
/// value, whatever the rule holds.
pub proof fn lemma_valueless_filters(f: FilterSet, rule: FilterRule)
    requires
        one_rule_set(f, rule),
        rule.op is Today || rule.op is ThisWeek || rule.op is ThisMonth || rule.op is ThisYear || rule.op is IsNull
            || rule.op is IsNotNull,
    ensures
        ({
            let qc = quoted(f.columns@[0].0@);
            filter_sql(f) == Ok::<(Seq<char>, Seq<ValueModel>), FilterFailure>(
                (
                    match rule.op {
                        FilterOp::Today => "date("@ + qc + ") = date('now')"@,
                        FilterOp::ThisWeek => "date("@ + qc + ") >= date('now', 'weekday 0', '-6 days')"@,
                        FilterOp::ThisMonth => "strftime('%Y-%m', "@ + qc + ") = strftime('%Y-%m', 'now')"@,
                        FilterOp::ThisYear => "strftime('%Y', "@ + qc + ") = strftime('%Y', 'now')"@,
                        FilterOp::IsNull => qc + " IS NULL"@,
                        _ => qc + " IS NOT NULL"@,
                    },
                    Seq::empty(),
                ),
            )
        }),
{
    lemma_single_rule_filter(f, rule);
}

/// The month rule keeps a date only when both its year and its month are
/// today's: its condition formats the column as year-month (`%Y-%m`), never
/// as the month alone.
pub proof fn lemma_this_month_matches_year_and_month(f: FilterSet, rule: FilterRule)
    requires
        one_rule_set(f, rule),
        rule.op == FilterOp::ThisMonth,
    ensures
        filter_sql(f) is Ok,
        filter_sql(f)->Ok_0.0.subrange(0, 18) == "strftime('%Y-%m', "@,
        filter_sql(f)->Ok_0.1.len() == 0,
{
    lemma_valueless_filters(f, rule);
    reveal_strlit("strftime('%Y-%m', ");
    let qc = quoted(f.columns@[0].0@);
    let t = "strftime('%Y-%m', "@ + qc + ") = strftime('%Y-%m', 'now')"@;
    assert(t.subrange(0, 18) =~= "strftime('%Y-%m', "@);
}

/// A text rule matches the literal text given, with `%`, `_` and `\`
/// escaped: `Contains` anywhere, `NotContains` nowhere, `StartsWith` at the
/// start and `EndsWith` at the end, bound as `?1` with `ESCAPE '\'`.
pub proof fn lemma_text_filters(f: FilterSet, rule: FilterRule, p: String)
    requires
        one_rule_set(f, rule),
        rule.value == FilterValue::Pattern(p),
        rule.op is Contains || rule.op is NotContains || rule.op is StartsWith || rule.op is EndsWith,
    ensures
        ({
            let qc = quoted(f.columns@[0].0@);
            let e = escape_like(p@);
            filter_sql(f) == Ok::<(Seq<char>, Seq<ValueModel>), FilterFailure>(
                match rule.op {
                    FilterOp::Contains => (qc + " LIKE ?1 ESCAPE '\\'"@, seq![ValueModel::Text(seq!['%'] + e + seq!['%'])]),
                    FilterOp::NotContains => (qc + " NOT LIKE ?1 ESCAPE '\\'"@, seq![ValueModel::Text(seq!['%'] + e + seq!['%'])]),
                    FilterOp::StartsWith => (qc + " LIKE ?1 ESCAPE '\\'"@, seq![ValueModel::Text(e + seq!['%'])]),
                    _ => (qc + " LIKE ?1 ESCAPE '\\'"@, seq![ValueModel::Text(seq!['%'] + e)]),
                },
            )
        }),
{
    lemma_single_rule_filter(f, rule);
    lemma_first_placeholder();
    reveal_strlit(" LIKE ?1 ESCAPE '\\'");
    reveal_strlit(" NOT LIKE ?1 ESCAPE '\\'");
    reveal_strlit(" LIKE ");
    reveal_strlit(" NOT LIKE ");
    reveal_strlit(" ESCAPE '\\'");
    let qc = quoted(f.columns@[0].0@);
    let e = escape_like(p@);
    assert(qc + " LIKE "@ + placeholder(1) + " ESCAPE '\\'"@ =~= qc + " LIKE ?1 ESCAPE '\\'"@);
    assert(qc + " NOT LIKE "@ + placeholder(1) + " ESCAPE '\\'"@ =~= qc + " NOT LIKE ?1 ESCAPE '\\'"@);
    assert(Seq::<char>::empty() + e + seq!['%'] =~= e + seq!['%']);
    assert(seq!['%'] + e + Seq::<char>::empty() =~= seq!['%'] + e);
}

/// A range rule keeps the values between its bounds, both included:
/// `"c" BETWEEN ?1 AND ?2` binding the lower then the upper bound.
pub proof fn lemma_between_filter(f: FilterSet, rule: FilterRule, lo: SqlValue, hi: SqlValue)
    requires
        one_rule_set(f, rule),
        rule.op == FilterOp::Between,
        rule.value == FilterValue::Range(lo, hi),
    ensures
        filter_sql(f) == Ok::<(Seq<char>, Seq<ValueModel>), FilterFailure>(
            (quoted(f.columns@[0].0@) + " BETWEEN ?1 AND ?2"@, seq![lo@, hi@]),
        ),
{
    lemma_single_rule_filter(f, rule);
    lemma_first_placeholder();
    assert(nat_decimal(2) == seq![digit_char(2)]);
    assert(digit_char(2) == '2');
    reveal_strlit(" BETWEEN ?1 AND ?2");
    reveal_strlit(" BETWEEN ");
    reveal_strlit(" AND ");
    let qc = quoted(f.columns@[0].0@);
    assert(qc + " BETWEEN "@ + placeholder(1) + " AND "@ + placeholder(2) =~= qc + " BETWEEN ?1 AND ?2"@);
}


/// The SQL text of a comparison operator, with the spaces around it.
pub open spec fn comparison_text(op: FilterOp) -> Seq<char> {
    match op {
        FilterOp::Eq => " = "@,
        FilterOp::Ne => " != "@,
        FilterOp::Lt => " < "@,
        FilterOp::Le => " <= "@,
        FilterOp::Gt => " > "@,
        _ => " >= "@,
    }
}

/// A comparison operator.
pub open spec fn is_comparison(op: FilterOp) -> bool {
    op is Eq || op is Ne || op is Lt || op is Le || op is Gt || op is Ge
}

/// A comparison rule with literal `v` on column `col_name` is the comparison
/// of the quoted column with `?next`, binding `v`.
proof fn lemma_comparison_rule(col_name: Seq<char>, rule: FilterRule, v: SqlValue, next: nat)
    requires
        is_comparison(rule.op),
        rule.value == FilterValue::Literal(v),
    ensures
        rule_sql(col_name, rule, next) == Ok::<(Seq<char>, Seq<ValueModel>), FilterFailure>(
            (quoted(col_name) + comparison_text(rule.op) + placeholder(next), seq![v@]),
        ),
{
}

/// `?2`, the second positional parameter.
proof fn lemma_second_placeholder()
    ensures
        placeholder(2) == seq!['?', '2'],
{
    assert(nat_decimal(2) == seq![digit_char(2)]);
    assert(digit_char(2) == '2');
    assert(placeholder(2) =~= seq!['?', '2']);
}

/// Two enabled comparison rules on one column are alternatives: the
/// condition is `(first OR second)`, the first bound as `?1` and the second
/// as `?2`, in the order of the rules.
pub proof fn lemma_rules_on_a_column_are_alternatives(f: FilterSet, r1: FilterRule, r2: FilterRule, v1: SqlValue, v2: SqlValue)
    requires
        f.columns@.len() == 1,
        f.columns@[0].1.rules@ == seq![r1, r2],
        r1.enabled,
        r2.enabled,
        is_comparison(r1.op),
        is_comparison(r2.op),
        r1.value == FilterValue::Literal(v1),
        r2.value == FilterValue::Literal(v2),
    ensures
        ({
            let qc = quoted(f.columns@[0].0@);
            filter_sql(f) == Ok::<(Seq<char>, Seq<ValueModel>), FilterFailure>(
                (
                    seq!['('] + qc + comparison_text(r1.op) + seq!['?', '1'] + " OR "@ + qc + comparison_text(r2.op)
                        + seq!['?', '2', ')'],
                    seq![v1@, v2@],
                ),
            )
        }),
{
    let cols = f.columns@;
    let name = cols[0].0@;
    let rules = cols[0].1.rules@;
    let qc = quoted(name);
    lemma_first_placeholder();
    lemma_second_placeholder();
    lemma_comparison_rule(name, r1, v1, 1);
    lemma_comparison_rule(name, r2, v2, 2);
    let c1 = qc + comparison_text(r1.op) + placeholder(1);
    let c2 = qc + comparison_text(r2.op) + placeholder(2);
    let one = rules.drop_last();
    assert(one =~= seq![r1]);
    assert(one.drop_last() =~= Seq::<FilterRule>::empty());
    assert(rules_sql(name, one.drop_last(), 1) == Ok::<(Seq<Seq<char>>, Seq<ValueModel>), FilterFailure>(
        (Seq::empty(), Seq::empty()),
    ));
    assert(Seq::<ValueModel>::empty() + seq![v1@] =~= seq![v1@]);
    assert(Seq::<Seq<char>>::empty().push(c1) =~= seq![c1]);
    assert(rules_sql(name, one, 1) == Ok::<(Seq<Seq<char>>, Seq<ValueModel>), FilterFailure>((seq![c1], seq![v1@])));
    assert(seq![c1].push(c2) =~= seq![c1, c2]);
    assert(seq![v1@] + seq![v2@] =~= seq![v1@, v2@]);
    assert(rules_sql(name, rules, 1) == Ok::<(Seq<Seq<char>>, Seq<ValueModel>), FilterFailure>(
        (seq![c1, c2], seq![v1@, v2@]),
    ));
    assert(seq![c1, c2].drop_last() =~= seq![c1]);
    assert(seq![c1, c2].last() == c2);
    assert(join(seq![c1], " OR "@) == c1);
    assert(join(seq![c1, c2], " OR "@) == c1 + " OR "@ + c2);
    let part = column_part(seq![c1, c2]);
    assert(cols.drop_last() =~= Seq::<(String, ColumnFilter)>::empty());
    assert(Seq::<Seq<char>>::empty().push(part) =~= seq![part]);
    assert(Seq::<ValueModel>::empty() + seq![v1@, v2@] =~= seq![v1@, v2@]);
    assert(columns_sql(cols.drop_last(), 1) == Ok::<(Seq<Seq<char>>, Seq<ValueModel>), FilterFailure>(
        (Seq::empty(), Seq::empty()),
    ));
    assert(cols.last() == cols[0]);
    assert(columns_sql(cols, 1) == Ok::<(Seq<Seq<char>>, Seq<ValueModel>), FilterFailure>((seq![part], seq![v1@, v2@])));
    assert(join(seq![part], " AND "@) == part);
    assert(part =~= seq!['('] + qc + comparison_text(r1.op) + seq!['?', '1'] + " OR "@ + qc + comparison_text(r2.op)
        + seq!['?', '2', ')']);
}

/// Rules on two columns must both hold: the condition is `first AND
/// second`, the first column's value bound as `?1` and the second's as `?2`.
pub proof fn lemma_columns_are_conjoined(f: FilterSet, r1: FilterRule, r2: FilterRule, v1: SqlValue, v2: SqlValue)
    requires
        f.columns@.len() == 2,
        f.columns@[0].1.rules@ == seq![r1],
        f.columns@[1].1.rules@ == seq![r2],
        r1.enabled,
        r2.enabled,
        is_comparison(r1.op),
        is_comparison(r2.op),
        r1.value == FilterValue::Literal(v1),
        r2.value == FilterValue::Literal(v2),
    ensures
        filter_sql(f) == Ok::<(Seq<char>, Seq<ValueModel>), FilterFailure>(
            (
                quoted(f.columns@[0].0@) + comparison_text(r1.op) + seq!['?', '1'] + " AND "@ + quoted(f.columns@[1].0@)
                    + comparison_text(r2.op) + seq!['?', '2'],
                seq![v1@, v2@],
            ),
        ),
{
    let cols = f.columns@;
    let n1 = cols[0].0@;
    let n2 = cols[1].0@;
    lemma_first_placeholder();
    lemma_second_placeholder();
    lemma_comparison_rule(n1, r1, v1, 1);
    lemma_comparison_rule(n2, r2, v2, 2);
    let c1 = quoted(n1) + comparison_text(r1.op) + placeholder(1);
    let c2 = quoted(n2) + comparison_text(r2.op) + placeholder(2);
    let rs1 = cols[0].1.rules@;
    let rs2 = cols[1].1.rules@;
    assert(rs1.drop_last() =~= Seq::<FilterRule>::empty());
    assert(rs2.drop_last() =~= Seq::<FilterRule>::empty());
    assert(rules_sql(n1, rs1.drop_last(), 1) == Ok::<(Seq<Seq<char>>, Seq<ValueModel>), FilterFailure>(
        (Seq::empty(), Seq::empty()),
    ));
    assert(rules_sql(n2, rs2.drop_last(), 2) == Ok::<(Seq<Seq<char>>, Seq<ValueModel>), FilterFailure>(
        (Seq::empty(), Seq::empty()),
    ));
    assert(Seq::<ValueModel>::empty() + seq![v1@] =~= seq![v1@]);
    assert(Seq::<ValueModel>::empty() + seq![v2@] =~= seq![v2@]);
    assert(Seq::<Seq<char>>::empty().push(c1) =~= seq![c1]);
    assert(Seq::<Seq<char>>::empty().push(c2) =~= seq![c2]);
    assert(rules_sql(n1, rs1, 1) == Ok::<(Seq<Seq<char>>, Seq<ValueModel>), FilterFailure>((seq![c1], seq![v1@])));
    assert(rules_sql(n2, rs2, 2) == Ok::<(Seq<Seq<char>>, Seq<ValueModel>), FilterFailure>((seq![c2], seq![v2@])));
    let first = cols.drop_last();
    assert(first.len() == 1 && first[0] == cols[0]);
    assert(first.drop_last() =~= Seq::<(String, ColumnFilter)>::empty());
    assert(columns_sql(first.drop_last(), 1) == Ok::<(Seq<Seq<char>>, Seq<ValueModel>), FilterFailure>(
        (Seq::empty(), Seq::empty()),
    ));
    assert(first.last() == cols[0]);
    assert(cols.last() == cols[1]);
    assert(columns_sql(first, 1) == Ok::<(Seq<Seq<char>>, Seq<ValueModel>), FilterFailure>((seq![c1], seq![v1@])));
    assert(seq![c1].push(c2) =~= seq![c1, c2]);
    assert(seq![v1@] + seq![v2@] =~= seq![v1@, v2@]);
    assert(columns_sql(cols, 1) == Ok::<(Seq<Seq<char>>, Seq<ValueModel>), FilterFailure>(
        (seq![c1, c2], seq![v1@, v2@]),
    ));
    assert(seq![c1, c2].drop_last() =~= seq![c1]);
    assert(seq![c1, c2].last() == c2);
    assert(join(seq![c1], " AND "@) == c1);
    assert(join(seq![c1, c2], " AND "@) == c1 + " AND "@ + c2);
    assert(c1 + " AND "@ + c2 =~= quoted(n1) + comparison_text(r1.op) + seq!['?', '1'] + " AND "@ + quoted(n2)
        + comparison_text(r2.op) + seq!['?', '2']);
}

/// The day-count rule keeps the dates from `n` days ago on, for `n >= 0`;
/// a negative count is refused, and so is a rule without a count.
pub proof fn lemma_last_n_days_filter(f: FilterSet, rule: FilterRule)
    requires
        one_rule_set(f, rule),
        rule.op == FilterOp::LastNDays,
    ensures
        match rule.value {
            FilterValue::N(n) => filter_sql(f) == if n < 0 {
                Err::<(Seq<char>, Seq<ValueModel>), FilterFailure>(FilterFailure::NegativeDayCount)
            } else {
                Ok((
                    "date("@ + quoted(f.columns@[0].0@) + ") >= date('now', '-"@ + nat_decimal(n as nat) + " days')"@,
                    Seq::empty(),
                ))
            },
            _ => filter_sql(f) == Err::<(Seq<char>, Seq<ValueModel>), FilterFailure>(FilterFailure::RequiresDayCount),
        },
{
    lemma_single_rule_filter(f, rule);
}

/// A comparison needs a literal bound, a text rule a pattern, a range two
/// bounds and a list at least one value: anything else is refused with the
/// matching error.
pub proof fn lemma_rules_refuse_wrong_values(f: FilterSet, rule: FilterRule)
    requires
        one_rule_set(f, rule),
    ensures
        is_comparison(rule.op) && !(rule.value is Literal) ==> filter_sql(f) == Err::<
            (Seq<char>, Seq<ValueModel>),
            FilterFailure,
        >(FilterFailure::RequiresLiteral(rule.op)),
        (rule.op is Contains || rule.op is NotContains || rule.op is StartsWith || rule.op is EndsWith
            || rule.op is Like) && !(rule.value is Pattern) ==> filter_sql(f) == Err::<
            (Seq<char>, Seq<ValueModel>),
            FilterFailure,
        >(FilterFailure::RequiresPattern(rule.op)),
        rule.op is Between && !(rule.value is Range) ==> filter_sql(f) == Err::<
            (Seq<char>, Seq<ValueModel>),
            FilterFailure,
        >(FilterFailure::RequiresRange),
        rule.op is In && (rule.value matches FilterValue::List(vs) && vs@.len() == 0) ==> filter_sql(f) == Err::<
            (Seq<char>, Seq<ValueModel>),
            FilterFailure,
        >(FilterFailure::EmptyList),
{
    lemma_single_rule_filter(f, rule);
}

/// A `LIKE` rule passes its pattern through unchanged, wildcards and all.
pub proof fn lemma_like_filter(f: FilterSet, rule: FilterRule, p: String)
    requires
        one_rule_set(f, rule),
        rule.op == FilterOp::Like,
        rule.value == FilterValue::Pattern(p),
    ensures
        filter_sql(f) == Ok::<(Seq<char>, Seq<ValueModel>), FilterFailure>(
            (quoted(f.columns@[0].0@) + " LIKE ?1"@, seq![ValueModel::Text(p@)]),
        ),
{
    lemma_single_rule_filter(f, rule);
    lemma_first_placeholder();
    reveal_strlit(" LIKE ?1");
    reveal_strlit(" LIKE ");
    let qc = quoted(f.columns@[0].0@);
    assert(qc + " LIKE "@ + placeholder(1) =~= qc + " LIKE ?1"@);
}

} // verus!

