//! The SQL text of every read the viewer makes: counts, pages of rows in a
//! stable order, offsets of rows, and schema pragmas. Values are always
//! bound parameters; names are always quoted.

pub mod write;

use vstd::prelude::*;
use crate::filter::{join, placeholder};
use crate::query::{quote_identifier, quoted};
use crate::text::{int_decimal, nat_decimal, push_char, push_decimal, push_signed_decimal, push_str};
use crate::value::{ascii_upper, ascii_upper_chars, ascii_upper_seq, Column, RowIdentity, SqlValue};
use crate::text::{digit_char, lemma_digit_char, string_of};
use vstd::set_lib::{lemma_int_range, lemma_len_subset, lemma_map_size, set_int_range};
use vstd::relations::injective_on;

verus! {

/// Rows fetched together with the rowid of each (none for tables without
/// one).
pub struct FetchedRows {
    pub rows: Vec<Vec<SqlValue>>,
    pub rowids: Vec<Option<i64>>,
}

/// ` WHERE clause`, or nothing for an empty clause.
pub open spec fn where_part(w: Seq<char>) -> Seq<char> {
    if w.len() == 0 {
        Seq::empty()
    } else {
        " WHERE "@ + w
    }
}

/// The `WHERE` part of a statement.
pub fn build_where_part(where_clause: &str) -> (r: String)
    ensures
        r@ == where_part(where_clause@),
{
    let mut r = String::new();
    if where_clause.unicode_len() > 0 {
        push_str(&mut r, " WHERE ");
        push_str(&mut r, where_clause);
    }
    assert(r@ =~= where_part(where_clause@));
    r
}

/// Each name quoted, after `prefix`.
pub open spec fn quoted_names(prefix: Seq<char>, names: Seq<Seq<char>>) -> Seq<Seq<char>> {
    names.map_values(|n: Seq<char>| prefix + quoted(n))
}

/// Each name quoted and followed by ` ASC`.
pub open spec fn asc_terms(names: Seq<Seq<char>>) -> Seq<Seq<char>> {
    names.map_values(|n: Seq<char>| quoted(n) + " ASC"@)
}

/// The names of `cols`.
pub open spec fn column_names(cols: Seq<Column>) -> Seq<Seq<char>> {
    cols.map_values(|c: Column| c.name@)
}

/// The views of `v`.
pub open spec fn names_view(v: Seq<String>) -> Seq<Seq<char>> {
    v.map_values(|s: String| s@)
}

/// The terms that order rows by their identity: the rowid, or the primary
/// key columns ascending.
pub open spec fn identity_terms(id: RowIdentity) -> Seq<char> {
    match id {
        RowIdentity::RowidAlias(a) => quoted(a@),
        RowIdentity::PrimaryKey(cs) => join(asc_terms(names_view(cs@)), ", "@),
    }
}

/// The sort column, if any, then the identity: a total, stable order.
pub open spec fn order_terms(order_by: Option<(Seq<char>, bool)>, id: RowIdentity) -> Seq<char> {
    match order_by {
        Some((c, asc)) => quoted(c) + " "@ + (if asc { "ASC"@ } else { "DESC"@ }) + ", "@ + identity_terms(id),
        None => identity_terms(id),
    }
}

/// The view of an optional sort column.
pub open spec fn order_view(order_by: Option<(&str, bool)>) -> Option<(Seq<char>, bool)> {
    match order_by {
        Some((c, asc)) => Some((c@, asc)),
        None => None,
    }
}

/// Appends `pieces` joined by `", "`, each produced by `f`.
fn push_joined_quoted(out: &mut String, prefix: &str, names: &Vec<String>, suffix: &str)
    ensures
        final(out)@ == old(out)@ + join(
            names_view(names@).map_values(|n: Seq<char>| prefix@ + quoted(n) + suffix@),
            ", "@,
        ),
{
    let ghost start = out@;
    let ghost pieces = names_view(names@).map_values(|n: Seq<char>| prefix@ + quoted(n) + suffix@);
    let mut i: usize = 0;
    assert(pieces.subrange(0, 0) =~= Seq::<Seq<char>>::empty());
    while i < names.len()
        invariant
            i <= names@.len(),
            pieces == names_view(names@).map_values(|n: Seq<char>| prefix@ + quoted(n) + suffix@),
            pieces.len() == names@.len(),
            out@ == start + join(pieces.subrange(0, i as int), ", "@),
        decreases names@.len() - i,
    {
        if i > 0 {
            push_str(out, ", ");
        }
        push_str(out, prefix);
        let q = quote_identifier(names[i].as_str());
        push_str(out, q.as_str());
        push_str(out, suffix);
        proof {
            let sub = pieces.subrange(0, i + 1);
            assert(sub.drop_last() =~= pieces.subrange(0, i as int));
            assert(pieces[i as int] == prefix@ + quoted(names@[i as int]@) + suffix@);
            if i == 0 {
                assert(join(sub, ", "@) == sub[0]);
                assert(join(pieces.subrange(0, 0), ", "@) == Seq::<char>::empty());
            }
            assert(out@ =~= start + join(sub, ", "@));
        }
        i = i + 1;
    }
    assert(pieces.subrange(0, names@.len() as int) =~= pieces);
}

/// The names of `columns`.
pub fn names_of(columns: &[Column]) -> (v: Vec<String>)
    ensures
        names_view(v@) == column_names(columns@),
{
    let mut v: Vec<String> = Vec::new();
    let mut i: usize = 0;
    while i < columns.len()
        invariant
            i <= columns@.len(),
            v@.len() == i,
            names_view(v@) =~= column_names(columns@.subrange(0, i as int)),
        decreases columns@.len() - i,
    {
        let ghost before = v@;
        v.push(columns[i].name.clone());
        proof {
            let sub = columns@.subrange(0, i + 1);
            assert forall|k: int| 0 <= k < i + 1 implies #[trigger] names_view(v@)[k] == column_names(sub)[k] by {
                if k < i {
                    assert(names_view(v@)[k] == v@[k]@);
                    assert(v@[k] == before[k]);
                    assert(names_view(before)[k] == column_names(columns@.subrange(0, i as int))[k]);
                }
            }
        }
        i = i + 1;
        assert(names_view(v@) =~= column_names(columns@.subrange(0, i as int)));
    }
    assert(columns@.subrange(0, columns@.len() as int) =~= columns@);
    v
}

/// The order of a page: by the sort column, if any, then by identity.
pub fn build_order_terms(order_by: Option<(&str, bool)>, identity: &RowIdentity) -> (r: String)
    ensures
        r@ == order_terms(order_view(order_by), *identity),
{
    let mut r = String::new();
    if let Some((column, asc)) = order_by {
        push_str(&mut r, quote_identifier(column).as_str());
        push_str(&mut r, " ");
        push_str(&mut r, if asc { "ASC" } else { "DESC" });
        push_str(&mut r, ", ");
    }
    match identity {
        RowIdentity::RowidAlias(alias) => {
            push_str(&mut r, quote_identifier(alias.as_str()).as_str());
        },
        RowIdentity::PrimaryKey(columns) => {
            push_joined_quoted(&mut r, "", columns, " ASC");
            proof {
                reveal_strlit("");
                assert forall|k: int| 0 <= k < columns@.len() implies names_view(columns@).map_values(|n: Seq<char>| ""@ + quoted(n) + " ASC"@)[k]
                    == #[trigger] asc_terms(names_view(columns@))[k] by {
                    let n = names_view(columns@)[k];
                    assert(""@ + quoted(n) =~= quoted(n));
                }
                assert(names_view(columns@).map_values(|n: Seq<char>| ""@ + quoted(n) + " ASC"@)
                    =~= asc_terms(names_view(columns@)));
            }
        },
    }
    assert(r@ =~= order_terms(order_view(order_by), *identity));
    r
}

/// `SELECT COUNT(*)` over the rows a clause keeps.
pub open spec fn count_sql(table: Seq<char>, w: Seq<char>) -> Seq<char> {
    "SELECT COUNT(*) FROM "@ + quoted(table) + where_part(w)
}

/// The statement counting the rows of `table` that `where_clause` keeps.
pub fn count_rows_sql(table: &str, where_clause: &str) -> (r: String)
    ensures
        r@ == count_sql(table@, where_clause@),
{
    let mut r = String::new();
    push_str(&mut r, "SELECT COUNT(*) FROM ");
    push_str(&mut r, quote_identifier(table).as_str());
    push_str(&mut r, build_where_part(where_clause).as_str());
    assert(r@ =~= count_sql(table@, where_clause@));
    r
}

/// The quoted names of `cols`, comma-separated, each after `prefix`.
pub open spec fn column_list(prefix: Seq<char>, cols: Seq<Column>) -> Seq<char> {
    join(quoted_names(prefix, column_names(cols)), ", "@)
}

/// The quoted column names, comma-separated, each after `prefix`.
pub fn build_column_list(prefix: &str, columns: &[Column]) -> (r: String)
    ensures
        r@ == column_list(prefix@, columns@),
{
    let names = names_of(columns);
    let mut r = String::new();
    push_joined_quoted(&mut r, prefix, &names, "");
    proof {
        reveal_strlit("");
        assert forall|k: int| 0 <= k < names@.len() implies names_view(names@).map_values(|n: Seq<char>| prefix@ + quoted(n) + ""@)[k]
            == #[trigger] quoted_names(prefix@, column_names(columns@))[k] by {
            let n = names_view(names@)[k];
            assert(prefix@ + quoted(n) + ""@ =~= prefix@ + quoted(n));
        }
        assert(names_view(names@).map_values(|n: Seq<char>| prefix@ + quoted(n) + ""@) =~= quoted_names(
            prefix@,
            column_names(columns@),
        ));
    }
    assert(r@ =~= column_list(prefix@, columns@));
    r
}

/// A page of rows with literal bounds.
pub open spec fn page_sql(
    table: Seq<char>,
    cols: Seq<Column>,
    order: Seq<char>,
    w: Seq<char>,
    limit: int,
    offset: int,
) -> Seq<char> {
    "SELECT "@ + column_list(""@, cols) + " FROM "@ + quoted(table) + where_part(w) + " ORDER BY "@ + order
        + " LIMIT "@ + int_decimal(limit) + " OFFSET "@ + int_decimal(offset)
}

/// The statement reading `limit` rows from `offset` in the order of
/// `order_by` and the row identity.
pub fn fetch_rows_sql(
    table: &str,
    columns: &[Column],
    identity: &RowIdentity,
    order_by: Option<(&str, bool)>,
    where_clause: &str,
    limit: i64,
    offset: i64,
) -> (r: String)
    ensures
        r@ == page_sql(
            table@,
            columns@,
            order_terms(order_view(order_by), *identity),
            where_clause@,
            limit as int,
            offset as int,
        ),
{
    let mut r = String::new();
    push_str(&mut r, "SELECT ");
    push_str(&mut r, build_column_list("", columns).as_str());
    push_str(&mut r, " FROM ");
    push_str(&mut r, quote_identifier(table).as_str());
    push_str(&mut r, build_where_part(where_clause).as_str());
    push_str(&mut r, " ORDER BY ");
    push_str(&mut r, build_order_terms(order_by, identity).as_str());
    push_str(&mut r, " LIMIT ");
    push_signed_decimal(&mut r, limit);
    push_str(&mut r, " OFFSET ");
    push_signed_decimal(&mut r, offset);
    assert(r@ =~= page_sql(
        table@,
        columns@,
        order_terms(order_view(order_by), *identity),
        where_clause@,
        limit as int,
        offset as int,
    ));
    r
}

/// A page of rows whose bounds are the two parameters after the clause's.
pub open spec fn bound_page_sql(selection: Seq<char>, table: Seq<char>, order: Seq<char>, w: Seq<char>, params: nat) -> Seq<char> {
    "SELECT "@ + selection + " FROM "@ + quoted(table) + where_part(w) + " ORDER BY "@ + order + " LIMIT "@
        + placeholder(params + 1) + " OFFSET "@ + placeholder(params + 2)
}

fn build_bound_page(selection: &str, table: &str, order: &str, where_clause: &str, params: usize) -> (r: String)
    requires
        params + 2 <= u64::MAX,
    ensures
        r@ == bound_page_sql(selection@, table@, order@, where_clause@, params as nat),
{
    let mut r = String::new();
    push_str(&mut r, "SELECT ");
    push_str(&mut r, selection);
    push_str(&mut r, " FROM ");
    push_str(&mut r, quote_identifier(table).as_str());
    push_str(&mut r, build_where_part(where_clause).as_str());
    push_str(&mut r, " ORDER BY ");
    push_str(&mut r, order);
    push_str(&mut r, " LIMIT ");
    push_char(&mut r, '?');
    push_decimal(&mut r, (params as u64) + 1);
    push_str(&mut r, " OFFSET ");
    push_char(&mut r, '?');
    push_decimal(&mut r, (params as u64) + 2);
    assert(r@ =~= bound_page_sql(selection@, table@, order@, where_clause@, params as nat));
    r
}

/// The statement visiting rows page by page: the clause's `params`
/// parameters come first, then the limit and the offset.
pub fn visit_rows_sql(
    table: &str,
    columns: &[Column],
    identity: &RowIdentity,
    order_by: Option<(&str, bool)>,
    where_clause: &str,
    params: usize,
) -> (r: String)
    requires
        params + 2 <= u64::MAX,
    ensures
        r@ == bound_page_sql(
            column_list(""@, columns@),
            table@,
            order_terms(order_view(order_by), *identity),
            where_clause@,
            params as nat,
        ),
{
    let cols = build_column_list("", columns);
    let order = build_order_terms(order_by, identity);
    build_bound_page(cols.as_str(), table, order.as_str(), where_clause, params)
}

/// The selection of a page with rowids: the rowid first when the table has
/// one, then the columns.
pub open spec fn rowid_selection(id: RowIdentity, cols: Seq<Column>) -> Seq<char> {
    match id {
        RowIdentity::RowidAlias(a) => join(seq![quoted(a@)] + quoted_names(""@, column_names(cols)), ", "@),
        RowIdentity::PrimaryKey(_) => column_list(""@, cols),
    }
}

proof fn lemma_join_prepend(first: Seq<char>, rest: Seq<Seq<char>>, sep: Seq<char>)
    ensures
        join(seq![first] + rest, sep) == if rest.len() == 0 { first } else { first + sep + join(rest, sep) },
    decreases rest.len(),
{
    if rest.len() > 0 {
        let all = seq![first] + rest;
        assert(all.drop_last() =~= seq![first] + rest.drop_last());
        assert(all.last() == rest.last());
        lemma_join_prepend(first, rest.drop_last(), sep);
        if rest.len() == 1 {
            assert(rest.drop_last().len() == 0);
            assert(join(rest, sep) == rest[0]);
        } else {
            assert(join(rest, sep) == join(rest.drop_last(), sep) + sep + rest.last());
        }
    }
}

/// The statement fetching a page of rows with their rowids.
pub fn fetch_rows_with_rowids_sql(
    table: &str,
    columns: &[Column],
    identity: &RowIdentity,
    order_by: Option<(&str, bool)>,
    where_clause: &str,
    params: usize,
) -> (r: String)
    requires
        params + 2 <= u64::MAX,
    ensures
        r@ == bound_page_sql(
            rowid_selection(*identity, columns@),
            table@,
            order_terms(order_view(order_by), *identity),
            where_clause@,
            params as nat,
        ),
{
    let cols = build_column_list("", columns);
    let mut selection = String::new();
    match identity {
        RowIdentity::RowidAlias(alias) => {
            push_str(&mut selection, quote_identifier(alias.as_str()).as_str());
            if columns.len() > 0 {
                push_str(&mut selection, ", ");
                push_str(&mut selection, cols.as_str());
            }
            proof {
                lemma_join_prepend(quoted(alias@), quoted_names(""@, column_names(columns@)), ", "@);
                assert(selection@ =~= rowid_selection(*identity, columns@));
            }
        },
        RowIdentity::PrimaryKey(_) => {
            push_str(&mut selection, cols.as_str());
            assert(selection@ =~= rowid_selection(*identity, columns@));
        },
    }
    let order = build_order_terms(order_by, identity);
    build_bound_page(selection.as_str(), table, order.as_str(), where_clause, params)
}

/// Two names are equal when ASCII letters are compared without case.
pub open spec fn same_name(a: Seq<char>, b: Seq<char>) -> bool {
    ascii_upper_seq(a) == ascii_upper_seq(b)
}

/// Compares two strings, ASCII letters without case (as
/// `str::eq_ignore_ascii_case` does).
pub fn eq_ignore_ascii_case(a: &str, b: &str) -> (r: bool)
    ensures
        r == same_name(a@, b@),
{
    let x = ascii_upper_chars(a);
    let y = ascii_upper_chars(b);
    if x.len() != y.len() {
        return false;
    }
    let mut i: usize = 0;
    while i < x.len()
        invariant
            x@.len() == y@.len(),
            i <= x@.len(),
            x@ == ascii_upper_seq(a@),
            y@ == ascii_upper_seq(b@),
            x@.subrange(0, i as int) == y@.subrange(0, i as int),
        decreases x@.len() - i,
    {
        if x[i] != y[i] {
            return false;
        }
        assert(x@.subrange(0, i + 1) =~= x@.subrange(0, i as int).push(x@[i as int]));
        assert(y@.subrange(0, i + 1) =~= y@.subrange(0, i as int).push(y@[i as int]));
        i = i + 1;
    }
    assert(x@ =~= x@.subrange(0, x@.len() as int));
    assert(y@ =~= y@.subrange(0, y@.len() as int));
    true
}

/// Some column is named `s`, ignoring ASCII case.
pub open spec fn name_taken(cols: Seq<Column>, s: Seq<char>) -> bool {
    exists|i: int| 0 <= i < cols.len() && same_name(#[trigger] cols[i].name@, s)
}

/// Whether some column is named `s`, ignoring ASCII case.
pub fn any_column_named(columns: &[Column], s: &str) -> (r: bool)
    ensures
        r == name_taken(columns@, s@),
{
    let mut i: usize = 0;
    while i < columns.len()
        invariant
            i <= columns@.len(),
            forall|j: int| 0 <= j < i ==> !same_name(#[trigger] columns@[j].name@, s@),
        decreases columns@.len() - i,
    {
        if eq_ignore_ascii_case(columns[i].name.as_str(), s) {
            return true;
        }
        i = i + 1;
    }
    false
}

/// The `k`-th alias tried: the base itself, then `base_1`, `base_2`, ...
pub open spec fn alias_candidate(base: Seq<char>, k: nat) -> Seq<char> {
    if k == 0 {
        base
    } else {
        base + seq!['_'] + nat_decimal(k)
    }
}

proof fn lemma_decimal_injective(a: nat, b: nat)
    requires
        nat_decimal(a) == nat_decimal(b),
    ensures
        a == b,
    decreases a,
{
    lemma_digit_char(a % 10);
    lemma_digit_char(b % 10);
    if a < 10 && b < 10 {
        lemma_digit_char(a);
        lemma_digit_char(b);
        assert(nat_decimal(a)[0] == digit_char(a));
    } else if a >= 10 && b >= 10 {
        assert(nat_decimal(a).last() == digit_char(a % 10));
        assert(nat_decimal(b).last() == digit_char(b % 10));
        assert(nat_decimal(a).drop_last() =~= nat_decimal(a / 10));
        assert(nat_decimal(b).drop_last() =~= nat_decimal(b / 10));
        lemma_decimal_injective(a / 10, b / 10);
    } else {
        lemma_nat_decimal_nonempty(a / 10);
        lemma_nat_decimal_nonempty(b / 10);
        if a < 10 {
            assert(nat_decimal(a).len() == 1);
            assert(nat_decimal(b) == nat_decimal(b / 10).push(digit_char(b % 10)));
        } else {
            assert(nat_decimal(b).len() == 1);
            assert(nat_decimal(a) == nat_decimal(a / 10).push(digit_char(a % 10)));
        }
        assert(nat_decimal(a).len() != nat_decimal(b).len());
    }
}

proof fn lemma_nat_decimal_nonempty(v: nat)
    ensures
        nat_decimal(v).len() >= 1,
        forall|i: int| 0 <= i < nat_decimal(v).len() ==> '0' <= #[trigger] nat_decimal(v)[i] <= '9',
    decreases v,
{
    lemma_digit_char(v % 10);
    if v >= 10 {
        lemma_nat_decimal_nonempty(v / 10);
    } else {
        lemma_digit_char(v);
    }
}

proof fn lemma_candidate_injective(base: Seq<char>, k1: nat, k2: nat)
    requires
        same_name(alias_candidate(base, k1), alias_candidate(base, k2)),
    ensures
        k1 == k2,
{
    let u = ascii_upper_seq(base);
    lemma_nat_decimal_nonempty(k1);
    lemma_nat_decimal_nonempty(k2);
    let c1 = alias_candidate(base, k1);
    let c2 = alias_candidate(base, k2);
    let u1 = ascii_upper_seq(c1);
    let u2 = ascii_upper_seq(c2);
    assert(u1.len() == c1.len());
    assert(u2.len() == c2.len());
    if k1 > 0 && k2 > 0 {
        let d1 = nat_decimal(k1);
        let d2 = nat_decimal(k2);
        assert(d1.len() == d2.len());
        assert forall|i: int| 0 <= i < d1.len() implies d1[i] == d2[i] by {
            let j = base.len() + 1 + i;
            assert(c1[j] == d1[i]);
            assert(c2[j] == d2[i]);
            assert(u1[j] == ascii_upper(c1[j]));
            assert(u2[j] == ascii_upper(c2[j]));
        }
        assert(d1 =~= d2);
        lemma_decimal_injective(k1, k2);
    }
}

/// Some candidate among the first `cols.len() + 1` is free: each column can
/// take at most one of them.
proof fn lemma_some_candidate_free(cols: Seq<Column>, base: Seq<char>)
    ensures
        exists|k: nat| k <= cols.len() && !name_taken(cols, #[trigger] alias_candidate(base, k)),
{
    let n = cols.len() as int;
    if forall|k: nat| k <= cols.len() ==> name_taken(cols, #[trigger] alias_candidate(base, k)) {
        let f = |k: int| choose|i: int| 0 <= i < n && same_name(cols[i].name@, alias_candidate(base, k as nat));
        let x = set_int_range(0, n + 1);
        lemma_int_range(0, n + 1);
        lemma_int_range(0, n);
        assert forall|k: int| x.contains(k) implies 0 <= #[trigger] f(k) < n && same_name(cols[f(k)].name@, alias_candidate(base, k as nat)) by {
            assert(name_taken(cols, alias_candidate(base, k as nat)));
        }
        assert(injective_on(f, x)) by {
            assert forall|a: int, b: int| x.contains(a) && x.contains(b) && #[trigger] f(a) == #[trigger] f(b) implies a == b by {
                let i = f(a);
                assert(same_name(cols[i].name@, alias_candidate(base, a as nat)));
                assert(same_name(cols[i].name@, alias_candidate(base, b as nat)));
                lemma_candidate_injective(base, a as nat, b as nat);
            }
        }
        let y = x.map(f);
        lemma_map_size(x, y, f);
        assert(y.subset_of(set_int_range(0, n)));
        lemma_len_subset(y, set_int_range(0, n));
    }
}

/// The candidate alias `k`.
fn build_candidate(base: &str, k: u64) -> (r: String)
    ensures
        r@ == alias_candidate(base@, k as nat),
{
    let mut r = string_of(base);
    if k > 0 {
        push_char(&mut r, '_');
        push_decimal(&mut r, k);
    }
    r
}

/// The first of `base`, `base_1`, `base_2`, ... that no column is named,
/// ignoring ASCII case.
pub fn unused_column_alias(columns: &[Column], base: &str) -> (r: String)
    ensures
        exists|k: nat| {
            &&& r@ == #[trigger] alias_candidate(base@, k)
            &&& !name_taken(columns@, r@)
            &&& forall|j: nat| j < k ==> name_taken(columns@, #[trigger] alias_candidate(base@, j))
        },
{
    let n = columns.len() as u64;
    let mut k: u64 = 0;
    while k < n
        invariant
            n == columns@.len(),
            k <= n,
            forall|j: nat| j < k ==> name_taken(columns@, #[trigger] alias_candidate(base@, j)),
        decreases n - k,
    {
        let candidate = build_candidate(base, k);
        if !any_column_named(columns, candidate.as_str()) {
            return candidate;
        }
        k = k + 1;
    }
    let candidate = build_candidate(base, n);
    if !any_column_named(columns, candidate.as_str()) {
        return candidate;
    }
    proof {
        lemma_some_candidate_free(columns@, base@);
        let k0 = choose|k: nat| k <= columns@.len() && !name_taken(columns@, #[trigger] alias_candidate(base@, k));
        assert(name_taken(columns@, alias_candidate(base@, k0)));
    }
    candidate
}

/// The indices of the primary-key columns, in column order.
pub open spec fn pk_entries(cols: Seq<Column>) -> Seq<int>
    decreases cols.len(),
{
    if cols.len() == 0 {
        Seq::empty()
    } else {
        let p = pk_entries(cols.drop_last());
        if cols.last().pk_position > 0 {
            p.push(cols.len() - 1)
        } else {
            p
        }
    }
}

/// Column `a` comes before column `b` in key order: by key position, ties
/// kept in column order.
pub open spec fn key_before(cols: Seq<Column>, a: int, b: int) -> bool {
    cols[a].pk_position < cols[b].pk_position || (cols[a].pk_position == cols[b].pk_position && a < b)
}

/// How many of `es` come before column `e` in key order.
pub open spec fn count_before(cols: Seq<Column>, es: Seq<int>, e: int) -> nat
    decreases es.len(),
{
    if es.len() == 0 {
        0
    } else {
        count_before(cols, es.drop_last(), e) + (if key_before(cols, es.last(), e) { 1nat } else { 0nat })
    }
}

/// The primary-key column names in key order: the `j`-th key column of the
/// table lands at its rank among the key columns.
pub open spec fn in_key_order(cols: Seq<Column>, names: Seq<Seq<char>>) -> bool {
    let es = pk_entries(cols);
    &&& names.len() == es.len()
    &&& forall|j: int| 0 <= j < es.len() ==> names[count_before(cols, es, #[trigger] es[j]) as int] == cols[es[j]].name@
}

proof fn lemma_pk_entries(cols: Seq<Column>)
    ensures
        forall|j: int| 0 <= j < pk_entries(cols).len() ==> {
            &&& 0 <= #[trigger] pk_entries(cols)[j] < cols.len()
            &&& cols[pk_entries(cols)[j]].pk_position > 0
        },
        forall|j: int, k: int| 0 <= j < k < pk_entries(cols).len() ==> #[trigger] pk_entries(cols)[j] < #[trigger] pk_entries(cols)[k],
        pk_entries(cols).len() <= cols.len(),
    decreases cols.len(),
{
    if cols.len() > 0 {
        lemma_pk_entries(cols.drop_last());
    }
}

proof fn lemma_count_before_bounds(cols: Seq<Column>, es: Seq<int>, e: int)
    ensures
        count_before(cols, es, e) <= es.len(),
        es.contains(e) ==> count_before(cols, es, e) < es.len(),
    decreases es.len(),
{
    if es.len() > 0 {
        lemma_count_before_bounds(cols, es.drop_last(), e);
        if es.contains(e) && es.last() != e {
            let i = choose|i: int| 0 <= i < es.len() && es[i] == e;
            assert(es.drop_last()[i] == e);
        }
    }
}

/// Ranks are strictly ordered like the key order.
proof fn lemma_count_before_strict(cols: Seq<Column>, es: Seq<int>, a: int, b: int)
    requires
        key_before(cols, a, b),
        es.contains(a),
    ensures
        count_before(cols, es, a) < count_before(cols, es, b),
    decreases es.len(),
{
    let p = es.drop_last();
    if p.contains(a) {
        lemma_count_before_strict(cols, p, a, b);
    } else {
        lemma_count_before_le(cols, p, a, b);
        assert(es.last() == a) by {
            let i = choose|i: int| 0 <= i < es.len() && es[i] == a;
            if i < es.len() - 1 {
                assert(p[i] == a);
            }
        }
    }
}

proof fn lemma_count_before_le(cols: Seq<Column>, es: Seq<int>, a: int, b: int)
    requires
        key_before(cols, a, b),
    ensures
        count_before(cols, es, a) <= count_before(cols, es, b),
    decreases es.len(),
{
    if es.len() > 0 {
        lemma_count_before_le(cols, es.drop_last(), a, b);
    }
}

/// The primary-key column names in key order.
pub fn primary_key_names(columns: &[Column]) -> (names: Vec<String>)
    ensures
        in_key_order(columns@, names_view(names@)),
{
    let ghost cols = columns@;
    let mut es: Vec<usize> = Vec::new();
    let mut i: usize = 0;
    while i < columns.len()
        invariant
            cols == columns@,
            i <= cols.len(),
            es@.len() == pk_entries(cols.subrange(0, i as int)).len(),
            forall|j: int| 0 <= j < es@.len() ==> es@[j] as int == #[trigger] pk_entries(cols.subrange(0, i as int))[j],
        decreases cols.len() - i,
    {
        proof {
            assert(cols.subrange(0, i + 1).drop_last() =~= cols.subrange(0, i as int));
        }
        if columns[i].pk_position > 0 {
            es.push(i);
        }
        i = i + 1;
    }
    assert(cols.subrange(0, cols.len() as int) =~= cols);
    let ghost pk = pk_entries(cols);
    proof {
        lemma_pk_entries(cols);
    }
    let m = es.len();
    let mut names: Vec<String> = Vec::new();
    let mut z: usize = 0;
    while z < m
        invariant
            z <= m,
            names@.len() == z,
        decreases m - z,
    {
        names.push(String::new());
        z = z + 1;
    }
    let mut j: usize = 0;
    while j < m
        invariant
            cols == columns@,
            m == es@.len(),
            pk == pk_entries(cols),
            pk.len() == m,
            forall|t: int| 0 <= t < m ==> es@[t] as int == #[trigger] pk[t],
            forall|t: int| 0 <= t < pk.len() ==> 0 <= #[trigger] pk[t] < cols.len() && cols[pk[t]].pk_position > 0,
            forall|t: int, u: int| 0 <= t < u < pk.len() ==> #[trigger] pk[t] < #[trigger] pk[u],
            j <= m,
            names@.len() == m,
            forall|t: int| 0 <= t < j ==> names@[count_before(cols, pk, #[trigger] pk[t]) as int]@ == cols[pk[t]].name@,
        decreases m - j,
    {
        let e = es[j];
        let mut rank: usize = 0;
        let mut t: usize = 0;
        while t < m
            invariant
                cols == columns@,
                m == es@.len(),
                pk == pk_entries(cols),
                pk.len() == m,
                forall|q: int| 0 <= q < m ==> es@[q] as int == #[trigger] pk[q],
                forall|q: int| 0 <= q < pk.len() ==> 0 <= #[trigger] pk[q] < cols.len(),
                j < m,
                e as int == pk[j as int],
                t <= m,
                rank == count_before(cols, pk.subrange(0, t as int), e as int),
                rank <= t,
            decreases m - t,
        {
            let o = es[t];
            proof {
                assert(es@[t as int] as int == pk[t as int]);
                assert(pk.subrange(0, t + 1).drop_last() =~= pk.subrange(0, t as int));
            }
            if columns[o].pk_position < columns[e].pk_position || (columns[o].pk_position
                == columns[e].pk_position && o < e) {
                rank = rank + 1;
            }
            t = t + 1;
        }
        proof {
            assert(pk.subrange(0, m as int) =~= pk);
            assert(pk.contains(e as int)) by {
                assert(pk[j as int] == e as int);
            }
            lemma_count_before_bounds(cols, pk, e as int);
            assert forall|t: int| 0 <= t < j implies count_before(cols, pk, #[trigger] pk[t]) != count_before(cols, pk, e as int)
                && count_before(cols, pk, pk[t]) < m by {
                let a = pk[t];
                lemma_count_before_bounds(cols, pk, a);
                assert(a < e);
                assert(pk.contains(a)) by {
                    assert(pk[t] == a);
                }
                if key_before(cols, a, e as int) {
                    lemma_count_before_strict(cols, pk, a, e as int);
                } else {
                    assert(key_before(cols, e as int, a));
                    lemma_count_before_strict(cols, pk, e as int, a);
                }
            }
        }
        names.set(rank, columns[e].name.clone());
        j = j + 1;
    }
    proof {
        assert forall|t: int| 0 <= t < pk.len() implies names_view(names@)[count_before(cols, pk, #[trigger] pk[t]) as int]
            == cols[pk[t]].name@ by {
            lemma_count_before_bounds(cols, pk, pk[t]);
            assert(pk.contains(pk[t]));
        }
    }
    names
}

/// How rows of a table are identified: the first of `rowid`, `_rowid_`,
/// `oid` that no column shadows (unless the table has no rowid), else the
/// primary key; none for a keyless table without a reachable rowid.
pub open spec fn row_identity_ok(without_rowid: bool, cols: Seq<Column>, r: Option<RowIdentity>) -> bool {
    if !without_rowid && !name_taken(cols, "rowid"@) {
        r matches Some(RowIdentity::RowidAlias(a)) && a@ == "rowid"@
    } else if !without_rowid && !name_taken(cols, "_rowid_"@) {
        r matches Some(RowIdentity::RowidAlias(a)) && a@ == "_rowid_"@
    } else if !without_rowid && !name_taken(cols, "oid"@) {
        r matches Some(RowIdentity::RowidAlias(a)) && a@ == "oid"@
    } else if pk_entries(cols).len() == 0 {
        r is None
    } else {
        r matches Some(RowIdentity::PrimaryKey(names)) && in_key_order(cols, names_view(names@))
    }
}

/// The row identity of a table with these columns, given whether it was
/// declared `WITHOUT ROWID`.
pub fn row_identity(without_rowid: bool, columns: &[Column]) -> (r: Option<RowIdentity>)
    ensures
        row_identity_ok(without_rowid, columns@, r),
{
    if !without_rowid {
        if !any_column_named(columns, "rowid") {
            return Some(RowIdentity::RowidAlias(string_of("rowid")));
        }
        if !any_column_named(columns, "_rowid_") {
            return Some(RowIdentity::RowidAlias(string_of("_rowid_")));
        }
        if !any_column_named(columns, "oid") {
            return Some(RowIdentity::RowidAlias(string_of("oid")));
        }
    }
    let names = primary_key_names(columns);
    if names.len() == 0 {
        None
    } else {
        Some(RowIdentity::PrimaryKey(names))
    }
}

/// The statement finding the position, in the current order and filter,
/// of the row with a given rowid (the parameter after the clause's).
pub open spec fn offset_for_rowid_sql(alias: Seq<char>, table: Seq<char>, order: Seq<char>, w: Seq<char>, params: nat) -> Seq<char> {
    "SELECT visible_offset FROM (\n            SELECT "@ + quoted(alias) + ", ROW_NUMBER() OVER (ORDER BY "@ + order
        + ") - 1 AS visible_offset\n            FROM "@ + quoted(table) + where_part(w) + "\n        ) WHERE "@ + quoted(alias)
        + " = "@ + placeholder(params + 1) + " LIMIT 1"@
}

/// The statement finding a row's position by rowid; none for a table
/// identified by its primary key.
pub fn fetch_offset_for_rowid_sql(
    table: &str,
    identity: &RowIdentity,
    order_by: Option<(&str, bool)>,
    where_clause: &str,
    params: usize,
) -> (r: Option<String>)
    requires
        params + 1 <= u64::MAX,
    ensures
        match *identity {
            RowIdentity::RowidAlias(a) => r is Some && r->0@ == offset_for_rowid_sql(
                a@,
                table@,
                order_terms(order_view(order_by), *identity),
                where_clause@,
                params as nat,
            ),
            RowIdentity::PrimaryKey(_) => r is None,
        },
{
    let alias = match identity {
        RowIdentity::RowidAlias(a) => a,
        RowIdentity::PrimaryKey(_) => {
            return None;
        },
    };
    let rowid = quote_identifier(alias.as_str());
    let mut r = String::new();
    push_str(&mut r, "SELECT visible_offset FROM (\n            SELECT ");
    push_str(&mut r, rowid.as_str());
    push_str(&mut r, ", ROW_NUMBER() OVER (ORDER BY ");
    push_str(&mut r, build_order_terms(order_by, identity).as_str());
    push_str(&mut r, ") - 1 AS visible_offset\n            FROM ");
    push_str(&mut r, quote_identifier(table).as_str());
    push_str(&mut r, build_where_part(where_clause).as_str());
    push_str(&mut r, "\n        ) WHERE ");
    push_str(&mut r, rowid.as_str());
    push_str(&mut r, " = ");
    push_char(&mut r, '?');
    push_decimal(&mut r, (params as u64) + 1);
    push_str(&mut r, " LIMIT 1");
    assert(r@ =~= offset_for_rowid_sql(
        alias@,
        table@,
        order_terms(order_view(order_by), *identity),
        where_clause@,
        params as nat,
    ));
    Some(r)
}

/// The decimal renderings of the offsets that are not negative, in order.
pub open spec fn offset_texts(s: Seq<i64>) -> Seq<Seq<char>>
    decreases s.len(),
{
    if s.len() == 0 {
        Seq::empty()
    } else {
        let p = offset_texts(s.drop_last());
        if s.last() >= 0 {
            p.push(int_decimal(s.last() as int))
        } else {
            p
        }
    }
}

/// The offsets that are not negative, comma-separated.
pub fn offset_list(offsets: &[i64]) -> (r: String)
    ensures
        r@ == join(offset_texts(offsets@), ", "@),
{
    let mut r = String::new();
    let mut count: usize = 0;
    let mut i: usize = 0;
    while i < offsets.len()
        invariant
            i <= offsets@.len(),
            count == offset_texts(offsets@.subrange(0, i as int)).len(),
            count <= i,
            r@ == join(offset_texts(offsets@.subrange(0, i as int)), ", "@),
        decreases offsets@.len() - i,
    {
        let ghost before = offset_texts(offsets@.subrange(0, i as int));
        proof {
            assert(offsets@.subrange(0, i + 1).drop_last() =~= offsets@.subrange(0, i as int));
        }
        if offsets[i] >= 0 {
            if count > 0 {
                push_str(&mut r, ", ");
            }
            push_signed_decimal(&mut r, offsets[i]);
            count = count + 1;
            proof {
                let after = offset_texts(offsets@.subrange(0, i + 1));
                assert(after == before.push(int_decimal(offsets@[i as int] as int)));
                assert(after.drop_last() =~= before);
                if before.len() == 0 {
                    assert(r@ =~= join(after, ", "@));
                } else {
                    assert(r@ =~= join(after, ", "@));
                }
            }
        }
        i = i + 1;
    }
    assert(offsets@.subrange(0, offsets@.len() as int) =~= offsets@);
    r
}

/// The statement finding the rowids at given positions of the current order
/// and filter.
pub open spec fn rowids_at_offsets_sql(alias: Seq<char>, table: Seq<char>, order: Seq<char>, w: Seq<char>, list: Seq<char>) -> Seq<char> {
    "WITH visible AS (\n            SELECT "@ + quoted(alias) + ", ROW_NUMBER() OVER (ORDER BY "@ + order
        + ") - 1 AS visible_offset\n            FROM "@ + quoted(table) + where_part(w) + "\n         )\n         SELECT "@
        + quoted(alias) + " FROM visible WHERE visible_offset IN ("@ + list + ")"@
}

/// What looking rows up by position needs: nothing to look up, a table
/// without a rowid to report, or the statement to run.
#[derive(Debug)]
pub enum OffsetLookup {
    Nothing,
    NoRowid,
    Query(String),
}

/// The lookup of the rowids at `offsets`: nothing when no offset is given
/// or none is valid, a refusal for a table without a rowid.
pub fn fetch_rowids_at_offsets_sql(
    table: &str,
    identity: &RowIdentity,
    order_by: Option<(&str, bool)>,
    where_clause: &str,
    offsets: &[i64],
) -> (r: OffsetLookup)
    ensures
        offsets@.len() == 0 ==> r is Nothing,
        offsets@.len() > 0 ==> match *identity {
            RowIdentity::PrimaryKey(_) => r is NoRowid,
            RowIdentity::RowidAlias(a) => if offset_texts(offsets@).len() == 0 {
                r is Nothing
            } else {
                r matches OffsetLookup::Query(q) && q@ == rowids_at_offsets_sql(
                    a@,
                    table@,
                    order_terms(order_view(order_by), *identity),
                    where_clause@,
                    join(offset_texts(offsets@), ", "@),
                )
            },
        },
{
    if offsets.len() == 0 {
        return OffsetLookup::Nothing;
    }
    let alias = match identity {
        RowIdentity::RowidAlias(a) => a,
        RowIdentity::PrimaryKey(_) => {
            return OffsetLookup::NoRowid;
        },
    };
    let list = offset_list(offsets);
    if list.as_str().unicode_len() == 0 {
        proof {
            lemma_offset_texts_nonempty(offsets@);
            lemma_join_empty(offset_texts(offsets@));
        }
        return OffsetLookup::Nothing;
    }
    proof {
        lemma_offset_texts_nonempty(offsets@);
        lemma_join_empty(offset_texts(offsets@));
    }
    let rowid = quote_identifier(alias.as_str());
    let mut r = String::new();
    push_str(&mut r, "WITH visible AS (\n            SELECT ");
    push_str(&mut r, rowid.as_str());
    push_str(&mut r, ", ROW_NUMBER() OVER (ORDER BY ");
    push_str(&mut r, build_order_terms(order_by, identity).as_str());
    push_str(&mut r, ") - 1 AS visible_offset\n            FROM ");
    push_str(&mut r, quote_identifier(table).as_str());
    push_str(&mut r, build_where_part(where_clause).as_str());
    push_str(&mut r, "\n         )\n         SELECT ");
    push_str(&mut r, rowid.as_str());
    push_str(&mut r, " FROM visible WHERE visible_offset IN (");
    push_str(&mut r, list.as_str());
    push_str(&mut r, ")");
    assert(r@ =~= rowids_at_offsets_sql(
        alias@,
        table@,
        order_terms(order_view(order_by), *identity),
        where_clause@,
        join(offset_texts(offsets@), ", "@),
    ));
    OffsetLookup::Query(r)
}

proof fn lemma_offset_texts_nonempty(s: Seq<i64>)
    ensures
        forall|i: int| 0 <= i < offset_texts(s).len() ==> (#[trigger] offset_texts(s)[i]).len() > 0,
    decreases s.len(),
{
    if s.len() > 0 {
        lemma_offset_texts_nonempty(s.drop_last());
        let p = offset_texts(s.drop_last());
        if s.last() >= 0 {
            lemma_nat_decimal_nonempty(s.last() as nat);
            let x = int_decimal(s.last() as int);
            assert(x == nat_decimal(s.last() as nat));
            assert(offset_texts(s) == p.push(x));
            assert forall|i: int| 0 <= i < offset_texts(s).len() implies (#[trigger] offset_texts(s)[i]).len() > 0 by {
                if i < p.len() {
                    assert(offset_texts(s)[i] == p[i]);
                }
            }
        } else {
            assert(offset_texts(s) == p);
        }
    }
}

/// Joining decimal renderings is empty exactly when there are none.
proof fn lemma_join_empty(texts: Seq<Seq<char>>)
    requires
        forall|i: int| 0 <= i < texts.len() ==> (#[trigger] texts[i]).len() > 0,
    ensures
        (join(texts, ", "@).len() == 0) == (texts.len() == 0),
    decreases texts.len(),
{
    if texts.len() > 1 {
        lemma_join_empty(texts.drop_last());
    }
}

/// The statement reading the rows at given positions of the current order
/// and filter, in position order; `alias` names the position column.
pub open spec fn rows_at_offsets_sql(
    cols: Seq<Column>,
    alias: Seq<char>,
    table: Seq<char>,
    order: Seq<char>,
    w: Seq<char>,
    list: Seq<char>,
) -> Seq<char> {
    "WITH visible AS (\n            SELECT "@ + column_list(""@, cols) + ", ROW_NUMBER() OVER (ORDER BY "@ + order
        + ") - 1 AS "@ + quoted(alias) + "\n            FROM "@ + quoted(table) + where_part(w)
        + "\n         )\n         SELECT "@ + column_list("visible."@, cols) + " FROM visible\n         WHERE visible."@
        + quoted(alias) + " IN ("@ + list + ") ORDER BY visible."@ + quoted(alias)
}

/// The statement reading the rows at `offsets`; none when there are no
/// columns, no offsets or no valid offset. The position column is named by
/// the first of `__sqview_offset`, `__sqview_offset_1`, ... that no column
/// takes.
pub fn fetch_rows_at_offsets_sql(
    table: &str,
    columns: &[Column],
    identity: &RowIdentity,
    order_by: Option<(&str, bool)>,
    where_clause: &str,
    offsets: &[i64],
) -> (r: Option<String>)
    ensures
        columns@.len() == 0 || offset_texts(offsets@).len() == 0 ==> r is None,
        columns@.len() > 0 && offset_texts(offsets@).len() > 0 ==> r is Some && exists|k: nat| {
            &&& !name_taken(columns@, #[trigger] alias_candidate("__sqview_offset"@, k))
            &&& (forall|j: nat| j < k ==> name_taken(columns@, #[trigger] alias_candidate("__sqview_offset"@, j)))
            &&& r->0@ == rows_at_offsets_sql(
                columns@,
                alias_candidate("__sqview_offset"@, k),
                table@,
                order_terms(order_view(order_by), *identity),
                where_clause@,
                join(offset_texts(offsets@), ", "@),
            )
        },
{
    if columns.len() == 0 || offsets.len() == 0 {
        return None;
    }
    let list = offset_list(offsets);
    proof {
        lemma_offset_texts_nonempty(offsets@);
        lemma_join_empty(offset_texts(offsets@));
    }
    if list.as_str().unicode_len() == 0 {
        return None;
    }
    let alias = unused_column_alias(columns, "__sqview_offset");
    let offset_alias = quote_identifier(alias.as_str());
    let mut r = String::new();
    push_str(&mut r, "WITH visible AS (\n            SELECT ");
    push_str(&mut r, build_column_list("", columns).as_str());
    push_str(&mut r, ", ROW_NUMBER() OVER (ORDER BY ");
    push_str(&mut r, build_order_terms(order_by, identity).as_str());
    push_str(&mut r, ") - 1 AS ");
    push_str(&mut r, offset_alias.as_str());
    push_str(&mut r, "\n            FROM ");
    push_str(&mut r, quote_identifier(table).as_str());
    push_str(&mut r, build_where_part(where_clause).as_str());
    push_str(&mut r, "\n         )\n         SELECT ");
    push_str(&mut r, build_column_list("visible.", columns).as_str());
    push_str(&mut r, " FROM visible\n         WHERE visible.");
    push_str(&mut r, offset_alias.as_str());
    push_str(&mut r, " IN (");
    push_str(&mut r, list.as_str());
    push_str(&mut r, ") ORDER BY visible.");
    push_str(&mut r, offset_alias.as_str());
    assert(r@ =~= rows_at_offsets_sql(
        columns@,
        alias@,
        table@,
        order_terms(order_view(order_by), *identity),
        where_clause@,
        join(offset_texts(offsets@), ", "@),
    ));
    Some(r)
}

/// The statement listing the distinct non-null values of a column, in
/// order, at most as many as the one parameter.
pub open spec fn distinct_sql(table: Seq<char>, column: Seq<char>) -> Seq<char> {
    "SELECT DISTINCT "@ + quoted(column) + " FROM "@ + quoted(table) + " WHERE "@ + quoted(column)
        + " IS NOT NULL ORDER BY 1 LIMIT ?1"@
}

/// The statement listing the distinct non-null values of `column`.
pub fn distinct_values_sql(table: &str, column: &str) -> (r: String)
    ensures
        r@ == distinct_sql(table@, column@),
{
    let c = quote_identifier(column);
    let mut r = String::new();
    push_str(&mut r, "SELECT DISTINCT ");
    push_str(&mut r, c.as_str());
    push_str(&mut r, " FROM ");
    push_str(&mut r, quote_identifier(table).as_str());
    push_str(&mut r, " WHERE ");
    push_str(&mut r, c.as_str());
    push_str(&mut r, " IS NOT NULL ORDER BY 1 LIMIT ?1");
    assert(r@ =~= distinct_sql(table@, column@));
    r
}

/// `PRAGMA name(quoted table)`.
pub open spec fn pragma_sql(pragma: Seq<char>, table: Seq<char>) -> Seq<char> {
    "PRAGMA "@ + pragma + "("@ + quoted(table) + ")"@
}

/// A table pragma: `table_xinfo`, `foreign_key_list` or `index_list`.
pub fn table_pragma_sql(pragma: &str, table: &str) -> (r: String)
    ensures
        r@ == pragma_sql(pragma@, table@),
{
    let mut r = String::new();
    push_str(&mut r, "PRAGMA ");
    push_str(&mut r, pragma);
    push_str(&mut r, "(");
    push_str(&mut r, quote_identifier(table).as_str());
    push_str(&mut r, ")");
    assert(r@ =~= pragma_sql(pragma@, table@));
    r
}

/// The primary-key column of rank `sequence` in key order, for a foreign
/// key that names no target column; none when there is no such column.
pub fn pk_column_for_sequence(columns: &[Column], sequence: i64) -> (r: Option<String>)
    ensures
        ({
            let es = pk_entries(columns@);
            match r {
                Some(name) => 0 <= sequence < es.len() && exists|j: int| 0 <= j < es.len()
                    && count_before(columns@, es, #[trigger] es[j]) == sequence && columns@[es[j]].name@ == name@,
                None => !(0 <= sequence < es.len()),
            }
        }),
{
    let names = primary_key_names(columns);
    proof {
        lemma_pk_entries(columns@);
    }
    if sequence < 0 || sequence as u64 >= names.len() as u64 {
        return None;
    }
    let k = sequence as usize;
    proof {
        let es = pk_entries(columns@);
        lemma_ranks_onto(columns@, es, k as int);
    }
    Some(names[k].clone())
}

/// Every rank below the number of key columns is some key column's rank.
proof fn lemma_ranks_onto(cols: Seq<Column>, es: Seq<int>, k: int)
    requires
        es == pk_entries(cols),
        0 <= k < es.len(),
    ensures
        exists|j: int| 0 <= j < es.len() && count_before(cols, es, #[trigger] es[j]) == k,
{
    lemma_pk_entries(cols);
    let n = es.len() as int;
    if !(exists|j: int| 0 <= j < es.len() && count_before(cols, es, #[trigger] es[j]) == k) {
        let f = |j: int| count_before(cols, es, es[j]) as int;
        let x = set_int_range(0, n);
        lemma_int_range(0, n);
        assert(injective_on(f, x)) by {
            assert forall|a: int, b: int| x.contains(a) && x.contains(b) && #[trigger] f(a) == #[trigger] f(b) implies a == b by {
                if a != b {
                    let ea = es[a];
                    let eb = es[b];
                    assert(ea != eb);
                    assert(es.contains(ea)) by { assert(es[a] == ea); }
                    assert(es.contains(eb)) by { assert(es[b] == eb); }
                    if key_before(cols, ea, eb) {
                        lemma_count_before_strict(cols, es, ea, eb);
                    } else {
                        lemma_count_before_strict(cols, es, eb, ea);
                    }
                }
            }
        }
        let y = x.map(f);
        lemma_map_size(x, y, f);
        assert forall|v: int| #[trigger] y.contains(v) implies set_int_range(0, n).remove(k).contains(v) by {
            let j = choose|j: int| x.contains(j) && f(j) == v;
            lemma_count_before_bounds(cols, es, es[j]);
            assert(es.contains(es[j]));
        }
        lemma_int_range(0, n);
        lemma_len_subset(y, set_int_range(0, n).remove(k));
    }
}

/// Indexes SQLite creates for itself are named `sqlite_...`.
pub open spec fn is_internal_name(name: Seq<char>) -> bool {
    name.len() >= 7 && name.subrange(0, 7) == seq!['s', 'q', 'l', 'i', 't', 'e', '_']
}

/// Whether an index or table is one of SQLite's own.
pub fn is_internal_object(name: &str) -> (r: bool)
    ensures
        r == is_internal_name(name@),
{
    let n = name.unicode_len();
    if n < 7 {
        return false;
    }
    let prefix = ['s', 'q', 'l', 'i', 't', 'e', '_'];
    let mut i: usize = 0;
    while i < 7
        invariant
            n == name@.len(),
            n >= 7,
            i <= 7,
            prefix@ == seq!['s', 'q', 'l', 'i', 't', 'e', '_'],
            name@.subrange(0, i as int) == prefix@.subrange(0, i as int),
        decreases 7 - i,
    {
        if name.get_char(i) != prefix[i] {
            return false;
        }
        assert(name@.subrange(0, i + 1) =~= name@.subrange(0, i as int).push(name@[i as int]));
        assert(prefix@.subrange(0, i + 1) =~= prefix@.subrange(0, i as int).push(prefix@[i as int]));
        i = i + 1;
    }
    assert(prefix@.subrange(0, 7) =~= prefix@);
    true
}

} // verus!

