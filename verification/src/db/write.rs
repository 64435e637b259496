//! The SQL text of every write, and what a write's row count means.

use vstd::prelude::*;
use crate::filter::{join, placeholder, placeholder_list};
use crate::query::{quote_identifier, quoted};
use crate::text::{push_str};
use crate::value::Column;
use super::{column_list, build_column_list, column_names, names_view, quoted_names};

verus! {

/// `UPDATE` of one cell, by rowid: the new value is `?1`, the rowid `?2`.
pub open spec fn update_cell_sql(table: Seq<char>, col: Seq<char>, alias: Seq<char>) -> Seq<char> {
    "UPDATE "@ + quoted(table) + " SET "@ + quoted(col) + " = ?1 WHERE "@ + quoted(alias) + " = ?2"@
}

/// The statement writing one cell of the row with a given rowid.
pub fn commit_cell_edit_sql(table: &str, col: &str, rowid_alias: &str) -> (r: String)
    ensures
        r@ == update_cell_sql(table@, col@, rowid_alias@),
{
    let mut r = String::new();
    push_str(&mut r, "UPDATE ");
    push_str(&mut r, quote_identifier(table).as_str());
    push_str(&mut r, " SET ");
    push_str(&mut r, quote_identifier(col).as_str());
    push_str(&mut r, " = ?1 WHERE ");
    push_str(&mut r, quote_identifier(rowid_alias).as_str());
    push_str(&mut r, " = ?2");
    assert(r@ =~= update_cell_sql(table@, col@, rowid_alias@));
    r
}

/// `INSERT` of a row: all defaults when no value is given, else the named
/// columns bound to `?1 ..`.
pub open spec fn insert_sql(table: Seq<char>, names: Seq<Seq<char>>) -> Seq<char> {
    if names.len() == 0 {
        "INSERT INTO "@ + quoted(table) + " DEFAULT VALUES"@
    } else {
        "INSERT INTO "@ + quoted(table) + " ("@ + join(quoted_names(""@, names), ", "@) + ") VALUES ("@
            + placeholder_list(1, names.len()) + ")"@
    }
}

/// Appends the quoted names, comma-separated.
fn push_name_list(out: &mut String, names: &Vec<String>)
    ensures
        final(out)@ == old(out)@ + join(quoted_names(""@, names_view(names@)), ", "@),
{
    let ghost start = out@;
    let ghost pieces = quoted_names(""@, names_view(names@));
    let mut i: usize = 0;
    proof {
        reveal_strlit("");
    }
    while i < names.len()
        invariant
            i <= names@.len(),
            pieces == quoted_names(""@, names_view(names@)),
            pieces.len() == names@.len(),
            out@ == start + join(pieces.subrange(0, i as int), ", "@),
        decreases names@.len() - i,
    {
        if i > 0 {
            push_str(out, ", ");
        }
        push_str(out, quote_identifier(names[i].as_str()).as_str());
        proof {
            reveal_strlit("");
            let sub = pieces.subrange(0, i + 1);
            assert(sub.drop_last() =~= pieces.subrange(0, i as int));
            assert(pieces[i as int] =~= quoted(names@[i as int]@));
            assert(out@ =~= start + join(sub, ", "@));
        }
        i = i + 1;
    }
    assert(pieces.subrange(0, names@.len() as int) =~= pieces);
}

/// Appends `?start, ?start+1, ...` for `count` parameters.
fn push_placeholders(out: &mut String, start: u64, count: usize)
    requires
        start >= 1,
        start + count <= u64::MAX,
    ensures
        final(out)@ == old(out)@ + placeholder_list(start as nat, count as nat),
{
    let ghost s0 = out@;
    let mut i: usize = 0;
    while i < count
        invariant
            i <= count,
            start + count <= u64::MAX,
            out@ == s0 + placeholder_list(start as nat, i as nat),
        decreases count - i,
    {
        if i > 0 {
            push_str(out, ", ");
        }
        crate::text::push_char(out, '?');
        crate::text::push_decimal(out, start + i as u64);
        proof {
            if i == 0 {
                assert(placeholder_list(start as nat, 0) =~= Seq::<char>::empty());
            }
            assert(out@ =~= s0 + placeholder_list(start as nat, (i + 1) as nat));
        }
        i = i + 1;
    }
}

/// The statement inserting a row with the given column names.
pub fn insert_row_sql(table: &str, names: &Vec<String>) -> (r: String)
    requires
        names@.len() + 1 <= u64::MAX,
    ensures
        r@ == insert_sql(table@, names_view(names@)),
{
    let mut r = String::new();
    push_str(&mut r, "INSERT INTO ");
    push_str(&mut r, quote_identifier(table).as_str());
    if names.len() == 0 {
        push_str(&mut r, " DEFAULT VALUES");
    } else {
        push_str(&mut r, " (");
        push_name_list(&mut r, names);
        push_str(&mut r, ") VALUES (");
        push_placeholders(&mut r, 1, names.len());
        push_str(&mut r, ")");
    }
    assert(r@ =~= insert_sql(table@, names_view(names@)));
    r
}

/// `DELETE` of the row with the rowid `?1`.
pub open spec fn delete_sql(table: Seq<char>, alias: Seq<char>) -> Seq<char> {
    "DELETE FROM "@ + quoted(table) + " WHERE "@ + quoted(alias) + " = ?1"@
}

/// The statement deleting the row with a given rowid. Deleting several
/// selected rows prepares this one statement and runs it once per rowid,
/// inside one transaction.
pub fn delete_row_sql(table: &str, rowid_alias: &str) -> (r: String)
    ensures
        r@ == delete_sql(table@, rowid_alias@),
{
    let mut r = String::new();
    push_str(&mut r, "DELETE FROM ");
    push_str(&mut r, quote_identifier(table).as_str());
    push_str(&mut r, " WHERE ");
    push_str(&mut r, quote_identifier(rowid_alias).as_str());
    push_str(&mut r, " = ?1");
    assert(r@ =~= delete_sql(table@, rowid_alias@));
    r
}

/// `DELETE` of every row.
pub open spec fn clear_sql(table: Seq<char>) -> Seq<char> {
    "DELETE FROM "@ + quoted(table)
}

/// The statement deleting every row of a table.
pub fn clear_table_sql(table: &str) -> (r: String)
    ensures
        r@ == clear_sql(table@),
{
    let mut r = String::new();
    push_str(&mut r, "DELETE FROM ");
    push_str(&mut r, quote_identifier(table).as_str());
    assert(r@ =~= clear_sql(table@));
    r
}

/// The writable columns of `cols`, in order.
pub open spec fn writable_columns(cols: Seq<Column>) -> Seq<Column>
    decreases cols.len(),
{
    if cols.len() == 0 {
        Seq::empty()
    } else {
        let p = writable_columns(cols.drop_last());
        if cols.last().writable {
            p.push(cols.last())
        } else {
            p
        }
    }
}

/// The writable columns, in order: those a deleted row is restored from.
pub fn writable_columns_of(columns: &[Column]) -> (v: Vec<Column>)
    ensures
        v@ == writable_columns(columns@),
{
    let mut v: Vec<Column> = Vec::new();
    let mut i: usize = 0;
    while i < columns.len()
        invariant
            i <= columns@.len(),
            v@ == writable_columns(columns@.subrange(0, i as int)),
        decreases columns@.len() - i,
    {
        proof {
            assert(columns@.subrange(0, i + 1).drop_last() =~= columns@.subrange(0, i as int));
        }
        if columns[i].writable {
            v.push(clone_column(&columns[i]));
        }
        i = i + 1;
    }
    assert(columns@.subrange(0, columns@.len() as int) =~= columns@);
    v
}

/// A copy of a column's metadata.
pub fn clone_column(c: &Column) -> (r: Column)
    ensures
        r == *c,
{
    Column {
        cid: c.cid,
        name: c.name.clone(),
        col_type: c.col_type.clone(),
        not_null: c.not_null,
        default_value: match &c.default_value {
            Some(d) => Some(d.clone()),
            None => None,
        },
        is_pk: c.is_pk,
        pk_position: c.pk_position,
        writable: c.writable,
    }
}

/// The `SELECT` that backs up a row's writable columns before it is
/// deleted.
pub open spec fn backup_sql(table: Seq<char>, cols: Seq<Column>, alias: Seq<char>) -> Seq<char> {
    "SELECT "@ + column_list(""@, writable_columns(cols)) + " FROM "@ + quoted(table) + " WHERE "@ + quoted(alias)
        + " = ?1 LIMIT 1"@
}

/// The statement reading back a row's writable columns by rowid.
pub fn backup_row_sql(table: &str, columns: &[Column], rowid_alias: &str) -> (r: String)
    ensures
        r@ == backup_sql(table@, columns@, rowid_alias@),
{
    let writable = writable_columns_of(columns);
    let mut r = String::new();
    push_str(&mut r, "SELECT ");
    push_str(&mut r, build_column_list("", writable.as_slice()).as_str());
    push_str(&mut r, " FROM ");
    push_str(&mut r, quote_identifier(table).as_str());
    push_str(&mut r, " WHERE ");
    push_str(&mut r, quote_identifier(rowid_alias).as_str());
    push_str(&mut r, " = ?1 LIMIT 1");
    assert(r@ =~= backup_sql(table@, columns@, rowid_alias@));
    r
}

/// The `INSERT` restoring a deleted row under its rowid (`?1`), its values
/// bound to `?2 ..`.
pub open spec fn reinsert_sql(table: Seq<char>, alias: Seq<char>, names: Seq<Seq<char>>) -> Seq<char> {
    "INSERT INTO "@ + quoted(table) + " ("@ + quoted(alias) + ", "@ + join(quoted_names(""@, names), ", "@)
        + ") VALUES (?1, "@ + placeholder_list(2, names.len()) + ")"@
}

/// The statement restoring a deleted row; none without backed-up columns.
pub fn reinsert_row_sql(table: &str, rowid_alias: &str, names: &Vec<String>) -> (r: Option<String>)
    requires
        names@.len() + 2 <= u64::MAX,
    ensures
        names@.len() == 0 ==> r is None,
        names@.len() > 0 ==> r is Some && r->0@ == reinsert_sql(table@, rowid_alias@, names_view(names@)),
{
    if names.len() == 0 {
        return None;
    }
    let mut r = String::new();
    push_str(&mut r, "INSERT INTO ");
    push_str(&mut r, quote_identifier(table).as_str());
    push_str(&mut r, " (");
    push_str(&mut r, quote_identifier(rowid_alias).as_str());
    push_str(&mut r, ", ");
    push_name_list(&mut r, names);
    push_str(&mut r, ") VALUES (?1, ");
    push_placeholders(&mut r, 2, names.len());
    push_str(&mut r, ")");
    assert(r@ =~= reinsert_sql(table@, rowid_alias@, names_view(names@)));
    Some(r)
}

/// What the row count of a one-row write means.
#[derive(PartialEq, Eq, Structural, Clone, Copy, Debug)]
pub enum RowCountCheck {
    /// Exactly one row: commit.
    Commit,
    /// No row: the row is gone.
    NoRow,
    /// Several rows: the identity was not unique.
    Many(usize),
}

/// A one-row write commits only when it touched exactly one row.
pub fn check_row_count(count: usize) -> (r: RowCountCheck)
    ensures
        count == 1 ==> r == RowCountCheck::Commit,
        count == 0 ==> r == RowCountCheck::NoRow,
        count > 1 ==> r == RowCountCheck::Many(count),
{
    if count == 1 {
        RowCountCheck::Commit
    } else if count == 0 {
        RowCountCheck::NoRow
    } else {
        RowCountCheck::Many(count)
    }
}

} // verus!
