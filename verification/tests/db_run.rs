//! The library's statements run against real in-memory SQLite databases.

use rusqlite::functions::FunctionFlags;
use rusqlite::types::{Value, ValueRef};
use rusqlite::{Connection, OptionalExtension};

use sqview::app::{count_rows_before_letter_sql, delete_selected_prompt, delete_target, DeleteTarget};
use sqview::grid::{GridInit, GridState, RowSelection};
use sqview::db::write::{
    backup_row_sql, check_row_count, clear_table_sql, commit_cell_edit_sql, delete_row_sql, insert_row_sql,
    reinsert_row_sql, writable_columns_of, RowCountCheck,
};
use sqview::db::{
    fetch_offset_for_rowid_sql, fetch_rowids_at_offsets_sql, fetch_rows_at_offsets_sql, OffsetLookup, fetch_rows_sql, fetch_rows_with_rowids_sql,
    pk_column_for_sequence, row_identity, table_pragma_sql,
};
use sqview::filter::{sqlite_regexp, ColumnFilter, FilterOp, FilterRule, FilterSet, FilterValue};
use sqview::value::{Column, RowIdentity, SqlValue};

fn open() -> Connection {
    let conn = Connection::open_in_memory().expect("in-memory db");
    conn.create_scalar_function("regexp", 2, FunctionFlags::SQLITE_UTF8 | FunctionFlags::SQLITE_DETERMINISTIC, |ctx| {
        let pattern: String = ctx.get(0)?;
        let text: Option<String> = ctx.get(1)?;
        sqlite_regexp(&pattern, text.as_deref()).map_err(|m| rusqlite::Error::UserFunctionError(m.into()))
    })
    .expect("register regexp");
    conn
}

fn text_column(cid: i64, name: &str) -> Column {
    Column {
        cid,
        name: name.to_string(),
        col_type: "TEXT".to_string(),
        not_null: false,
        default_value: None,
        is_pk: false,
        pk_position: 0,
        writable: true,
    }
}

fn load_columns(conn: &Connection, table: &str) -> Vec<Column> {
    let mut stmt = conn.prepare(&table_pragma_sql("table_xinfo", table)).expect("pragma");
    let rows = stmt
        .query_map([], |row| {
            Ok(Column {
                cid: row.get(0)?,
                name: row.get(1)?,
                col_type: row.get(2)?,
                not_null: row.get::<_, i64>(3)? != 0,
                default_value: row.get(4)?,
                pk_position: row.get(5)?,
                is_pk: row.get::<_, i64>(5)? != 0,
                writable: row.get::<_, i64>(6)? == 0,
            })
        })
        .expect("columns");
    rows.collect::<Result<Vec<_>, _>>().expect("collect columns")
}

fn identity(conn: &Connection, table: &str, columns: &[Column]) -> Option<RowIdentity> {
    let without_rowid: bool = conn
        .query_row(
            "SELECT wr != 0 FROM pragma_table_list WHERE schema = 'main' AND name = ?1 LIMIT 1",
            [table],
            |row| row.get(0),
        )
        .optional()
        .expect("table list")
        .unwrap_or(false);
    row_identity(without_rowid, columns)
}

fn rowid_alias(conn: &Connection, table: &str) -> Option<String> {
    let columns = load_columns(conn, table);
    match identity(conn, table, &columns) {
        Some(RowIdentity::RowidAlias(alias)) => Some(alias),
        _ => None,
    }
}

fn param(v: &SqlValue) -> Value {
    match v {
        SqlValue::Null => Value::Null,
        SqlValue::Integer(n) => Value::Integer(*n),
        SqlValue::Real(r) => Value::Real(f64::from_bits(r.bits)),
        SqlValue::Text(s) => Value::Text(s.clone()),
        SqlValue::Blob(b) => Value::Blob(b.clone()),
    }
}

fn show(v: ValueRef<'_>) -> String {
    match v {
        ValueRef::Null => "NULL".to_string(),
        ValueRef::Integer(n) => n.to_string(),
        ValueRef::Real(f) => f.to_string(),
        ValueRef::Text(t) => String::from_utf8_lossy(t).into_owned(),
        ValueRef::Blob(b) => format!("{:?}", b),
    }
}

fn run(conn: &Connection, sql: &str, params: &[Value], width: usize) -> Vec<Vec<String>> {
    let mut stmt = conn.prepare(sql).expect("prepare");
    let rows = stmt
        .query_map(rusqlite::params_from_iter(params.iter()), |row| {
            (0..width).map(|i| row.get_ref(i).map(show)).collect::<rusqlite::Result<Vec<_>>>()
        })
        .expect("query");
    rows.collect::<Result<Vec<_>, _>>().expect("collect rows")
}

fn seed_items(conn: &Connection) {
    conn.execute_batch(
        r#"
        CREATE TABLE items (name TEXT, created_at TEXT);
        INSERT INTO items (rowid, name, created_at) VALUES
          (11, 'a', '2024-01-01'),
          (22, 'b', '2024-01-02'),
          (33, 'c', '2024-01-03');
        "#,
    )
    .expect("seed items");
}

#[test]
fn fetch_rows_respects_sort_and_filter() {
    let conn = open();
    seed_items(&conn);
    let columns = vec![text_column(0, "name"), text_column(1, "created_at")];
    let id = identity(&conn, "items", &columns).expect("identity");
    let sql = fetch_rows_sql("items", &columns, &id, Some(("created_at", false)), "\"name\" != ?1", 2, 0);
    let rows = run(&conn, &sql, &[Value::Text("a".to_string())], 2);
    assert_eq!(
        rows,
        vec![
            vec!["c".to_string(), "2024-01-03".to_string()],
            vec!["b".to_string(), "2024-01-02".to_string()],
        ]
    );
}

#[test]
fn fetch_offset_for_rowid_respects_sort_and_filter() {
    let conn = open();
    seed_items(&conn);
    let columns = load_columns(&conn, "items");
    let id = identity(&conn, "items", &columns).expect("identity");
    let sql = fetch_offset_for_rowid_sql("items", &id, Some(("created_at", false)), "\"name\" != ?1", 1)
        .expect("rowid table");
    let offset: Option<i64> = conn
        .query_row(&sql, ("a", 22), |row| row.get(0))
        .optional()
        .expect("offset lookup");
    assert_eq!(offset, Some(1));
}

#[test]
fn sorted_row_lookup_is_stable_for_duplicate_values() {
    let conn = open();
    conn.execute_batch(
        r#"
        CREATE TABLE items (name TEXT);
        INSERT INTO items (rowid, name) VALUES
          (20, 'same'),
          (10, 'same'),
          (30, 'z');
        "#,
    )
    .expect("seed items");
    let columns = vec![text_column(0, "name")];
    let id = identity(&conn, "items", &columns).expect("identity");
    let sql = fetch_rows_with_rowids_sql("items", &columns, &id, Some(("name", true)), "", 0);
    let rows = run(&conn, &sql, &[Value::Integer(1), Value::Integer(0)], 2);
    let rowids: Vec<Option<i64>> = rows.iter().map(|r| r[0].parse().ok()).collect();
    let lookup = fetch_offset_for_rowid_sql("items", &id, Some(("name", true)), "", 0).expect("rowid table");
    let second_offset: Option<i64> =
        conn.query_row(&lookup, [20], |row| row.get(0)).optional().expect("offset lookup");
    assert_eq!(rowids, vec![Some(10)]);
    assert_eq!(second_offset, Some(1));
}

#[test]
fn selected_row_fetch_avoids_internal_alias_collisions() {
    let conn = open();
    conn.execute_batch(
        "CREATE TABLE items (__sqview_offset INTEGER, value TEXT);
         INSERT INTO items VALUES (99, 'first'), (0, 'second'), (99, 'third');",
    )
    .expect("seed items");
    let columns = load_columns(&conn, "items");
    let id = identity(&conn, "items", &columns).expect("identity");
    let sql = fetch_rows_at_offsets_sql("items", &columns, &id, None, "", &[0, 2]).expect("offsets");
    let rows = run(&conn, &sql, &[], columns.len());
    assert_eq!(
        rows,
        vec![
            vec!["99".to_string(), "first".to_string()],
            vec!["99".to_string(), "third".to_string()],
        ]
    );
}

#[test]
fn without_rowid_tables_are_browsable_in_primary_key_order() {
    let conn = open();
    conn.execute_batch(
        "CREATE TABLE items (part INTEGER, code TEXT, value TEXT, PRIMARY KEY(part, code)) WITHOUT ROWID;
         INSERT INTO items VALUES (2, 'b', 'second'), (1, 'a', 'first');",
    )
    .expect("seed items");
    let columns = load_columns(&conn, "items");
    let id = identity(&conn, "items", &columns).expect("identity");
    match &id {
        RowIdentity::PrimaryKey(names) => assert_eq!(names, &vec!["part".to_string(), "code".to_string()]),
        other => panic!("unexpected identity {:?}", other),
    }
    let sql = fetch_rows_sql("items", &columns, &id, None, "", 10, 0);
    let rows = run(&conn, &sql, &[], columns.len());
    assert_eq!(rows[0][2], "first");
}

#[test]
fn schema_preserves_composite_foreign_keys_and_generated_columns() {
    let conn = open();
    conn.execute_batch(
        "CREATE TABLE parent (a INTEGER, b INTEGER, PRIMARY KEY(a, b));
         CREATE TABLE child (
           a INTEGER,
           b INTEGER,
           sum INTEGER GENERATED ALWAYS AS (a + b) STORED,
           FOREIGN KEY(a, b) REFERENCES parent
         );",
    )
    .expect("create schema");
    let mut stmt = conn.prepare(&table_pragma_sql("foreign_key_list", "child")).expect("pragma");
    let fks: Vec<(i64, String, String, Option<String>)> = stmt
        .query_map([], |row| Ok((row.get(1)?, row.get(2)?, row.get(3)?, row.get(4)?)))
        .expect("foreign keys")
        .collect::<Result<_, _>>()
        .expect("collect");
    let pairs: Vec<(String, String)> = fks
        .into_iter()
        .map(|(seq, to_table, from, to)| {
            let to = match to {
                Some(t) if !t.is_empty() => t,
                _ => pk_column_for_sequence(&load_columns(&conn, &to_table), seq).unwrap_or_default(),
            };
            (from, to)
        })
        .collect();
    assert_eq!(pairs, vec![("a".to_string(), "a".to_string()), ("b".to_string(), "b".to_string())]);
    let child = load_columns(&conn, "child");
    assert!(!child.iter().find(|c| c.name == "sum").expect("generated column").writable);
}

#[test]
fn regexp_treats_null_as_a_non_match() {
    let conn = open();
    let matched: bool = conn.query_row("SELECT regexp('x', NULL)", [], |row| row.get(0)).expect("regexp result");
    assert!(!matched);
}

#[test]
fn alphabet_navigation_counts_only_rows_in_the_active_filter() {
    let conn = open();
    conn.execute_batch(
        "CREATE TABLE items (name TEXT, category TEXT);
         INSERT INTO items VALUES
            ('Alpha', 'kept'),
            ('Bravo', 'hidden'),
            ('Charlie', 'kept'),
            ('Delta', 'kept');",
    )
    .expect("seed rows");
    let mut filter = FilterSet::default();
    filter.columns.push((
        "category".to_string(),
        ColumnFilter {
            rules: vec![FilterRule {
                op: FilterOp::Eq,
                value: FilterValue::Literal(SqlValue::Text("kept".to_string())),
                enabled: true,
                label: None,
            }],
        },
    ));
    let (sql, params) = count_rows_before_letter_sql("items", "name", true, 'C', 'C', &filter).expect("sql");
    let values: Vec<Value> = params.iter().map(param).collect();
    let offset: i64 = conn
        .query_row(&sql, rusqlite::params_from_iter(values.iter()), |row| row.get(0))
        .expect("count offset");
    assert_eq!(offset, 1);
}

/// Runs a one-row write inside a transaction, committing only when exactly
/// one row changed.
fn write_one(conn: &Connection, sql: &str, params: &[Value]) -> Result<(), String> {
    let tx = conn.unchecked_transaction().map_err(|e| e.to_string())?;
    let count = tx.execute(sql, rusqlite::params_from_iter(params.iter())).map_err(|e| e.to_string())?;
    match check_row_count(count) {
        RowCountCheck::Commit => tx.commit().map_err(|e| e.to_string()),
        RowCountCheck::NoRow => Err("no row matched".to_string()),
        RowCountCheck::Many(n) => Err(format!("row identity matched {} rows", n)),
    }
}

#[test]
fn insert_row_applies_defaults_when_only_required_values_are_provided() {
    let conn = open();
    conn.execute_batch(
        "CREATE TABLE users (
            id INTEGER PRIMARY KEY,
            name TEXT NOT NULL,
            age INTEGER DEFAULT 18
        );",
    )
    .expect("create table");
    assert!(rowid_alias(&conn, "users").is_some());
    let sql = insert_row_sql("users", &vec!["name".to_string()]);
    conn.execute(&sql, ["Alice"]).expect("insert row");
    let rowid = conn.last_insert_rowid();
    let (name, age): (String, i64) = conn
        .query_row("SELECT name, age FROM users WHERE rowid = ?1", [rowid], |row| {
            Ok((row.get(0)?, row.get(1)?))
        })
        .expect("load inserted row");
    assert_eq!(name, "Alice");
    assert_eq!(age, 18);
}

#[test]
fn insert_rejects_tables_without_an_undoable_rowid() {
    let conn = open();
    conn.execute_batch(
        "CREATE TABLE settings (
            namespace TEXT PRIMARY KEY,
            value TEXT NOT NULL
        ) WITHOUT ROWID;",
    )
    .expect("create table");
    assert!(rowid_alias(&conn, "settings").is_none());
    let count: i64 = conn.query_row("SELECT COUNT(*) FROM settings", [], |row| row.get(0)).expect("count rows");
    assert_eq!(count, 0);
}

#[test]
fn deleted_rows_are_removed_by_captured_identity() {
    let conn = open();
    conn.execute_batch(
        "CREATE TABLE users (
            id INTEGER PRIMARY KEY,
            name TEXT NOT NULL
        );
        INSERT INTO users (id, name) VALUES
            (1, 'carol'),
            (2, 'alice'),
            (3, 'bravo'),
            (4, 'delta');",
    )
    .expect("seed data");
    let alias = rowid_alias(&conn, "users").expect("rowid");
    let sql = delete_row_sql("users", &alias);
    let mut deleted = 0;
    for rowid in [3i64, 1] {
        write_one(&conn, &sql, &[Value::Integer(rowid)]).expect("delete selected row");
        deleted += 1;
    }
    let remaining: Vec<Vec<String>> = run(&conn, "SELECT name FROM users ORDER BY name ASC", &[], 1);
    assert_eq!(deleted, 2);
    assert_eq!(remaining, vec![vec!["alice".to_string()], vec!["delta".to_string()]]);
}

#[test]
fn clear_table_deletes_every_row_in_one_call() {
    let conn = open();
    conn.execute_batch(
        "CREATE TABLE users (id INTEGER PRIMARY KEY, name TEXT);
        INSERT INTO users (id, name) VALUES (1, 'Alice'), (2, 'Bob');",
    )
    .expect("seed data");
    let deleted = conn.execute(&clear_table_sql("users"), []).expect("clear table");
    let remaining: i64 = conn.query_row("SELECT COUNT(*) FROM users", [], |row| row.get(0)).expect("count rows");
    assert_eq!(deleted, 2);
    assert_eq!(remaining, 0);
}

#[test]
fn declared_rowid_column_cannot_redirect_mutations() {
    let conn = open();
    conn.execute_batch(
        "CREATE TABLE items (rowid INTEGER, value TEXT);
         INSERT INTO items (rowid, value) VALUES (7, 'first'), (7, 'second');",
    )
    .expect("seed data");
    let first_physical_rowid: i64 = conn
        .query_row("SELECT _rowid_ FROM items ORDER BY _rowid_ LIMIT 1", [], |row| row.get(0))
        .expect("physical rowid");
    let alias = rowid_alias(&conn, "items").expect("a free rowid alias");
    write_one(
        &conn,
        &commit_cell_edit_sql("items", "value", &alias),
        &[Value::Text("changed".to_string()), Value::Integer(first_physical_rowid)],
    )
    .expect("update one physical row");
    write_one(&conn, &delete_row_sql("items", &alias), &[Value::Integer(first_physical_rowid)])
        .expect("delete one physical row");
    let remaining = run(&conn, "SELECT rowid, value FROM items", &[], 2);
    assert_eq!(remaining, vec![vec!["7".to_string(), "second".to_string()]]);
}

#[test]
fn restoring_deleted_row_never_replaces_a_conflicting_row() {
    let conn = open();
    conn.execute_batch(
        "CREATE TABLE items (id INTEGER UNIQUE, value TEXT);
         INSERT INTO items (id, value) VALUES (1, 'first');",
    )
    .expect("seed data");
    let columns = load_columns(&conn, "items");
    let alias = rowid_alias(&conn, "items").expect("rowid");
    let writable = writable_columns_of(&columns);
    let backup: Vec<Value> = conn
        .query_row(&backup_row_sql("items", &columns, &alias), [1], |row| {
            (0..writable.len())
                .map(|i| {
                    row.get_ref(i).map(|v| match v {
                        ValueRef::Integer(n) => Value::Integer(n),
                        ValueRef::Text(t) => Value::Text(String::from_utf8_lossy(t).into_owned()),
                        _ => Value::Null,
                    })
                })
                .collect::<rusqlite::Result<Vec<_>>>()
        })
        .expect("backup");
    write_one(&conn, &delete_row_sql("items", &alias), &[Value::Integer(1)]).expect("delete");
    conn.execute("INSERT INTO items (id, value) VALUES (1, 'intruder')", []).expect("insert conflict");
    let names: Vec<String> = writable.iter().map(|c| c.name.clone()).collect();
    let restore = reinsert_row_sql("items", &alias, &names).expect("a backup payload");
    let mut params = vec![Value::Integer(1)];
    params.extend(backup);
    assert!(conn.execute(&restore, rusqlite::params_from_iter(params.iter())).is_err());
    assert_eq!(
        conn.query_row("SELECT value FROM items", [], |row| row.get::<_, String>(0)).expect("restored value"),
        "intruder"
    );
}

#[test]
fn delete_row_confirms_selected_row_range() {
    let conn = open();
    conn.execute_batch(
        "CREATE TABLE users (id INTEGER PRIMARY KEY, name TEXT);
         INSERT INTO users (id, name) VALUES (1,'a'),(2,'b'),(3,'c'),(4,'d'),(5,'e'),(6,'f');",
    )
    .expect("seed users");
    let columns = load_columns(&conn, "users");
    let mut grid = GridState::new(GridInit {
        table_name: "users".to_string(),
        columns: columns.clone(),
        fk_cols: vec![false; columns.len()],
        enumerated_values: vec![Vec::new(); columns.len()],
        rows: vec![],
        width_sample_rows: vec![],
        total_rows: 6,
        area_width: 80,
    });
    grid.row_selection = RowSelection::Rows(vec![1, 3, 5]);

    let (table, offsets) = match delete_target(&grid) {
        Some(DeleteTarget::SelectedRows { table, row_offsets }) => (table, row_offsets),
        _ => panic!("expected the selected rows"),
    };
    let id = identity(&conn, &table, &columns).expect("identity");
    let sql = match fetch_rowids_at_offsets_sql(&table, &id, None, "", &offsets) {
        OffsetLookup::Query(sql) => sql,
        other => panic!("unexpected {:?}", other),
    };
    let rowids: Vec<String> = run(&conn, &sql, &[], 1).into_iter().map(|r| r[0].clone()).collect();
    assert_eq!(rowids, vec!["2", "4", "6"]);
    assert_eq!(delete_selected_prompt(rowids.len()), "Delete 3 selected rows? [y/n]");
}
