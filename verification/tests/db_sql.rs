use sqview::db::write::{
    backup_row_sql, check_row_count, clear_table_sql, commit_cell_edit_sql, delete_row_sql, insert_row_sql,
    reinsert_row_sql, RowCountCheck,
};
use sqview::db::{
    build_order_terms, build_where_part, count_rows_sql, distinct_values_sql, fetch_offset_for_rowid_sql,
    fetch_rows_at_offsets_sql, fetch_rows_sql, fetch_rows_with_rowids_sql, fetch_rowids_at_offsets_sql,
    offset_list, row_identity, table_pragma_sql, unused_column_alias, visit_rows_sql, OffsetLookup,
};
use sqview::query::quote_identifier;
use sqview::value::{Column, RowIdentity};

fn col(name: &str, pk_position: i64, writable: bool) -> Column {
    Column {
        cid: 0,
        name: name.to_string(),
        col_type: "TEXT".to_string(),
        not_null: false,
        default_value: None,
        is_pk: pk_position > 0,
        pk_position,
        writable,
    }
}

#[test]
fn quotes_embedded_double_quotes() {
    assert_eq!(quote_identifier("a\"b"), "\"a\"\"b\"");
}

#[test]
fn row_identity_prefers_an_unshadowed_rowid_alias() {
    match row_identity(false, &[col("id", 1, true)]) {
        Some(RowIdentity::RowidAlias(a)) => assert_eq!(a, "rowid"),
        _ => panic!("rowid expected"),
    }
    match row_identity(false, &[col("ROWID", 0, true), col("_rowid_", 0, true)]) {
        Some(RowIdentity::RowidAlias(a)) => assert_eq!(a, "oid"),
        _ => panic!("oid expected"),
    }
    let shadowed = [col("rowid", 0, true), col("_rowid_", 0, true), col("Oid", 0, true)];
    assert!(row_identity(false, &shadowed).is_none());
    let keyed = [col("b", 2, true), col("x", 0, true), col("a", 1, true)];
    match row_identity(true, &keyed) {
        Some(RowIdentity::PrimaryKey(k)) => assert_eq!(k, vec!["a".to_string(), "b".to_string()]),
        _ => panic!("primary key expected"),
    }
    let tied = [col("p", 1, true), col("q", 1, true)];
    match row_identity(true, &tied) {
        Some(RowIdentity::PrimaryKey(k)) => assert_eq!(k, vec!["p".to_string(), "q".to_string()]),
        _ => panic!("primary key expected"),
    }
}

#[test]
fn order_terms_end_with_the_row_identity() {
    let rowid = RowIdentity::RowidAlias("rowid".to_string());
    assert_eq!(build_order_terms(None, &rowid), "\"rowid\"");
    assert_eq!(build_order_terms(Some(("name", false)), &rowid), "\"name\" DESC, \"rowid\"");
    let pk = RowIdentity::PrimaryKey(vec!["a".to_string(), "b".to_string()]);
    assert_eq!(build_order_terms(Some(("c", true)), &pk), "\"c\" ASC, \"a\" ASC, \"b\" ASC");
    assert_eq!(build_where_part(""), "");
    assert_eq!(build_where_part("x = 1"), " WHERE x = 1");
}

#[test]
fn read_statements_quote_names_and_bind_values() {
    let cols = [col("id", 0, true), col("na\"me", 0, true)];
    let rowid = RowIdentity::RowidAlias("rowid".to_string());
    assert_eq!(count_rows_sql("t", ""), "SELECT COUNT(*) FROM \"t\"");
    assert_eq!(
        fetch_rows_sql("t", &cols, &rowid, None, "\"id\" > ?1", 50, 100),
        "SELECT \"id\", \"na\"\"me\" FROM \"t\" WHERE \"id\" > ?1 ORDER BY \"rowid\" LIMIT 50 OFFSET 100"
    );
    assert_eq!(
        visit_rows_sql("t", &cols, &rowid, None, "", 0),
        "SELECT \"id\", \"na\"\"me\" FROM \"t\" ORDER BY \"rowid\" LIMIT ?1 OFFSET ?2"
    );
    assert_eq!(
        fetch_rows_with_rowids_sql("t", &cols, &rowid, None, "x", 2),
        "SELECT \"rowid\", \"id\", \"na\"\"me\" FROM \"t\" WHERE x ORDER BY \"rowid\" LIMIT ?3 OFFSET ?4"
    );
    assert_eq!(
        distinct_values_sql("t", "c"),
        "SELECT DISTINCT \"c\" FROM \"t\" WHERE \"c\" IS NOT NULL ORDER BY 1 LIMIT ?1"
    );
    assert_eq!(table_pragma_sql("table_xinfo", "t"), "PRAGMA table_xinfo(\"t\")");
}

#[test]
fn offset_statements_follow_the_visible_order() {
    let rowid = RowIdentity::RowidAlias("rowid".to_string());
    assert_eq!(
        fetch_offset_for_rowid_sql("t", &rowid, None, "", 0).unwrap(),
        "SELECT visible_offset FROM (\n            SELECT \"rowid\", ROW_NUMBER() OVER (ORDER BY \"rowid\") - 1 AS visible_offset\n            FROM \"t\"\n        ) WHERE \"rowid\" = ?1 LIMIT 1"
    );
    let pk = RowIdentity::PrimaryKey(vec!["a".to_string()]);
    assert!(fetch_offset_for_rowid_sql("t", &pk, None, "", 0).is_none());
    assert_eq!(offset_list(&[3, -1, 7]), "3, 7");
    assert_eq!(offset_list(&[-2]), "");
    assert!(matches!(fetch_rowids_at_offsets_sql("t", &rowid, None, "", &[]), OffsetLookup::Nothing));
    assert!(matches!(fetch_rowids_at_offsets_sql("t", &pk, None, "", &[1]), OffsetLookup::NoRowid));
    assert!(matches!(fetch_rowids_at_offsets_sql("t", &rowid, None, "", &[-1]), OffsetLookup::Nothing));
    match fetch_rowids_at_offsets_sql("t", &rowid, None, "", &[0, 2]) {
        OffsetLookup::Query(q) => assert!(q.ends_with("SELECT \"rowid\" FROM visible WHERE visible_offset IN (0, 2)")),
        _ => panic!("query expected"),
    }
    let cols = [col("__sqview_offset", 0, true), col("v", 0, true)];
    let q = fetch_rows_at_offsets_sql("t", &cols, &rowid, None, "", &[1]).unwrap();
    assert!(q.contains("- 1 AS \"__sqview_offset_1\""), "got: {}", q);
    assert!(q.contains("SELECT visible.\"__sqview_offset\", visible.\"v\" FROM visible"));
    assert!(fetch_rows_at_offsets_sql("t", &[], &rowid, None, "", &[1]).is_none());
}

#[test]
fn offset_alias_avoids_every_column_name() {
    assert_eq!(unused_column_alias(&[col("a", 0, true)], "x"), "x");
    assert_eq!(unused_column_alias(&[col("X", 0, true), col("x_1", 0, true)], "x"), "x_2");
}

#[test]
fn write_statements_target_one_row() {
    assert_eq!(commit_cell_edit_sql("t", "c", "rowid"), "UPDATE \"t\" SET \"c\" = ?1 WHERE \"rowid\" = ?2");
    assert_eq!(insert_row_sql("t", &vec![]), "INSERT INTO \"t\" DEFAULT VALUES");
    assert_eq!(
        insert_row_sql("t", &vec!["a".to_string(), "b".to_string()]),
        "INSERT INTO \"t\" (\"a\", \"b\") VALUES (?1, ?2)"
    );
    assert_eq!(delete_row_sql("t", "oid"), "DELETE FROM \"t\" WHERE \"oid\" = ?1");
    assert_eq!(clear_table_sql("t"), "DELETE FROM \"t\"");
    assert_eq!(
        backup_row_sql("t", &[col("a", 0, true), col("g", 0, false), col("b", 0, true)], "rowid"),
        "SELECT \"a\", \"b\" FROM \"t\" WHERE \"rowid\" = ?1 LIMIT 1"
    );
    assert_eq!(
        reinsert_row_sql("t", "rowid", &vec!["a".to_string(), "b".to_string()]).unwrap(),
        "INSERT INTO \"t\" (\"rowid\", \"a\", \"b\") VALUES (?1, ?2, ?3)"
    );
    assert!(reinsert_row_sql("t", "rowid", &vec![]).is_none());
    assert_eq!(check_row_count(1), RowCountCheck::Commit);
    assert_eq!(check_row_count(0), RowCountCheck::NoRow);
    assert_eq!(check_row_count(3), RowCountCheck::Many(3));
}
