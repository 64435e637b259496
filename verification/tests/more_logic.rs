use sqview::app::inferred_enumerated_values;
use sqview::cli::{config_setup, should_refresh, watched_names, ChangeKind, ConfigSetup};
use sqview::db::{is_internal_object, pk_column_for_sequence};
use sqview::filter::sqlite_regexp;
use sqview::grid::{GridInit, GridState, SortDir, SortSpec};
use sqview::sorted::{insert_sorted, str_lt};
use sqview::value::{Column, RealNumber, SqlValue};

fn col(name: &str, pk_position: i64) -> Column {
    Column {
        cid: 0,
        name: name.to_string(),
        col_type: "TEXT".to_string(),
        not_null: false,
        default_value: None,
        is_pk: pk_position > 0,
        pk_position,
        writable: true,
    }
}

#[test]
fn enumerated_values_are_sorted_distinct_texts() {
    let rows = vec![
        vec![SqlValue::Text("pending".to_string())],
        vec![SqlValue::Text("done".to_string())],
        vec![SqlValue::Null],
        vec![SqlValue::Text("pending".to_string())],
        vec![],
    ];
    assert_eq!(inferred_enumerated_values(&rows, 0, 10), vec!["done".to_string(), "pending".to_string()]);
    let unique = vec![vec![SqlValue::Integer(2)], vec![SqlValue::Integer(10)]];
    assert!(inferred_enumerated_values(&unique, 0, 2).is_empty());
    assert_eq!(inferred_enumerated_values(&unique, 0, 5), vec!["10".to_string(), "2".to_string()]);
    let real = vec![vec![SqlValue::Real(RealNumber {
        bits: 1.5f64.to_bits(),
        display: "1.5".to_string(),
        fixed6: "1.500000".to_string(),
    })]];
    assert_eq!(inferred_enumerated_values(&real, 0, 3), vec!["1.5".to_string()]);
    let many = (0..25).map(|i| vec![SqlValue::Integer(i)]).collect::<Vec<_>>();
    assert!(inferred_enumerated_values(&many, 0, 1000).is_empty());
}

#[test]
fn strings_sort_by_code_point() {
    assert!(str_lt("a", "b"));
    assert!(str_lt("ab", "abc"));
    assert!(!str_lt("abc", "ab"));
    assert!(!str_lt("x", "x"));
    assert!(str_lt("Z", "a"));
    assert!(str_lt("é", "€"));
    let mut v: Vec<String> = Vec::new();
    for s in ["m", "a", "z", "m", "b"] {
        insert_sorted(&mut v, s.to_string());
    }
    assert_eq!(v, vec!["a", "b", "m", "z"]);
}

#[test]
fn scrolling_asks_for_one_window_fetch_at_a_time() {
    let mut grid = GridState::new(GridInit {
        table_name: "t".to_string(),
        columns: vec![col("name", 0)],
        fk_cols: vec![false],
        enumerated_values: vec![Vec::new()],
        rows: vec![vec![SqlValue::Null]; 20],
        width_sample_rows: vec![],
        total_rows: 1000,
        area_width: 40,
    });
    grid.sort = Some(SortSpec { col_idx: 0, direction: SortDir::Desc });
    grid.scroll_down(200);
    assert!(grid.needs_fetch);
    let fetch = grid.take_window_fetch().expect("fetch");
    assert_eq!(fetch.table, "t");
    assert_eq!(fetch.offset, 150);
    assert_eq!(fetch.limit, 120);
    assert_eq!(fetch.sort, Some(("name".to_string(), false)));
    assert!(grid.window.fetch_in_flight);
    assert!(!grid.needs_fetch);
    assert!(grid.take_window_fetch().is_none());
}

#[test]
fn foreign_keys_find_primary_key_columns_by_rank() {
    let cols = [col("b", 2), col("x", 0), col("a", 1)];
    assert_eq!(pk_column_for_sequence(&cols, 0), Some("a".to_string()));
    assert_eq!(pk_column_for_sequence(&cols, 1), Some("b".to_string()));
    assert_eq!(pk_column_for_sequence(&cols, 2), None);
    assert_eq!(pk_column_for_sequence(&cols, -1), None);
    assert!(is_internal_object("sqlite_autoindex_t_1"));
    assert!(!is_internal_object("idx_sqlite_"));
    assert!(!is_internal_object("sqlite"));
}

#[test]
fn regexp_function_matches_or_reports() {
    assert_eq!(sqlite_regexp("^a+b", Some("aaab")), Ok(true));
    assert_eq!(sqlite_regexp("^a+b", Some("xb")), Ok(false));
    assert_eq!(sqlite_regexp("^a+b", None), Ok(false));
    assert!(sqlite_regexp("[", Some("x")).is_err());
}

#[test]
fn file_watch_follows_the_database_and_its_journals() {
    let w = watched_names("data.db");
    assert_eq!(w, vec!["data.db", "data.db-wal", "data.db-shm"]);
    assert!(should_refresh(ChangeKind::Modify, &[Some("data.db-wal".to_string())], &w));
    assert!(!should_refresh(ChangeKind::Other, &[Some("data.db".to_string())], &w));
    assert!(!should_refresh(ChangeKind::Create, &[Some("other.db".to_string()), None], &w));
    assert!(should_refresh(ChangeKind::Remove, &[None, Some("data.db".to_string())], &w));
}

#[test]
fn configuration_is_created_once() {
    assert_eq!(config_setup(false, false, true), ConfigSetup::Unavailable);
    assert_eq!(config_setup(true, true, true), ConfigSetup::Ready);
    assert_eq!(config_setup(true, false, true), ConfigSetup::CopyLegacy);
    assert_eq!(config_setup(true, false, false), ConfigSetup::WriteDefault);
}
