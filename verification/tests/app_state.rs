use sqview::app::{
    base64_encode, clear_table_prompt, confirm_expired, count_rows_before_letter_sql, delete_row_prompt,
    delete_selected_prompt, delete_target, focused_cell_can_be_set_null, next_active_tab_after_close,
    normalize_enumerated_values, record_undo, rows_deleted_message, should_use_value_picker, take_undo_frame,
    undo_done_message, set_null_refusal, fk_flags, focused_cell, CellRefusal, DeleteTarget, HelpState, NullRefusal, TableTab, Tabs, UndoFrame, UndoOp, UndoRefusal, UNDO_LIMIT,
};
use sqview::filter::{ColumnFilter, FilterOp, FilterRule, FilterSet, FilterValue};
use sqview::grid::{GridInit, GridState, RowSelection};
use sqview::value::{Column, SqlValue};

#[test]
fn normalize_enumerated_values_skips_unique_columns() {
    let values = vec!["a".to_string(), "b".to_string(), "c".to_string()];

    assert!(normalize_enumerated_values(values, 3).is_empty());
}

#[test]
fn normalize_enumerated_values_keeps_repeated_short_values() {
    let values = vec!["pending".to_string(), "done".to_string()];

    assert_eq!(normalize_enumerated_values(values.clone(), 5), values);
}

#[test]
fn normalize_enumerated_values_drops_long_or_many_values() {
    let long = vec!["x".repeat(21), "y".to_string()];
    assert!(normalize_enumerated_values(long, 100).is_empty());
    let exactly_twenty_chars = vec!["x".repeat(20), "y".to_string()];
    assert_eq!(normalize_enumerated_values(exactly_twenty_chars.clone(), 100), exactly_twenty_chars);
    let many = (0..20).map(|i| i.to_string()).collect::<Vec<_>>();
    assert!(normalize_enumerated_values(many, 1000).is_empty());
    assert!(normalize_enumerated_values(Vec::new(), 10).is_empty());
}

#[test]
fn help_scroll_up_and_down() {
    let mut state = HelpState::new();
    state.max_scroll = 10;
    state.scroll_down(3);
    assert_eq!(state.scroll, 3);
    state.scroll_up(2);
    assert_eq!(state.scroll, 1);
    state.scroll_up(5);
    assert_eq!(state.scroll, 0);
    state.scroll_down(100);
    assert_eq!(state.scroll, 10);
}

#[test]
fn closing_inactive_tab_keeps_same_active_tab() {
    assert_eq!(next_active_tab_after_close(Some(2), 0, 3), Some(1));
    assert_eq!(next_active_tab_after_close(Some(1), 2, 3), Some(1));
}

#[test]
fn closing_active_tab_activates_previous_tab() {
    assert_eq!(next_active_tab_after_close(Some(2), 2, 3), Some(1));
    assert_eq!(next_active_tab_after_close(Some(0), 0, 2), Some(0));
    assert_eq!(next_active_tab_after_close(Some(0), 0, 0), None);
}

fn tabs(names: &[&str], active: Option<usize>) -> Tabs {
    Tabs {
        open_tabs: names.iter().map(|n| TableTab { table_name: n.to_string() }).collect(),
        active_tab: active,
    }
}

#[test]
fn tab_list_keeps_a_valid_active_tab() {
    let mut t = tabs(&["a", "b", "c"], Some(2));
    assert!(t.close_tab(2));
    assert_eq!(t.active_tab, Some(1));
    assert_eq!(t.open_tabs.len(), 2);
    assert!(!t.close_tab(5));
    assert!(t.next_tab());
    assert_eq!(t.active_tab, Some(0));
    assert!(t.prev_tab());
    assert_eq!(t.active_tab, Some(1));
    assert!(t.activate_tab(0));
    assert!(!t.activate_tab(2));
    assert_eq!(t.active_tab, Some(0));
    assert!(t.close_tab(0));
    assert!(t.close_tab(0));
    assert_eq!(t.active_tab, None);
    assert!(!t.next_tab());
}

#[test]
fn closing_another_tab_keeps_the_active_table() {
    for close in [0usize, 1, 3, 4] {
        let mut t = tabs(&["a", "b", "c", "d", "e"], Some(2));
        assert!(t.close_tab(close));
        let active = t.active_tab.expect("a tab stays active");
        assert_eq!(t.open_tabs[active].table_name, "c");
    }
}

#[test]
fn value_picker_allows_long_entries_when_distinct_set_is_small() {
    let values = vec![
        "Apple Inc.".to_string(),
        "Embraer - Empresa Brasileira de Aeronáutica S.A.".to_string(),
    ];

    assert!(should_use_value_picker(&values));
}

#[test]
fn value_picker_rejects_empty_and_oversized_distinct_sets() {
    assert!(!should_use_value_picker(&[]));

    let values = (0..101).map(|i| format!("value-{i}")).collect::<Vec<_>>();
    assert!(!should_use_value_picker(&values));
}

#[test]
fn base64_pads_partial_chunks() {
    assert_eq!(base64_encode(b""), "");
    assert_eq!(base64_encode(b"f"), "Zg==");
    assert_eq!(base64_encode(b"fo"), "Zm8=");
    assert_eq!(base64_encode(b"foo"), "Zm9v");
    assert_eq!(base64_encode(b"foobar"), "Zm9vYmFy");
    assert_eq!(base64_encode(&[0xff, 0xfe, 0x3e]), "//4+");
}

#[test]
fn confirmations_expire_at_their_timeout() {
    assert!(!confirm_expired(4, 5));
    assert!(confirm_expired(5, 5));
}

#[test]
fn letter_jump_counts_rows_before_the_letter() {
    let empty = FilterSet::default();
    let (q, p) = count_rows_before_letter_sql("people", "name", true, 'm', 'M', &empty).unwrap();
    assert_eq!(q, "SELECT COUNT(*) FROM \"people\" WHERE (\"name\" IS NULL OR \"name\" < ?1)");
    assert_eq!(p.len(), 1);
    assert!(matches!(&p[0], SqlValue::Text(t) if t == "M"));

    let (q, p) = count_rows_before_letter_sql("people", "name", true, '#', '#', &empty).unwrap();
    assert_eq!(q, "SELECT COUNT(*) FROM \"people\" WHERE \"name\" IS NULL");
    assert!(p.is_empty());

    let (q, _) = count_rows_before_letter_sql("people", "name", false, '#', '#', &empty).unwrap();
    assert_eq!(
        q,
        "SELECT COUNT(*) FROM \"people\" WHERE (\"name\" IS NOT NULL AND \"name\" NOT GLOB '[0-9]*')"
    );

    let mut filtered = FilterSet::default();
    filtered.columns.push((
        "age".to_string(),
        ColumnFilter {
            rules: vec![FilterRule {
                op: FilterOp::Gt,
                value: FilterValue::Literal(SqlValue::Integer(18)),
                enabled: true,
                label: None,
            }],
        },
    ));
    let (q, p) = count_rows_before_letter_sql("people", "name", false, 'm', 'M', &filtered).unwrap();
    assert_eq!(
        q,
        "SELECT COUNT(*) FROM \"people\" WHERE (\"age\" > ?1) AND (\"name\" > ?2 AND \"name\" NOT LIKE ?3)"
    );
    assert_eq!(p.len(), 3);
    assert!(matches!(&p[2], SqlValue::Text(t) if t == "M%"));
}

fn nullable_grid(not_null: bool, value: SqlValue) -> GridState {
    GridState::new(GridInit {
        table_name: "t".to_string(),
        columns: vec![Column {
            cid: 0,
            name: "c".to_string(),
            col_type: "TEXT".to_string(),
            not_null,
            default_value: None,
            is_pk: false,
            pk_position: 0,
            writable: true,
        }],
        fk_cols: vec![false],
        enumerated_values: vec![Vec::new()],
        rows: vec![vec![value]],
        width_sample_rows: vec![],
        total_rows: 1,
        area_width: 40,
    })
}

#[test]
fn only_nullable_non_null_cells_can_be_set_null() {
    let g = nullable_grid(false, SqlValue::Text("x".to_string()));
    assert!(focused_cell_can_be_set_null(false, Some(&g)));
    assert!(!focused_cell_can_be_set_null(true, Some(&g)));
    assert!(!focused_cell_can_be_set_null(false, None));
    let g = nullable_grid(true, SqlValue::Text("x".to_string()));
    assert!(!focused_cell_can_be_set_null(false, Some(&g)));
    let g = nullable_grid(false, SqlValue::Null);
    assert!(!focused_cell_can_be_set_null(false, Some(&g)));
}

fn users_grid(rows: usize, total: i64) -> GridState {
    GridState::new(GridInit {
        table_name: "users".to_string(),
        columns: vec![Column {
            cid: 0,
            name: "name".to_string(),
            col_type: "TEXT".to_string(),
            not_null: false,
            default_value: None,
            is_pk: false,
            pk_position: 0,
            writable: true,
        }],
        fk_cols: vec![false],
        enumerated_values: vec![Vec::new()],
        rows: vec![vec![SqlValue::Text("u".to_string())]; rows],
        width_sample_rows: vec![],
        total_rows: total,
        area_width: 40,
    })
}

fn frame(rowid: i64) -> UndoFrame {
    UndoFrame { op: UndoOp::Delete, table: "users".to_string(), rowid, cols: vec![] }
}

#[test]
fn deleting_rows_pulls_focus_and_viewport_back_into_the_table() {
    let mut g = users_grid(10, 10);
    g.window.viewport_rows = 5;
    g.focused_row = 9;
    g.viewport_start = 5;
    g.select_all_rows();
    g.apply_rows_deleted(3);
    assert_eq!(g.window.total_rows, 7);
    assert_eq!(g.focused_row, 6);
    assert_eq!(g.viewport_start, 2);
    assert!(g.window.rows.is_empty());
    assert!(g.window.rowids.is_empty());
    assert!(!g.window.fetch_in_flight);
    assert!(g.needs_fetch);
    assert_eq!(g.row_selection, RowSelection::Empty);

    g.apply_rows_deleted(50);
    assert_eq!(g.window.total_rows, -43);
    assert_eq!(g.focused_row, 0);
    assert_eq!(g.viewport_start, 0);
}

#[test]
fn undo_stack_keeps_the_newest_hundred_frames() {
    let mut stack = Vec::new();
    for rowid in 0..=UNDO_LIMIT as i64 {
        record_undo(&mut stack, frame(rowid));
    }
    assert_eq!(stack.len(), UNDO_LIMIT);
    assert_eq!(stack[0].rowid, 1);
    let top = take_undo_frame(&mut stack, false, false).expect("a frame");
    assert_eq!(top.rowid, UNDO_LIMIT as i64);
    assert_eq!(stack.len(), UNDO_LIMIT - 1);
}

#[test]
fn undo_is_refused_when_read_only_busy_or_empty() {
    let mut stack = vec![frame(4)];
    assert_eq!(take_undo_frame(&mut stack, true, false).err(), Some(UndoRefusal::ReadOnly));
    assert_eq!(take_undo_frame(&mut stack, false, true).err(), Some(UndoRefusal::WriteRunning));
    assert_eq!(stack.len(), 1);
    assert_eq!(take_undo_frame(&mut stack, false, false).map(|f| f.rowid).ok(), Some(4));
    assert_eq!(take_undo_frame(&mut stack, false, false).err(), Some(UndoRefusal::Nothing));
    assert_eq!(UndoRefusal::ReadOnly.message(), "Read-only: cannot undo");
    assert_eq!(UndoRefusal::WriteRunning.message(), "A database write is already running");
    assert_eq!(UndoRefusal::Nothing.message(), "Nothing to undo");
}

#[test]
fn write_notices_and_delete_prompts() {
    assert_eq!(undo_done_message(UndoOp::Update, 5), "Undo: restored row 5");
    assert_eq!(undo_done_message(UndoOp::Insert, -2), "Undo: deleted inserted row -2");
    assert_eq!(undo_done_message(UndoOp::Delete, 12), "Undo: restored deleted row 12");
    assert_eq!(rows_deleted_message(0), "No rows deleted");
    assert_eq!(rows_deleted_message(1), "1 row deleted");
    assert_eq!(rows_deleted_message(42), "42 rows deleted");
    assert_eq!(delete_row_prompt(3), "Delete row #3? [y/n]");
    assert_eq!(delete_selected_prompt(1), "Delete 1 selected row? [y/n]");
    assert_eq!(delete_selected_prompt(3), "Delete 3 selected rows? [y/n]");
    assert!(clear_table_prompt(5, "users").expect("rows").contains("Delete all 5 rows from users?"));
    assert_eq!(clear_table_prompt(0, "users"), None);
}

#[test]
fn delete_targets_follow_the_selection() {
    let mut g = users_grid(6, 6);
    g.select_all_rows();
    assert!(matches!(delete_target(&g), Some(DeleteTarget::AllRows { table }) if table == "users"));

    g.row_selection = RowSelection::Rows(vec![1, 3, 5]);
    match delete_target(&g) {
        Some(DeleteTarget::SelectedRows { table, row_offsets }) => {
            assert_eq!(table, "users");
            assert_eq!(row_offsets, vec![1, 3, 5]);
        }
        _ => panic!("expected the selected rows"),
    }
    g.row_selection = RowSelection::Rows(vec![]);
    assert!(delete_target(&g).is_none());

    g.row_selection = RowSelection::Empty;
    g.focused_row = 2;
    assert!(delete_target(&g).is_none());
    g.window.rowids = (0..6).map(|i| Some(100 + i)).collect();
    match delete_target(&g) {
        Some(DeleteTarget::CurrentRow { row_num, table, rowid }) => {
            assert_eq!((row_num, table.as_str(), rowid), (3, "users", 102));
        }
        _ => panic!("expected the focused row"),
    }
}

#[test]
fn setting_null_is_refused_for_not_null_columns_and_null_cells() {
    assert_eq!(set_null_refusal(true, &SqlValue::Integer(1)), Some(NullRefusal::NotNullColumn));
    assert_eq!(set_null_refusal(true, &SqlValue::Null), Some(NullRefusal::NotNullColumn));
    assert_eq!(set_null_refusal(false, &SqlValue::Null), Some(NullRefusal::AlreadyNull));
    assert_eq!(set_null_refusal(false, &SqlValue::Text("x".to_string())), None);
    assert_eq!(NullRefusal::NotNullColumn.message(), "Column is NOT NULL");
    assert_eq!(NullRefusal::AlreadyNull.message(), "Cell is already NULL");
}

#[test]
fn inserted_row_and_edited_cell_reload_the_view() {
    let mut g = users_grid(6, 6);
    g.window.viewport_rows = 10;
    g.focused_row = 70;
    g.apply_row_inserted();
    assert_eq!(g.window.total_rows, 7);
    assert!(g.window.rows.is_empty());
    assert!(g.needs_fetch);
    assert!(!g.window.fetch_in_flight);

    let fetch = g.reload_after_edit();
    assert_eq!((fetch.offset, fetch.limit), (20, 110));
    assert!(g.window.fetch_in_flight);
    assert!(!g.needs_fetch);
}

#[test]
fn opening_a_table_shows_it_in_a_tab() {
    let mut t = tabs(&["a", "b"], Some(0));
    t.open_table("b".to_string(), true);
    assert_eq!(t.open_tabs.len(), 2);
    assert_eq!(t.active_tab, Some(1));

    t.open_table("c".to_string(), true);
    assert_eq!(t.open_tabs.len(), 3);
    assert_eq!(t.active_tab, Some(2));
    assert_eq!(t.open_tabs[2].table_name, "c");

    t.open_table("d".to_string(), false);
    assert_eq!(t.open_tabs.len(), 3);
    assert_eq!(t.active_tab, Some(2));
    assert_eq!(t.open_tabs[2].table_name, "d");

    let mut empty = tabs(&[], None);
    empty.open_table("x".to_string(), false);
    assert_eq!(empty.active_tab, Some(0));
    assert_eq!(empty.open_tabs[0].table_name, "x");
}

#[test]
fn foreign_key_flags_follow_the_source_columns() {
    let cols: Vec<Column> = ["id", "owner_id", "note"]
        .iter()
        .map(|n| Column {
            cid: 0,
            name: n.to_string(),
            col_type: "INTEGER".to_string(),
            not_null: false,
            default_value: None,
            is_pk: false,
            pk_position: 0,
            writable: true,
        })
        .collect();
    assert_eq!(fk_flags(&cols, &["owner_id".to_string()]), vec![false, true, false]);
    assert_eq!(fk_flags(&cols, &[]), vec![false, false, false]);
}

#[test]
fn focused_cell_is_refused_for_generated_columns_and_unloaded_rows() {
    let mut g = users_grid(6, 6);
    g.focused_row = 2;
    assert!(matches!(focused_cell(&g), Some(Err(CellRefusal::RowNotEditable))));
    g.window.rowids = (0..6).map(|i| Some(10 + i)).collect();
    match focused_cell(&g) {
        Some(Ok(cell)) => {
            assert_eq!(cell.rowid, 12);
            assert_eq!(cell.table_name, "users");
            assert_eq!(cell.col.name, "name");
            assert!(matches!(cell.cell_value, SqlValue::Text(ref t) if t == "u"));
            assert!(!cell.is_fk);
        }
        _ => panic!("expected the focused cell"),
    }
    g.columns[0].writable = false;
    assert!(matches!(focused_cell(&g), Some(Err(CellRefusal::GeneratedColumn))));
    assert_eq!(CellRefusal::GeneratedColumn.message(), "Generated columns are read-only");
    assert_eq!(CellRefusal::RowNotEditable.message(), "Row is not loaded or cannot be edited safely");
    g.columns[0].writable = true;
    g.focused_row = 40;
    assert!(focused_cell(&g).is_none());
    g.focused_col = 3;
    assert!(focused_cell(&g).is_none());
}
