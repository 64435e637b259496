use sqview::grid::header::header_text;
use sqview::symbols::Symbols;
use sqview::grid::palette::{badge_color, enum_color_index, palette_entry, row_base_color};
use sqview::theme::Theme;
use sqview::filter::{ColumnFilter, FilterOp, FilterRule, FilterValue};
use sqview::grid::alphabet_rail::{active_letter, hit_test as rail_hit_test, letters_to_show, normalize_letter};
use sqview::grid::view::{
    compute_visible_cols, digits, display_row_kind, display_viewport_start, format_thousands, hit_test,
    scrollbar_drag_start, scrollbar_drag_target_row, total_display_rows, vertical_scrollbar_metrics,
    DisplayRow, GridHit, Rect,
};
use sqview::grid::{GridInit, GridState, RowSelection, SortDir, SortSpec};
use sqview::value::{Column, SqlValue};

fn make_col(name: &str, col_type: &str, is_pk: bool) -> Column {
    Column {
        cid: 0,
        name: name.to_string(),
        col_type: col_type.to_string(),
        not_null: false,
        default_value: None,
        is_pk,
        pk_position: 0,
        writable: true,
    }
}

fn text_col(name: &str) -> Column {
    Column {
        cid: 0,
        name: name.to_string(),
        col_type: "TEXT".to_string(),
        not_null: false,
        default_value: None,
        is_pk: false,
        pk_position: 0,
        writable: true,
    }
}

fn customers(rows: usize, total: i64) -> GridState {
    GridState::new(GridInit {
        table_name: "customers".to_string(),
        columns: vec![make_col("name", "TEXT", false)],
        fk_cols: vec![false],
        enumerated_values: vec![Vec::new()],
        rows: vec![vec![SqlValue::Text("Alice".to_string())]; rows],
        width_sample_rows: vec![],
        total_rows: total,
        area_width: 40,
    })
}

#[test]
fn recompute_col_widths_preserves_sampled_widths_even_in_narrow_viewports() {
    let columns = vec![make_col("service", "TEXT", false)];
    let mut grid = GridState::new(GridInit {
        table_name: "payments".to_string(),
        columns,
        fk_cols: vec![false],
        enumerated_values: vec![Vec::new()],
        rows: vec![vec![SqlValue::Text("x".to_string())]],
        width_sample_rows: vec![vec![SqlValue::Text("Microsoft Exchange Online".to_string())]],
        total_rows: 1,
        area_width: 8,
    });

    let narrow = grid.col_widths[0];
    grid.recompute_col_widths(40);

    assert!(narrow > 10);
    assert_eq!(grid.col_widths[0], narrow);
}

#[test]
fn last_visible_column_expands_to_fill_viewport() {
    let columns = vec![
        make_col("id", "INTEGER", false),
        make_col("name", "TEXT", false),
        make_col("city", "TEXT", false),
    ];
    let mut grid = GridState::new(GridInit {
        table_name: "customers".to_string(),
        columns,
        fk_cols: vec![false, false, false],
        enumerated_values: vec![Vec::new(), Vec::new(), Vec::new()],
        rows: vec![vec![
            SqlValue::Integer(1),
            SqlValue::Text("Alice".to_string()),
            SqlValue::Text("Brussels".to_string()),
        ]],
        width_sample_rows: vec![],
        total_rows: 1,
        area_width: 80,
    });
    grid.col_widths = vec![6, 8, 8];

    let visible = compute_visible_cols(&grid, 20);

    assert_eq!(visible, vec![(0, 6), (1, 14)]);
}

#[test]
fn extra_width_prefers_text_columns_over_numeric_columns() {
    let columns = vec![
        make_col("id", "INTEGER", false),
        make_col("title", "TEXT", false),
        make_col("score", "INTEGER", false),
    ];
    let mut grid = GridState::new(GridInit {
        table_name: "scores".to_string(),
        columns,
        fk_cols: vec![false, false, false],
        enumerated_values: vec![Vec::new(), Vec::new(), Vec::new()],
        rows: vec![vec![
            SqlValue::Integer(1),
            SqlValue::Text("Alice".to_string()),
            SqlValue::Integer(42),
        ]],
        width_sample_rows: vec![],
        total_rows: 1,
        area_width: 28,
    });
    grid.col_widths = vec![6, 8, 6];

    let visible = compute_visible_cols(&grid, 28);

    assert_eq!(visible, vec![(0, 6), (1, 16), (2, 6)]);
}

#[test]
fn leftover_width_is_shared_among_text_columns_first_ones_taking_the_remainder() {
    let columns = vec![
        make_col("a", "TEXT", false),
        make_col("b", "INTEGER", false),
        make_col("c", "BLOB", false),
    ];
    let mut grid = GridState::new(GridInit {
        table_name: "t".to_string(),
        columns,
        fk_cols: vec![false, false, false],
        enumerated_values: vec![Vec::new(), Vec::new(), Vec::new()],
        rows: vec![],
        width_sample_rows: vec![],
        total_rows: 0,
        area_width: 40,
    });
    grid.col_widths = vec![6, 6, 6];

    assert_eq!(compute_visible_cols(&grid, 25), vec![(0, 10), (1, 6), (2, 9)]);
    grid.h_scroll = 1;
    assert_eq!(compute_visible_cols(&grid, 10), vec![(1, 10)]);
    grid.h_scroll = 3;
    assert_eq!(compute_visible_cols(&grid, 10), vec![]);
}

#[test]
fn scrollbar_drag_maps_pointer_position_to_row() {
    let mut grid = customers(50, 100);
    grid.window.viewport_rows = 20;
    let area = Rect { x: 0, y: 0, width: 20, height: 13 };

    let (grab_offset, top_row) = scrollbar_drag_start(area, &grid, 3).expect("thumb drag");
    let lower_row = scrollbar_drag_target_row(area, &grid, 10, grab_offset).expect("lower drag target");

    assert_eq!(top_row, 0);
    assert!(lower_row > 0);
    assert!(lower_row < grid.window.total_rows);
}

#[test]
fn scrollbar_metrics_follow_viewport_share_and_focus() {
    let mut grid = customers(50, 100);
    grid.window.viewport_rows = 20;
    let area = Rect { x: 0, y: 0, width: 20, height: 13 };
    let m = vertical_scrollbar_metrics(area, &grid).expect("metrics");
    assert_eq!(m.track_x, 19);
    assert_eq!(m.track_y_start, 3);
    assert_eq!(m.track_height, 10);
    assert_eq!(m.thumb_height, 2);
    assert_eq!(m.thumb_offset, 0);
    grid.focused_row = 99;
    let m = vertical_scrollbar_metrics(area, &grid).expect("metrics");
    assert_eq!(m.thumb_offset, 8);
    let empty = customers(0, 0);
    assert!(vertical_scrollbar_metrics(area, &empty).is_none());
    assert_eq!(scrollbar_drag_target_row(area, &grid, 12, 0), Some(99));
}

#[test]
fn scroll_down_starts_moving_viewport_before_bottom_edge() {
    let mut grid = customers(20, 100);
    grid.window.viewport_rows = 10;

    grid.scroll_down(5);

    assert_eq!(grid.focused_row, 5);
    assert_eq!(grid.viewport_start, 1);
}

// The selection is a set of rows that grows behind the focus (Shift+Down
// from row 0 selects {0} and moves to row 1), not an anchor-to-head range.
#[test]
fn extending_row_selection_adds_the_rows_left_behind() {
    let mut grid = customers(10, 10);

    grid.extend_row_selection_down(1);
    grid.extend_row_selection_down(1);

    assert_eq!(grid.focused_row, 2);
    assert_eq!(grid.row_selection, RowSelection::Rows(vec![0, 1]));
    assert!(grid.is_row_selected(1));
    assert!(!grid.is_row_selected(2));
    assert_eq!(grid.selected_rows(), vec![0, 1]);
    assert_eq!(grid.selected_row_range(), Some((0, 1)));

    grid.extend_row_selection_up(1);
    assert_eq!(grid.focused_row, 1);
    assert_eq!(grid.row_selection, RowSelection::Rows(vec![0, 1, 2]));
}

#[test]
fn toggling_rows_builds_and_empties_a_set() {
    let mut grid = customers(10, 10);
    grid.toggle_row_selected(5);
    grid.toggle_row_selected(1);
    grid.toggle_row_selected(3);
    assert_eq!(grid.row_selection, RowSelection::Rows(vec![1, 3, 5]));
    grid.toggle_row_selected(3);
    assert_eq!(grid.row_selection, RowSelection::Rows(vec![1, 5]));
    grid.toggle_row_selected(1);
    grid.toggle_row_selected(5);
    assert_eq!(grid.row_selection, RowSelection::Empty);
    grid.select_only_row(7);
    assert_eq!(grid.row_selection, RowSelection::Rows(vec![7]));
}

#[test]
fn focus_cell_clears_row_selection() {
    let mut grid = customers(10, 10);
    grid.select_all_rows();

    grid.focus_cell(4, 0);

    assert_eq!(grid.row_selection, RowSelection::Empty);
    assert_eq!(grid.focused_row, 4);
}

fn people(rows: Vec<Vec<SqlValue>>) -> GridState {
    let mut grid = GridState::new(GridInit {
        table_name: "people".to_string(),
        columns: vec![text_col("name")],
        fk_cols: vec![false],
        enumerated_values: vec![Vec::new()],
        rows,
        width_sample_rows: vec![],
        total_rows: 300,
        area_width: 40,
    });
    grid.sort = Some(SortSpec { col_idx: 0, direction: SortDir::Asc });
    grid
}

#[test]
fn hit_test_returns_clicked_rail_letter() {
    let grid = people(vec![vec![SqlValue::Text("Alice".to_string())]]);
    let area = Rect { x: 0, y: 0, width: 40, height: 30 };

    assert_eq!(rail_hit_test(area, &grid, 37, 4), Some('A'));
}

#[test]
fn active_letter_tracks_focused_row_not_viewport_start() {
    let mut grid = people(vec![
        vec![SqlValue::Text("Sally".to_string())],
        vec![SqlValue::Text("Tina".to_string())],
    ]);
    grid.viewport_start = 0;
    grid.focused_row = 1;

    assert_eq!(active_letter(&grid), Some('T'));
}

#[test]
fn rail_letters_fit_the_track() {
    assert_eq!(letters_to_show(30).len(), 27);
    assert_eq!(letters_to_show(0), vec!['#']);
    let nine = letters_to_show(9);
    assert_eq!(nine, vec!['#', 'C', 'F', 'I', 'L', 'O', 'R', 'U', 'X']);
    for h in 1..40 {
        assert!(letters_to_show(h).len() <= h);
    }
    assert_eq!(normalize_letter('a'), 'A');
    assert_eq!(normalize_letter('Z'), 'Z');
    assert_eq!(normalize_letter('7'), '#');
    assert_eq!(normalize_letter('é'), '#');
}

#[test]
fn grid_hit_test_finds_gutter_header_and_cells() {
    let mut grid = customers(10, 10);
    grid.col_widths = vec![10];
    let area = Rect { x: 0, y: 0, width: 40, height: 20 };
    assert_eq!(hit_test(area, &grid, 39, 5), Some(GridHit::Scrollbar));
    assert_eq!(hit_test(area, &grid, 0, 5), Some(GridHit::RowGutter(2)));
    assert_eq!(hit_test(area, &grid, 5, 1), Some(GridHit::Header(0)));
    assert_eq!(hit_test(area, &grid, 5, 4), Some(GridHit::Cell { row: 1, col: 0 }));
    assert_eq!(hit_test(area, &grid, 5, 18), None);
    assert_eq!(hit_test(area, &grid, 50, 5), None);
}

#[test]
fn display_rows_make_room_for_the_inserted_row() {
    let mut grid = customers(10, 10);
    assert_eq!(total_display_rows(&grid, Some(3)), 11);
    assert_eq!(total_display_rows(&grid, None), 10);
    grid.viewport_start = 5;
    assert_eq!(display_viewport_start(&grid, Some(3)), 6);
    assert_eq!(display_viewport_start(&grid, Some(7)), 5);
    assert_eq!(display_row_kind(&grid, Some(3), 3), Some(DisplayRow::Insert));
    assert_eq!(display_row_kind(&grid, Some(3), 4), Some(DisplayRow::Data { real_abs: 3 }));
    assert_eq!(display_row_kind(&grid, Some(3), 2), Some(DisplayRow::Data { real_abs: 2 }));
    assert_eq!(display_row_kind(&grid, Some(3), 11), None);
    assert_eq!(display_row_kind(&grid, None, 10), None);
}

#[test]
fn gutter_digits_and_row_counts() {
    assert_eq!(digits(0), 1);
    assert_eq!(digits(9), 1);
    assert_eq!(digits(10), 2);
    assert_eq!(digits(-12345), 5);
    assert_eq!(digits(i64::MIN), 19);
    assert_eq!(format_thousands(1234567), "1234567");
    assert_eq!(format_thousands(-42), "-42");
}

fn users_table_grid() -> GridState {
    let columns = vec![
        make_col("id", "INTEGER", false),
        make_col("name", "TEXT", false),
        make_col("age", "INTEGER", false),
        make_col("email", "TEXT", false),
    ];
    let rows: Vec<Vec<SqlValue>> = (0..50)
        .map(|i| {
            vec![
                SqlValue::Integer(i),
                SqlValue::Text(format!("user-{i}")),
                SqlValue::Integer(20 + i % 40),
                SqlValue::Text(format!("user{}@example.com", i)),
            ]
        })
        .collect();
    let mut grid = GridState::new(GridInit {
        table_name: "users".to_string(),
        columns,
        fk_cols: vec![false; 4],
        enumerated_values: vec![Vec::new(); 4],
        rows,
        width_sample_rows: vec![Vec::new(); 4],
        total_rows: 50,
        area_width: 80,
    });
    grid.window.rowids = (1..=50).map(Some).collect();
    grid
}

fn show_cell(v: &SqlValue) -> String {
    match v {
        SqlValue::Integer(n) => n.to_string(),
        SqlValue::Text(t) => t.clone(),
        _ => String::new(),
    }
}

#[test]
fn stale_window_response_is_ignored() {
    let mut grid = users_table_grid();
    let current_request = 2;
    let original: Vec<String> = grid.window.rows[0].iter().map(show_cell).collect();

    let applied = grid.apply_window_ready(
        1,
        current_request,
        "users",
        0,
        vec![vec![SqlValue::Text("stale".to_string())]],
        vec![Some(99)],
        1,
    );

    assert!(!applied);
    let now: Vec<String> = grid.window.rows[0].iter().map(show_cell).collect();
    assert_eq!(now, original);
}

#[test]
fn window_completion_keeps_a_queued_fetch_while_rows_are_still_missing() {
    let mut grid = users_table_grid();
    grid.window.fetch_in_flight = true;
    grid.focused_row = 40;
    grid.needs_fetch = true;

    let applied = grid.apply_window_ready(
        0,
        0,
        "users",
        0,
        (0..20).map(|index| vec![SqlValue::Integer(index)]).collect(),
        (1..=20).map(Some).collect(),
        100,
    );

    assert!(applied);
    assert!(grid.needs_fetch);
    assert!(!grid.window.fetch_in_flight);

    grid.needs_fetch = false;
    grid.window.fetch_in_flight = true;
    assert!(grid.apply_window_ready(0, 0, "users", 0, vec![vec![SqlValue::Integer(0)]; 100], vec![Some(1); 100], 100));
    assert!(!grid.needs_fetch);
}

#[test]
fn window_for_another_table_is_ignored_and_short_tables_pull_focus_back() {
    let mut grid = users_table_grid();
    grid.focused_row = 30;
    assert!(!grid.apply_window_ready(0, 0, "orders", 0, vec![], vec![], 0));
    assert_eq!(grid.focused_row, 30);
    assert!(grid.apply_window_ready(0, 0, "users", 0, vec![vec![SqlValue::Integer(1)]; 5], vec![Some(1); 5], 5));
    assert_eq!(grid.focused_row, 4);
    assert_eq!(grid.window.total_rows, 5);
    assert_eq!(grid.window.rows.len(), 5);
}

#[test]
fn stale_alphabet_navigation_is_ignored() {
    let mut grid = users_table_grid();
    let navigation_request = 2;

    assert!(!grid.jump_to_sorted_offset(1, navigation_request, "users", 30));

    assert_eq!(grid.focused_row, 0);
}

#[test]
fn current_alphabet_navigation_focuses_the_answered_row() {
    let mut grid = users_table_grid();
    grid.window.viewport_rows = 10;
    assert!(grid.jump_to_sorted_offset(2, 2, "users", 30));
    assert_eq!(grid.focused_row, 30);
    assert!(!grid.jump_to_sorted_offset(2, 2, "orders", 10));
    assert_eq!(grid.focused_row, 30);
}

#[test]
fn sorting_a_column_cycles_ascending_descending_none() {
    let mut grid = users_table_grid();
    grid.window.viewport_rows = 20;
    grid.focused_col = 1;
    grid.focused_row = 12;
    let fetch = grid.cycle_sort();
    assert_eq!(grid.sort, Some(SortSpec { col_idx: 1, direction: SortDir::Asc }));
    assert_eq!(fetch.sort, Some(("name".to_string(), true)));
    assert_eq!((fetch.offset, fetch.limit), (0, 100));
    assert_eq!(fetch.table, "users");
    assert_eq!(grid.focused_row, 0);
    assert!(grid.window.rows.is_empty());
    assert!(grid.window.fetch_in_flight);
    assert!(!grid.needs_fetch);

    let fetch = grid.cycle_sort();
    assert_eq!(grid.sort, Some(SortSpec { col_idx: 1, direction: SortDir::Desc }));
    assert_eq!(fetch.sort, Some(("name".to_string(), false)));
    let fetch = grid.cycle_sort();
    assert_eq!(grid.sort, None);
    assert_eq!(fetch.sort, None);

    grid.sort = Some(SortSpec { col_idx: 3, direction: SortDir::Desc });
    grid.cycle_sort();
    assert_eq!(grid.sort, Some(SortSpec { col_idx: 1, direction: SortDir::Asc }));

    grid.window.viewport_rows = 80;
    let fetch = grid.cycle_sort();
    assert_eq!(fetch.limit, 130);
}

#[test]
fn confirming_a_filter_restarts_from_the_first_page() {
    let mut grid = users_table_grid();
    grid.window.viewport_rows = 20;
    grid.focused_row = 33;
    grid.viewport_start = 20;
    let fetch = grid.confirm_filter(
        "age".to_string(),
        ColumnFilter {
            rules: vec![FilterRule {
                op: FilterOp::Gt,
                value: FilterValue::Literal(SqlValue::Integer(30)),
                enabled: true,
                label: None,
            }],
        },
    );
    assert_eq!((fetch.offset, fetch.limit), (0, 100));
    assert_eq!(fetch.table, "users");
    assert_eq!(grid.focused_row, 0);
    assert_eq!(grid.viewport_start, 0);
    assert!(grid.window.rows.is_empty());
    assert!(grid.window.fetch_in_flight);
    assert!(grid.filter.column_filter("age").is_some());

    let fetch = grid.clear_filters();
    assert!(grid.filter.columns.is_empty());
    assert_eq!(fetch.offset, 0);
}

#[test]
fn enum_values_in_same_column_get_distinct_colors() {
    let theme = Theme::default();
    let enum_values = vec!["COMPLETED".to_string(), "PENDING".to_string()];

    let completed = palette_entry(&theme, enum_color_index("COMPLETED", &enum_values));
    let pending = palette_entry(&theme, enum_color_index("PENDING", &enum_values));

    assert_eq!((completed.1, pending.1), (0, 0));
    assert_ne!(completed.0, pending.0);
}

#[test]
fn unlisted_values_are_placed_by_their_byte_hash() {
    let listed = vec!["x".to_string()];
    assert_eq!(enum_color_index("x", &listed), 0);
    assert_eq!(enum_color_index("ab", &listed), 97 * 131 + 98);
    assert_eq!(enum_color_index("", &listed), 0);
    let theme = Theme::default();
    let (base, variant) = palette_entry(&theme, 9);
    assert_eq!(base, theme.blue);
    assert_eq!(variant, 1);
}

#[test]
fn type_badges_are_coloured_by_date_then_affinity() {
    let theme = Theme::default();
    assert_eq!(badge_color(&make_col("d", "datetime", false), &theme), theme.pink);
    assert_eq!(badge_color(&make_col("d", "TIMESTAMP", false), &theme), theme.pink);
    assert_eq!(badge_color(&make_col("d", "Date", false), &theme), theme.pink);
    assert_eq!(badge_color(&make_col("n", "INTEGER", false), &theme), theme.yellow);
    assert_eq!(badge_color(&make_col("n", "REAL", false), &theme), theme.blue);
    assert_eq!(badge_color(&make_col("n", "VARCHAR(20)", false), &theme), theme.teal);
    assert_eq!(badge_color(&make_col("n", "BLOB", false), &theme), theme.purple);
    assert_eq!(badge_color(&make_col("n", "DECIMAL", false), &theme), theme.yellow);
}

#[test]
fn row_backgrounds_alternate_and_the_focused_row_is_raised() {
    let theme = Theme::default();
    assert_eq!(row_base_color(&theme, 4, false), theme.bg);
    assert_eq!(row_base_color(&theme, 5, false), theme.bg_soft);
    assert_eq!(row_base_color(&theme, -2, false), theme.bg);
    assert_eq!(row_base_color(&theme, -3, false), theme.bg_soft);
    assert_eq!(row_base_color(&theme, 5, true), theme.bg_raised);
}

#[test]
fn header_texts_show_name_arrow_badge_keys_and_filter_marker() {
    let symbols = Symbols::default_with_nerd_font(false);
    let mut grid = users_table_grid();
    grid.columns[0].is_pk = true;
    grid.fk_cols[0] = true;
    grid.columns[3].col_type = "DATETIME".to_string();
    grid.sort = Some(SortSpec { col_idx: 1, direction: SortDir::Asc });
    grid.filter.set_column_filter(
        "name".to_string(),
        ColumnFilter {
            rules: vec![FilterRule {
                op: FilterOp::Eq,
                value: FilterValue::Literal(SqlValue::Text("x".to_string())),
                enabled: true,
                label: None,
            }],
        },
    );

    let id = header_text(&grid, 0, 20, &symbols);
    assert_eq!(id.name, " id");
    assert_eq!(id.arrow, None);
    assert_eq!(id.meta, format!(" INT {} {}", symbols.pk_icon, symbols.fk_icon));

    let name = header_text(&grid, 1, 12, &symbols);
    assert_eq!(name.name, " name");
    assert_eq!(name.arrow, Some(symbols.sort_asc));
    assert_eq!(name.meta, format!(" TXT {}", symbols.filter_marker));

    let when = header_text(&grid, 3, 20, &symbols);
    assert_eq!(when.meta, " DT");

    let narrow = header_text(&grid, 1, 5, &symbols);
    assert_eq!(narrow.name, " ");
    assert_eq!(narrow.meta, " TXT ");
}

#[test]
fn separators_and_loading_label_use_the_symbols() {
    let s = Symbols::default_with_nerd_font(false);
    assert_eq!(s.padded_separator(), format!("  {}  ", s.separator));
    assert_eq!(s.segment_separator(), format!("  {}  ", s.box_vertical));
    assert_eq!(s.loading_label("rows"), format!(" rows{}", s.ellipsis));
    assert_eq!(s.inline_separator(), format!(" {} ", s.separator));
}

#[test]
fn viewport_is_clamped_into_the_table() {
    let mut grid = users_table_grid();
    grid.window.viewport_rows = 10;
    grid.viewport_start = 45;
    grid.clamp_viewport();
    assert_eq!(grid.viewport_start, 40);
    grid.viewport_start = -3;
    grid.clamp_viewport();
    assert_eq!(grid.viewport_start, 0);
}

#[test]
fn inline_insert_row_is_scrolled_into_view() {
    let mut grid = users_table_grid();
    grid.window.viewport_rows = 10;
    grid.viewport_start = 0;
    grid.ensure_insert_row_visible(25);
    assert_eq!(grid.viewport_start, 16);
    grid.ensure_insert_row_visible(3);
    assert_eq!(grid.viewport_start, 3);
    grid.viewport_start = 10;
    grid.ensure_insert_row_visible(12);
    assert_eq!(grid.viewport_start, 10);
}

#[test]
fn move_down_preserves_existing_selection() {
    let mut grid = users_table_grid();
    grid.row_selection = RowSelection::Rows(vec![1, 3]);
    grid.window.fetch_in_flight = true;

    grid.scroll_down(1);

    assert_eq!(grid.focused_row, 1);
    assert_eq!(grid.row_selection, RowSelection::Rows(vec![1, 3]));
}

#[test]
fn scroll_up_stops_at_first_row_and_keeps_focus_in_view() {
    let mut grid = customers(100, 100);
    grid.window.viewport_rows = 10;
    grid.scroll_down(60);
    assert_eq!(grid.focused_row, 60);
    grid.scroll_up(7);
    assert_eq!(grid.focused_row, 53);
    assert!(grid.viewport_start <= 53 && 53 < grid.viewport_start + 10);
    assert!(grid.viewport_start <= 90);
    grid.scroll_up(500);
    assert_eq!(grid.focused_row, 0);
    assert_eq!(grid.viewport_start, 0);
}
