use sqview::app::{AppMode, ConfirmKind, FocusPane, TableTab, Tabs, UndoFrame, UndoOp};
use sqview::edit_keys::{edit_key_action, EditAction, EditorView, FilterFocus};
use sqview::grid::{GridInit, GridState, RowSelection};
use sqview::keys::{GridCommand, KeyCode, KeyInput, ALT, CONTROL, NONE, SHIFT};
use sqview::session::{
    export_path, App, Effect, FileWatch, ExportFormat, Message, NoticeKind, PaletteCommand, PaletteEffect, Prompt,
};
use sqview::text_edit::{EditOutcome, TextEditState};
use sqview::value::{Column, SqlValue};

fn users_grid() -> GridState {
    let columns: Vec<Column> = ["id", "name"]
        .iter()
        .enumerate()
        .map(|(i, n)| Column {
            cid: i as i64,
            name: n.to_string(),
            col_type: if i == 0 { "INTEGER" } else { "TEXT" }.to_string(),
            not_null: false,
            default_value: None,
            is_pk: i == 0,
            pk_position: if i == 0 { 1 } else { 0 },
            writable: true,
        })
        .collect();
    let rows: Vec<Vec<SqlValue>> =
        (0..50).map(|i| vec![SqlValue::Integer(i), SqlValue::Text(format!("user-{i}"))]).collect();
    let mut g = GridState::new(GridInit {
        table_name: "users".to_string(),
        columns,
        fk_cols: vec![false; 2],
        enumerated_values: vec![Vec::new(); 2],
        rows,
        width_sample_rows: vec![],
        total_rows: 50,
        area_width: 80,
    });
    g.window.rowids = (1..=50).map(Some).collect();
    g
}

fn make_app() -> App {
    App {
        grid: Some(users_grid()),
        tabs: Tabs { open_tabs: vec![TableTab { table_name: "users".to_string() }], active_tab: Some(0) },
        mode: AppMode::Browse,
        focus: FocusPane::Grid,
        sidebar_visible: true,
        readonly: false,
        help: None,
        editor: None,
        pending_confirm: None,
        undo_stack: Vec::new(),
        jump_stack: Vec::new(),
        write_in_flight: false,
        grid_request_serial: 0,
        navigation_request_serial: 0,
        should_quit: false,
        dirty: false,
        watch: FileWatch { check_in_flight: false, change_pending: false, refresh_waiting: false },
    }
}

fn key(code: KeyCode, modifiers: u8) -> KeyInput {
    KeyInput { code, modifiers }
}

fn editing_alice(multiline: bool) -> App {
    let mut app = make_app();
    app.editor = Some(TextEditState::new(
        "users".to_string(),
        1,
        "name".to_string(),
        SqlValue::Text("Alice".to_string()),
        "Alice",
        multiline,
    ));
    app.mode = AppMode::Edit;
    app
}

fn editor_text(app: &App) -> String {
    app.editor.as_ref().expect("editor open").text()
}

fn with_prompt(app: &mut App) {
    app.pending_confirm = Some(Prompt {
        message: "Delete?".to_string(),
        kind: ConfirmKind::DeleteRow { table: "users".to_string(), rowid: 42 },
        timeout_secs: 5,
    });
}

#[test]
fn stale_window_answer_leaves_the_app_unchanged() {
    let mut app = make_app();
    app.grid_request_serial = 2;
    let es = app.update(Message::WindowReady {
        request_id: 1,
        table: "users".to_string(),
        offset: 0,
        rows: vec![vec![SqlValue::Text("stale".to_string())]],
        rowids: vec![Some(99)],
        total_rows: 1,
    });
    assert!(es.is_empty());
    assert!(!app.dirty);
    let g = app.grid.as_ref().expect("grid");
    assert_eq!(g.window.total_rows, 50);
    assert!(matches!(g.window.rows[0][1], SqlValue::Text(ref t) if t == "user-0"));
}

#[test]
fn stale_letter_jump_leaves_the_focus() {
    let mut app = make_app();
    app.navigation_request_serial = 2;
    let es = app.update(Message::JumpToSortedOffset { request_id: 1, table: "users".to_string(), offset: 30 });
    assert!(es.is_empty());
    assert_eq!(app.grid.as_ref().expect("grid").focused_row, 0);
}

#[test]
fn confirmation_dialog_takes_every_key() {
    let mut app = make_app();
    with_prompt(&mut app);
    let es = app.update(Message::Key(key(KeyCode::Char('n'), NONE)));
    assert!(matches!(es.as_slice(), [Effect::Post(Message::CancelConfirm)]));
    assert!(app.pending_confirm.is_some());
    let es = app.update(Message::Key(key(KeyCode::Char('q'), CONTROL)));
    assert!(es.is_empty());
    assert!(!app.should_quit);
    let es = app.update(Message::Key(key(KeyCode::Char('Y'), SHIFT)));
    assert!(matches!(es.as_slice(), [Effect::Post(Message::ConfirmDelete)]));
    app.update(Message::CancelConfirm);
    assert!(app.pending_confirm.is_none());
}

#[test]
fn confirming_runs_exactly_the_prompted_delete() {
    let mut app = make_app();
    app.grid.as_mut().expect("grid").focused_row = 3;
    let es = app.update(Message::DeleteRow);
    assert!(es.is_empty());
    let prompt = app.pending_confirm.as_ref().expect("prompt");
    assert_eq!(prompt.message, "Delete row #4? [y/n]");
    let es = app.update(Message::ConfirmDelete);
    assert!(matches!(es.as_slice(), [Effect::DeleteRowWithBackup { table, rowid: 4 }] if table == "users"));
    assert!(app.write_in_flight);
    assert!(app.pending_confirm.is_none());
    let es = app.update(Message::ConfirmDelete);
    assert!(matches!(es.as_slice(), [Effect::Notice { kind: NoticeKind::Info, .. }]));
}

#[test]
fn delete_row_confirms_table_clear_for_select_all() {
    let mut app = make_app();
    app.grid.as_mut().expect("grid").row_selection = RowSelection::All;
    let es = app.update(Message::DeleteRow);
    assert!(matches!(es.as_slice(), [Effect::CountTableRows { table }] if table == "users"));
    app.update(Message::TableRowsCounted { table: "users".to_string(), total: 5 });
    let prompt = app.pending_confirm.as_ref().expect("prompt");
    assert!(matches!(&prompt.kind, ConfirmKind::ClearTable { table } if table == "users"));
    assert!(prompt.message.contains("Delete all 5 rows from users?"));
}

#[test]
fn selected_rows_are_resolved_before_their_prompt() {
    let mut app = make_app();
    app.grid.as_mut().expect("grid").row_selection = RowSelection::Rows(vec![1, 3, 5]);
    let es = app.update(Message::DeleteRow);
    assert!(matches!(es.as_slice(), [Effect::ResolveSelectedRows { offsets, .. }] if offsets == &vec![1, 3, 5]));
    app.update(Message::SelectedRowsResolved { table: "users".to_string(), expected: 3, rowids: vec![2, 4, 6] });
    let prompt = app.pending_confirm.as_ref().expect("prompt");
    assert!(matches!(&prompt.kind, ConfirmKind::DeleteSelectedRows { rowids, .. } if rowids == &vec![2, 4, 6]));
    assert_eq!(prompt.message, "Delete 3 selected rows? [y/n]");
    app.pending_confirm = None;
    let es = app.update(Message::SelectedRowsResolved { table: "users".to_string(), expected: 3, rowids: vec![2] });
    assert!(matches!(es.as_slice(), [Effect::Notice { kind: NoticeKind::Error, .. }]));
    assert!(app.pending_confirm.is_none());
}

#[test]
fn read_only_refuses_delete_and_undo() {
    let mut app = make_app();
    app.readonly = true;
    app.undo_stack.push(UndoFrame { op: UndoOp::Delete, table: "users".to_string(), rowid: 1, cols: vec![] });
    let es = app.update(Message::DeleteRow);
    assert!(matches!(es.as_slice(), [Effect::Notice { text, kind: NoticeKind::Error }] if text == "Read-only database"));
    assert!(app.pending_confirm.is_none());
    let es = app.update(Message::UndoAction);
    assert!(matches!(es.as_slice(), [Effect::Notice { text, .. }] if text == "Read-only: cannot undo"));
    assert_eq!(app.undo_stack.len(), 1);
}

#[test]
fn deleted_row_is_recorded_for_undo_and_undone() {
    let mut app = make_app();
    app.write_in_flight = true;
    let es = app.update(Message::RowDeleted { table: "users".to_string(), rowid: 7, cols: vec![] });
    assert!(matches!(es.as_slice(), [Effect::Notice { text, kind: NoticeKind::Success }] if text == "Row deleted"));
    assert!(!app.write_in_flight);
    assert_eq!(app.grid_request_serial, 1);
    assert_eq!(app.grid.as_ref().expect("grid").window.total_rows, 49);
    let es = app.update(Message::UndoAction);
    assert!(matches!(es.as_slice(), [Effect::RunUndo(f)] if f.rowid == 7));
    assert!(app.write_in_flight);
    let es = app.update(Message::UndoFailed {
        frame: UndoFrame { op: UndoOp::Delete, table: "users".to_string(), rowid: 7, cols: vec![] },
        error: "busy".to_string(),
    });
    assert!(matches!(es.as_slice(), [Effect::Notice { text, .. }] if text == "Undo failed: busy"));
    assert_eq!(app.undo_stack.len(), 1);
}

#[test]
fn moving_down_loads_rows_near_the_end() {
    let mut app = make_app();
    app.grid.as_mut().expect("grid").window.viewport_rows = 10;
    let es = app.update(Message::Grid(GridCommand::ScrollDown(30)));
    assert_eq!(app.grid.as_ref().expect("grid").focused_row, 30);
    assert!(matches!(es.as_slice(), [Effect::Fetch { request_id: 0, fetch }] if fetch.offset == 0 && fetch.limit == 100));
    assert!(app.grid.as_ref().expect("grid").window.fetch_in_flight);
    let es = app.update(Message::Grid(GridCommand::OpenPopup));
    assert!(matches!(es.as_slice(), [Effect::Interface(GridCommand::OpenPopup)]));
}

#[test]
fn keys_reach_the_grid_and_help() {
    let mut app = make_app();
    app.update(Message::Key(key(KeyCode::Down, SHIFT)));
    let g = app.grid.as_ref().expect("grid");
    assert_eq!(g.focused_row, 1);
    assert_eq!(g.row_selection, RowSelection::Rows(vec![0]));
    let es = app.update(Message::Key(key(KeyCode::Char('s'), NONE)));
    assert!(matches!(es.as_slice(), [Effect::Post(Message::Grid(GridCommand::CycleSort))]));
    app.update(Message::OpenHelp);
    assert_eq!(app.mode, AppMode::Edit);
    app.help.as_mut().expect("help").max_scroll = 10;
    app.update(Message::Key(key(KeyCode::Down, NONE)));
    assert_eq!(app.help.as_ref().expect("help").scroll, 3);
    let es = app.update(Message::Key(key(KeyCode::Esc, NONE)));
    assert!(matches!(es.as_slice(), [Effect::Post(Message::ClosePopup)]));
    app.update(Message::ClosePopup);
    assert!(app.help.is_none());
    app.update(Message::Key(key(KeyCode::Char('q'), CONTROL)));
    assert!(app.should_quit);
}

#[test]
fn expired_prompt_goes_away_on_tick() {
    let mut app = make_app();
    with_prompt(&mut app);
    app.update(Message::Tick { confirm_elapsed_secs: 4 });
    assert!(app.pending_confirm.is_some());
    app.update(Message::Tick { confirm_elapsed_secs: 5 });
    assert!(app.pending_confirm.is_none());
    assert_eq!(app.grid.as_ref().expect("grid").window.tick_count, 2);
}

#[test]
fn palette_commands() {
    let mut app = make_app();
    let es = app.palette_step(PaletteCommand::ExportCsv, "/home/me", 17);
    assert!(matches!(es.as_slice(), [PaletteEffect::Export { format: ExportFormat::Csv, path, .. }] if path == "/home/me/sqview_users_17.csv"));
    let es = app.palette_step(PaletteCommand::ToggleReadonly, "/h", 0);
    assert!(app.readonly);
    assert!(matches!(es.as_slice(), [PaletteEffect::Notice { text, .. }] if text == "Read-only mode enabled"));
    let es = app.palette_step(PaletteCommand::ClearFilters, "/h", 0);
    assert!(matches!(es.as_slice(), [PaletteEffect::Post(Message::ClearFilters), PaletteEffect::Notice { .. }]));
    app.palette_step(PaletteCommand::ToggleSidebar, "/h", 0);
    assert!(!app.sidebar_visible);
    app.palette_step(PaletteCommand::Quit, "/h", 0);
    assert!(app.should_quit);
    assert_eq!(export_path("/x", "my table/1", 5, ExportFormat::Json), "/x/sqview_my_table_1_5.json");
    assert_eq!(export_path("/x", "a-b_c", 0, ExportFormat::Sql), "/x/sqview_a-b_c_0.sql");
}

#[test]
fn ctrl_enter_in_text_editor_is_noop() {
    let mut app = editing_alice(false);
    let es = app.update(Message::Key(key(KeyCode::Enter, CONTROL)));
    assert!(es.is_empty());
    assert_eq!(editor_text(&app), "Alice");
    let v = EditorView::TextEditor { multiline: false };
    assert_eq!(edit_key_action(v, key(KeyCode::Enter, CONTROL)), EditAction::Nothing);
}

#[test]
fn enter_in_text_editor_sends_commit_edit() {
    let mut app = editing_alice(false);
    let es = app.update(Message::Key(key(KeyCode::Enter, NONE)));
    assert!(matches!(es.as_slice(), [Effect::Post(Message::CommitEdit)]));
}

#[test]
fn alt_enter_in_text_editor_inserts_newline() {
    let mut app = editing_alice(true);
    let es = app.update(Message::Key(key(KeyCode::Enter, ALT)));
    assert!(es.is_empty());
    assert_eq!(editor_text(&app), "Alice\n");
    let v = EditorView::TextEditor { multiline: true };
    assert_eq!(edit_key_action(v, key(KeyCode::Tab, NONE)), EditAction::Indent);
}

#[test]
fn typing_in_the_editor_edits_at_the_cursor() {
    let mut app = editing_alice(false);
    app.update(Message::Key(key(KeyCode::Left, NONE)));
    app.update(Message::Key(key(KeyCode::Char('x'), NONE)));
    assert_eq!(editor_text(&app), "Alicxe");
    app.update(Message::Key(key(KeyCode::Backspace, NONE)));
    assert_eq!(editor_text(&app), "Alice");
    assert_eq!(app.editor.as_ref().expect("editor").cursor, 4);
    app.update(Message::Key(key(KeyCode::Backspace, NONE)));
    assert_eq!(editor_text(&app), "Alie");
    app.update(Message::Key(key(KeyCode::Char('Z'), SHIFT)));
    assert_eq!(editor_text(&app), "AliZe");
    assert_eq!(app.editor.as_ref().expect("editor").cursor, 4);
    let es = app.update(Message::Key(key(KeyCode::Esc, NONE)));
    assert!(matches!(es.as_slice(), [Effect::Post(Message::ClosePopup)]));
    app.update(Message::ClosePopup);
    assert!(app.editor.is_none());
    assert_eq!(app.mode, AppMode::Browse);
}

#[test]
fn committing_an_edit_writes_it_and_keeps_its_undo() {
    let mut app = editing_alice(false);
    app.update(Message::Key(key(KeyCode::Char('!'), SHIFT)));
    let es = app.update(Message::CommitEdit);
    match es.as_slice() {
        [Effect::SubmitEdit { table, col, rowid, text }] => {
            assert_eq!((table.as_str(), col.as_str(), *rowid, text.as_str()), ("users", "name", 1, "Alice!"));
        }
        _ => panic!("expected one SubmitEdit"),
    }
    assert!(app.write_in_flight);
    let es = app.update(Message::CommitEdit);
    assert!(matches!(es.as_slice(), [Effect::Notice { text, kind: NoticeKind::Info }] if text == "A database write is already running"));
    let es = app.update(Message::EditCommitted {
        table: "users".to_string(),
        rowid: 1,
        col: "name".to_string(),
        original: SqlValue::Text("Alice".to_string()),
    });
    assert!(matches!(es.as_slice(), [Effect::Fetch { request_id: 1, .. }, Effect::Notice { text, kind: NoticeKind::Success }] if text == "Cell updated"));
    assert!(!app.write_in_flight);
    assert!(app.editor.is_none());
    let frame = app.undo_stack.last().expect("undo frame");
    assert_eq!(frame.op, UndoOp::Update);
    assert_eq!(frame.rowid, 1);
    assert!(matches!(frame.cols.as_slice(), [(c, SqlValue::Text(v))] if c == "name" && v == "Alice"));
}

#[test]
fn read_only_commit_closes_the_editor_without_writing() {
    let mut app = editing_alice(false);
    app.readonly = true;
    let es = app.update(Message::CommitEdit);
    assert!(matches!(es.as_slice(), [Effect::Notice { text, kind: NoticeKind::Error }] if text == "Read-only database"));
    assert!(app.editor.is_none());
    assert!(!app.write_in_flight);
    let mut app = make_app();
    let es = app.update(Message::CommitEdit);
    assert!(matches!(es.as_slice(), [Effect::Notice { text, .. }] if text == "No value selected to save"));
}

#[test]
fn cursor_moves_between_lines_keeping_its_column() {
    let mut e = TextEditState::new(
        "notes".to_string(),
        3,
        "body".to_string(),
        SqlValue::Null,
        "ab\ncdef\ng",
        true,
    );
    assert_eq!(e.cursor, 9);
    assert_eq!(e.edit_step(key(KeyCode::Up, NONE)), EditOutcome::Redraw);
    assert_eq!(e.cursor, 4);
    e.edit_step(key(KeyCode::Up, NONE));
    assert_eq!(e.cursor, 1);
    e.edit_step(key(KeyCode::Up, NONE));
    assert_eq!(e.cursor, 1);
    e.edit_step(key(KeyCode::Down, NONE));
    assert_eq!(e.cursor, 4);
    e.edit_step(key(KeyCode::Down, NONE));
    assert_eq!(e.cursor, 9);
    e.edit_step(key(KeyCode::PageDown, NONE));
    assert_eq!(e.scroll, 6);
    e.edit_step(key(KeyCode::PageUp, NONE));
    e.edit_step(key(KeyCode::PageUp, NONE));
    assert_eq!(e.scroll, 0);
    e.edit_step(key(KeyCode::Tab, NONE));
    assert_eq!(e.text(), "ab\ncdef\ng  ");
    let mut single = TextEditState::new("t".to_string(), 1, "c".to_string(), SqlValue::Null, "x", false);
    assert_eq!(single.edit_step(key(KeyCode::Up, NONE)), EditOutcome::Ignored);
    assert_eq!(single.edit_step(key(KeyCode::Tab, NONE)), EditOutcome::Ignored);
    assert_eq!(single.text(), "x");
}

#[test]
fn alt_enter_in_insert_row_sends_commit_insert_row() {
    assert_eq!(edit_key_action(EditorView::InsertRow, key(KeyCode::Enter, ALT)), EditAction::CommitInsertRow);
    assert_eq!(edit_key_action(EditorView::InsertRow, key(KeyCode::Enter, NONE)), EditAction::NextField);
}

#[test]
fn popup_keys_follow_each_editor() {
    assert_eq!(edit_key_action(EditorView::ValuePicker, key(KeyCode::Enter, CONTROL)), EditAction::CommitEdit);
    assert_eq!(edit_key_action(EditorView::FkPicker, key(KeyCode::Char('x'), NONE)), EditAction::PushFilterChar('x'));
    assert_eq!(edit_key_action(EditorView::DatePicker { calendar: true }, key(KeyCode::Up, NONE)), EditAction::MoveDay(-7));
    assert_eq!(
        edit_key_action(EditorView::DatetimePicker { calendar: false }, key(KeyCode::Down, NONE)),
        EditAction::AdjustFocused(-1)
    );
    let rules = EditorView::Filter { focus: FilterFocus::RuleList };
    assert_eq!(edit_key_action(rules, key(KeyCode::Char(' '), NONE)), EditAction::ToggleRule);
    assert_eq!(edit_key_action(rules, key(KeyCode::Backspace, NONE)), EditAction::DeleteRule);
    let value = EditorView::Filter { focus: FilterFocus::Value };
    assert_eq!(edit_key_action(value, key(KeyCode::Enter, NONE)), EditAction::AddRule);
    assert_eq!(edit_key_action(value, key(KeyCode::Esc, NONE)), EditAction::FinishPopup);
    assert_eq!(edit_key_action(EditorView::CommandPalette, key(KeyCode::Enter, NONE)), EditAction::RunSelectedCommand);
    assert_eq!(edit_key_action(EditorView::Help, key(KeyCode::PageDown, NONE)), EditAction::Help(KeyCode::PageDown));
    assert_eq!(edit_key_action(EditorView::Find, key(KeyCode::Enter, NONE)), EditAction::CommitFind);
    assert_eq!(edit_key_action(EditorView::Nothing, key(KeyCode::Char('a'), NONE)), EditAction::Browse);
}

#[test]
fn open_direct_edit_opens_text_editor() {
    let mut app = make_app();
    app.grid.as_mut().expect("grid").focused_col = 1;
    let es = app.update(Message::Grid(GridCommand::OpenDirectEdit));
    let cell = match es.into_iter().next() {
        Some(Effect::OpenEditor(cell)) => cell,
        _ => panic!("expected OpenEditor"),
    };
    assert_eq!((cell.table_name.as_str(), cell.rowid, cell.col.name.as_str()), ("users", 1, "name"));
    assert!(matches!(&cell.cell_value, SqlValue::Text(t) if t == "user-0"));
    let editor = TextEditState::new(cell.table_name, cell.rowid, cell.col.name, cell.cell_value, "user-0", false);
    app.update(Message::EditorOpened(editor));
    assert!(app.editor.is_some());
    assert_eq!(app.mode, AppMode::Edit);
}

#[test]
fn direct_edit_is_refused_where_the_cell_cannot_be_written() {
    let mut app = make_app();
    {
        let g = app.grid.as_mut().expect("grid");
        g.focused_col = 1;
        g.window.rowids = Vec::new();
    }
    let es = app.update(Message::Grid(GridCommand::OpenDirectEdit));
    assert!(matches!(es.as_slice(), [Effect::Notice { text, kind: NoticeKind::Error }]
        if text == "Row is not loaded or cannot be edited safely"));
    let mut app = make_app();
    {
        let g = app.grid.as_mut().expect("grid");
        g.focused_col = 1;
        g.columns[1].writable = false;
    }
    let es = app.update(Message::Grid(GridCommand::OpenDirectEdit));
    assert!(matches!(es.as_slice(), [Effect::Notice { text, .. }] if text == "Generated columns are read-only"));
    let mut app = make_app();
    app.readonly = true;
    let es = app.update(Message::Grid(GridCommand::OpenDirectEdit));
    assert!(matches!(es.as_slice(), [Effect::Notice { text, .. }] if text == "Read-only database"));
}

#[test]
fn setting_a_cell_null_writes_null_and_keeps_the_old_value() {
    let mut app = make_app();
    app.grid.as_mut().expect("grid").focused_col = 1;
    let es = app.update(Message::Grid(GridCommand::SetFocusedCellNull));
    assert!(matches!(es.as_slice(),
        [Effect::WriteCell { table, col, rowid: 1, value: SqlValue::Null, original: SqlValue::Text(o) }]
        if table == "users" && col == "name" && o == "user-0"));
    assert!(app.write_in_flight);
    let es = app.update(Message::Grid(GridCommand::SetFocusedCellNull));
    assert!(matches!(es.as_slice(), [Effect::Notice { text, kind: NoticeKind::Info }]
        if text == "A database write is already running"));
    let mut app = make_app();
    {
        let g = app.grid.as_mut().expect("grid");
        g.focused_col = 1;
        g.columns[1].not_null = true;
    }
    let es = app.update(Message::Grid(GridCommand::SetFocusedCellNull));
    assert!(matches!(es.as_slice(), [Effect::Notice { text, .. }] if text == "Column is NOT NULL"));
    let mut app = make_app();
    {
        let g = app.grid.as_mut().expect("grid");
        g.focused_col = 1;
        g.window.rows[0][1] = SqlValue::Null;
    }
    let es = app.update(Message::Grid(GridCommand::SetFocusedCellNull));
    assert!(matches!(es.as_slice(), [Effect::Notice { text, .. }] if text == "Cell is already NULL"));
    assert!(!app.write_in_flight);
}

#[test]
fn ctrl_q_sets_should_quit() {
    let mut app = make_app();
    let es = app.update(Message::Key(key(KeyCode::Char('q'), CONTROL)));
    assert!(es.is_empty());
    assert!(app.should_quit);
}

#[test]
fn ctrl_b_toggles_sidebar() {
    let mut app = make_app();
    assert!(app.sidebar_visible);
    app.update(Message::Key(key(KeyCode::Char('b'), CONTROL)));
    assert!(!app.sidebar_visible);
    app.update(Message::Key(key(KeyCode::Char('b'), CONTROL)));
    assert!(app.sidebar_visible);
}

#[test]
fn shift_arrows_select_rows_through_update() {
    let mut app = make_app();
    let es = app.update(Message::Key(key(KeyCode::Down, SHIFT)));
    assert!(es.is_empty());
    let g = app.grid.as_ref().expect("grid");
    assert_eq!(g.focused_row, 1);
    assert_eq!(g.row_selection, RowSelection::Rows(vec![0]));
    let mut app = make_app();
    app.grid.as_mut().expect("grid").focused_row = 3;
    app.update(Message::Key(key(KeyCode::Up, SHIFT)));
    let g = app.grid.as_ref().expect("grid");
    assert_eq!(g.focused_row, 2);
    assert_eq!(g.row_selection, RowSelection::Rows(vec![3]));
}

#[test]
fn delete_with_a_row_set_resolves_the_positions_first() {
    let mut app = make_app();
    app.grid.as_mut().expect("grid").row_selection = RowSelection::Rows(vec![1, 3, 5]);
    let es = app.update(Message::Grid(GridCommand::DeleteRow));
    assert!(matches!(es.as_slice(), [Effect::ResolveSelectedRows { table, offsets }]
        if table == "users" && offsets == &vec![1i64, 3, 5]));
    assert!(app.pending_confirm.is_none());
    app.update(Message::SelectedRowsResolved { table: "users".to_string(), expected: 3, rowids: vec![2, 4, 6] });
    let prompt = app.pending_confirm.as_ref().expect("prompt");
    assert!(matches!(&prompt.kind, ConfirmKind::DeleteSelectedRows { table, rowids }
        if table == "users" && rowids == &vec![2i64, 4, 6]));
}

#[test]
fn export_failure_does_not_release_the_write_gate() {
    let mut app = make_app();
    app.write_in_flight = true;
    let es = app.update(Message::ExportFailed("disk full".to_string()));
    assert!(app.write_in_flight);
    assert!(matches!(es.as_slice(), [Effect::Notice { text, kind: NoticeKind::Error }] if text == "Export failed: disk full"));
    let es = app.update(Message::ExportDone { path: "/tmp/users.csv".to_string(), count: 12 });
    assert!(matches!(es.as_slice(), [Effect::Notice { text, kind: NoticeKind::Success }]
        if text == "Exported 12 rows to /tmp/users.csv"));
}

#[test]
fn in_flight_window_completion_preserves_a_queued_scroll_fetch() {
    let mut app = make_app();
    {
        let g = app.grid.as_mut().expect("grid");
        g.window.fetch_in_flight = true;
        g.window.total_rows = 100;
        g.focused_row = 40;
        g.needs_fetch = true;
    }
    app.update(Message::WindowReady {
        request_id: 0,
        table: "users".to_string(),
        offset: 0,
        rows: (0..20).map(|i| vec![SqlValue::Integer(i), SqlValue::Null]).collect(),
        rowids: (1..=20).map(Some).collect(),
        total_rows: 100,
    });
    let g = app.grid.as_ref().expect("grid");
    assert!(g.needs_fetch);
    assert!(!g.window.fetch_in_flight);
    assert_eq!(g.focused_row, 40);
}

#[test]
fn column_keys_and_sort_act_through_update() {
    let mut app = make_app();
    let es = app.update(Message::Key(key(KeyCode::Right, NONE)));
    assert!(matches!(es.as_slice(), [Effect::Post(Message::Grid(GridCommand::MoveRight))]));
    app.update(Message::Grid(GridCommand::MoveRight));
    assert_eq!(app.grid.as_ref().expect("grid").focused_col, 1);
    app.update(Message::Grid(GridCommand::MoveRight));
    assert_eq!(app.grid.as_ref().expect("grid").focused_col, 1);
    let es = app.update(Message::Grid(GridCommand::CycleSort));
    assert!(matches!(es.as_slice(), [Effect::Fetch { request_id: 0, fetch }] if fetch.offset == 0));
    let g = app.grid.as_ref().expect("grid");
    assert!(g.sort.is_some());
    assert!(g.window.fetch_in_flight);
    assert_eq!(app.navigation_request_serial, 1);
}

#[test]
fn file_changed_during_edit_mode_sets_pending_flag_not_needs_fetch() {
    let mut app = make_app();
    app.mode = AppMode::Edit;
    let es = app.update(Message::FileChanged);
    assert!(matches!(es.as_slice(), [Effect::ProbeSchema]));
    assert!(app.watch.refresh_waiting);
    assert!(app.watch.check_in_flight);
    assert!(!app.grid.as_ref().expect("grid").needs_fetch);
}

#[test]
fn file_changed_after_own_write_still_refreshes() {
    let mut app = make_app();
    app.update(Message::FileChanged);
    assert!(app.watch.check_in_flight);
    let g = app.grid.as_ref().expect("grid");
    assert!(g.needs_fetch);
    assert!(!g.window.fetch_in_flight);
    assert_eq!(app.grid_request_serial, 1);
    app.update(Message::FileChanged);
    assert!(app.watch.change_pending);
    let es = app.update(Message::ExternalCheckDone { schema_changed: false });
    assert!(matches!(es.as_slice(), [Effect::Post(Message::FileChanged)]));
    assert!(!app.watch.check_in_flight);
    assert!(!app.watch.change_pending);
}

#[test]
fn close_popup_clears_pending_refresh_and_triggers_fetch() {
    let mut app = make_app();
    app.mode = AppMode::Edit;
    app.watch.refresh_waiting = true;
    app.update(Message::OpenHelp);
    let es = app.update(Message::ClosePopup);
    assert!(!app.watch.refresh_waiting);
    assert_eq!(app.mode, AppMode::Browse);
    assert!(app.help.is_none());
    assert!(matches!(es.as_slice(), [Effect::RefreshGridSchema { table }] if table == "users"));
}

#[test]
fn schema_change_is_told_and_refreshes_the_grid() {
    let mut app = make_app();
    app.watch.check_in_flight = true;
    let es = app.update(Message::ExternalCheckDone { schema_changed: true });
    assert!(matches!(es.as_slice(),
        [Effect::Notice { text, kind: NoticeKind::Info }, Effect::RefreshGridSchema { table }]
        if text == "Schema changed" && table == "users"));
    let es = app.update(Message::SchemaLoadFailed { external: true, error: "locked".to_string() });
    assert!(matches!(es.as_slice(), [Effect::Notice { text, kind: NoticeKind::Error }] if text == "Schema reload failed: locked"));
}
