//! The interface as a state machine: a message comes in, the state moves,
//! and the effects to perform (loading rows, writing, notices, messages to
//! post back) come out. Whoever runs the loop performs the effects and
//! feeds their results back as messages.

use vstd::prelude::*;
use crate::app::{
    cell_refusal_text, clear_table_prompt, delete_row_prompt, delete_selected_prompt, delete_target, focused_cell,
    can_set_null, focused_cell_can_be_set_null, focused_cell_spec, focused_value, FocusedCell,
    record_undo, rows_deleted_message, take_undo_frame, undo_pushed, AppMode, ConfirmKind, DeleteTarget,
    FocusPane, HelpState, JumpFrame, Tabs, UndoFrame, UndoOp, UndoRefusal,
};
use crate::value::{affinity, affinity_of, ColAffinity};
use crate::grid::{next_sort, sort_by, sort_view, GridState, RowSelection, SortDir, WindowFetch};
use crate::grid::virtual_scroll::{in_i64, VirtualWindow};
use crate::grid::virtual_scroll::as_i64;
use crate::keys::{
    grid_key, grid_key_action, key_route, route_key, GridCommand, GridKeyAction, GridKeyContext, KeyCode, KeyContext, KeyInput,
    KeyRoute,
};
use crate::text::{nat_decimal, push_decimal, push_str, same_text, string_of};
use crate::value::SqlValue;
use crate::text_edit::{text_step, EditOutcome, TextEditState};

verus! {

/// A confirmation prompt: its text, what it confirms and how long it stays.
pub struct Prompt {
    pub message: String,
    pub kind: ConfirmKind,
    pub timeout_secs: u64,
}

/// How long a confirmation prompt stays, in seconds.
pub const CONFIRM_TIMEOUT_SECS: u64 = 5;

/// The interface's state.
pub struct App {
    pub grid: Option<GridState>,
    pub tabs: Tabs,
    pub mode: AppMode,
    pub focus: FocusPane,
    pub sidebar_visible: bool,
    pub readonly: bool,
    pub help: Option<HelpState>,
    /// The inline editor of a cell, while one is open.
    pub editor: Option<TextEditState>,
    pub pending_confirm: Option<Prompt>,
    pub undo_stack: Vec<UndoFrame>,
    pub jump_stack: Vec<JumpFrame>,
    pub write_in_flight: bool,
    pub grid_request_serial: u64,
    pub navigation_request_serial: u64,
    pub should_quit: bool,
    pub dirty: bool,
    /// What is known of outside changes to the database file.
    pub watch: FileWatch,
}

/// Outside changes to the database file: a schema check under way, a
/// further change seen meanwhile, and a refresh waiting for the popup to
/// close.
#[derive(PartialEq, Eq, Structural, Clone, Copy, Debug)]
pub struct FileWatch {
    pub check_in_flight: bool,
    pub change_pending: bool,
    pub refresh_waiting: bool,
}

/// A message to the interface: a key, a command, or the result of an effect.
pub enum Message {
    Quit,
    Key(KeyInput),
    /// A timer tick; `confirm_elapsed_secs` is how long the pending prompt
    /// has been shown.
    Tick { confirm_elapsed_secs: u64 },
    Grid(GridCommand),
    CloseTab(usize),
    ActivateTab(usize),
    NextTab,
    PrevTab,
    OpenHelp,
    ClosePopup,
    WindowReady { request_id: u64, table: String, offset: i64, rows: Vec<Vec<SqlValue>>, rowids: Vec<Option<i64>>, total_rows: i64 },
    GridReadFailed { request_id: u64, table: String, error: String },
    JumpToSortedOffset { request_id: u64, table: String, offset: i64 },
    ClearFilters,
    DeleteRow,
    /// The rowids found at the selected positions of `table`.
    SelectedRowsResolved { table: String, expected: usize, rowids: Vec<i64> },
    /// The row count of `table`, for clearing it.
    TableRowsCounted { table: String, total: i64 },
    ConfirmDelete,
    CancelConfirm,
    RowDeleted { table: String, rowid: i64, cols: Vec<(String, SqlValue)> },
    RowsDeleted { table: String, count: usize },
    RowInserted { table: String, rowid: i64 },
    UndoAction,
    UndoCompleted { table: String, message: String },
    UndoFailed { frame: UndoFrame, error: String },
    /// An editor was opened on a cell.
    EditorOpened(TextEditState),
    /// The open editor's value is to be written.
    CommitEdit,
    /// A cell was written; `original` is what it held.
    EditCommitted { table: String, rowid: i64, col: String, original: SqlValue },
    EditFailed(String),
    /// An export wrote `count` rows to `path`.
    ExportDone { path: String, count: u64 },
    /// An export failed.
    ExportFailed(String),
    /// The database file changed on disk.
    FileChanged,
    /// The schema check after a file change finished; whether the schema
    /// differs from the one loaded.
    ExternalCheckDone { schema_changed: bool },
    /// Loading the schema failed; `external` when it was a file-change check.
    SchemaLoadFailed { external: bool, error: String },
}

/// How a notice reads.
#[derive(PartialEq, Eq, Structural, Clone, Copy, Debug)]
pub enum NoticeKind {
    Info,
    Success,
    Error,
}

/// Work for whoever runs the loop.
pub enum Effect {
    /// Post this message back.
    Post(Message),
    /// Load a page of rows; answer with `WindowReady` carrying `request_id`.
    Fetch { request_id: u64, fetch: WindowFetch },
    /// Show a notice.
    Notice { text: String, kind: NoticeKind },
    /// Look up the rowids at the selected positions (in the grid's order and
    /// filter); answer with `SelectedRowsResolved`.
    ResolveSelectedRows { table: String, offsets: Vec<i64> },
    /// Count the rows of `table`; answer with `TableRowsCounted`.
    CountTableRows { table: String },
    /// Delete one row, keeping its values; answer with `RowDeleted`.
    DeleteRowWithBackup { table: String, rowid: i64 },
    /// Delete rows by rowid; answer with `RowsDeleted`.
    DeleteRows { table: String, rowids: Vec<i64> },
    /// Delete every row; answer with `RowsDeleted`.
    ClearTable { table: String },
    /// Revert one write; answer with `UndoCompleted` or `UndoFailed`.
    RunUndo(UndoFrame),
    /// Count the rows before the first starting with `letter`; answer with
    /// `JumpToSortedOffset` carrying `request_id`.
    CountRowsBeforeLetter { request_id: u64, table: String, column: String, ascending: bool, letter: char },
    /// A grid command the interface carries out itself (popups, clipboard,
    /// foreign-key jumps, inserts).
    Interface(GridCommand),
    /// A key for the sidebar.
    SidebarKey(KeyInput),
    OpenCommandPalette,
    OpenFind,
    /// Read `text` as a value of column `col` and write it to row `rowid`
    /// of `table`; answer with `EditCommitted`, or `EditFailed` when the
    /// text is no valid value or the write fails.
    SubmitEdit { table: String, col: String, rowid: i64, text: String },
    /// Write `value` into column `col` of row `rowid` of `table`; answer
    /// with `EditCommitted` carrying `original`, or `EditFailed`.
    WriteCell { table: String, col: String, rowid: i64, value: SqlValue, original: SqlValue },
    /// Open the editor that suits this cell (text, value list, date or
    /// foreign-key picker); answer with `EditorOpened` for the text editor.
    OpenEditor(FocusedCell),
    /// Load the schema again to compare it with the one loaded; answer with
    /// `ExternalCheckDone` or `SchemaLoadFailed { external: true, .. }`.
    ProbeSchema,
    /// Rebuild the grid of `table` from the loaded schema (columns, and the
    /// sort and filters on columns that remain) and load its first page.
    RefreshGridSchema { table: String },
    /// Open `table` in the grid; its load answers to `request_id`.
    OpenTable { request_id: u64, table: String },
}

/// Keys reaching the grid do not overflow it.
pub open spec fn key_grid_safe(g: GridState) -> bool {
    &&& (g.window.total_rows > 0 ==> g.scroll_down_safe(1) && g.move_safe(as_i64(g.row_after_up(1))))
    &&& g.window.offset_safe(as_i64(g.focused_row) as i64)
}

/// A state and its grid's selection are sound: tabs valid, filters and
/// selection well formed, the undo stack within its limit.
pub open spec fn app_wf(a: App) -> bool {
    &&& a.tabs.wf()
    &&& (a.grid matches Some(g) ==> g.filter.wf() && g.selection_ok())
    &&& (a.editor matches Some(e) ==> e.wf())
}

/// `b` is `a` with only `dirty` set.
pub open spec fn only_dirty(a: App, b: App) -> bool {
    b == (App { dirty: true, ..a })
}

/// Setting the focused cell to NULL: refused when read-only, for a
/// generated column, a row without a loaded rowid, a NOT NULL column or a
/// cell already NULL, and while another write runs; otherwise the write
/// starts.
pub open spec fn set_null_step(a: App, b: App, es: Seq<Effect>) -> bool {
    if a.readonly {
        b == a && is_notice(es, "Read-only database"@, NoticeKind::Error)
    } else {
        match a.grid {
            None => only_dirty(a, b) && es.len() == 0,
            Some(g) => match focused_cell_spec(g) {
                None => only_dirty(a, b) && es.len() == 0,
                Some(Err(e)) => only_dirty(a, b) && is_notice(es, cell_refusal_text(e), NoticeKind::Error),
                Some(Ok(id)) => {
                    let col = g.columns@[g.focused_col as int];
                    if col.not_null {
                        only_dirty(a, b) && is_notice(es, "Column is NOT NULL"@, NoticeKind::Error)
                    } else if focused_value(g) is Null {
                        only_dirty(a, b) && is_notice(es, "Cell is already NULL"@, NoticeKind::Error)
                    } else if a.write_in_flight {
                        only_dirty(a, b) && is_notice(es, "A database write is already running"@, NoticeKind::Info)
                    } else {
                        &&& b == (App { write_in_flight: true, dirty: true, ..a })
                        &&& es.len() == 1
                        &&& es[0] matches Effect::WriteCell { table, col: name, rowid, value, original } && table@
                            == g.table_name@ && name@ == col.name@ && rowid == id && value is Null && original@
                            == focused_value(g)@
                    }
                },
            },
        }
    }
}

/// Opening the direct editor on the focused cell: refused when read-only,
/// for a generated column or a row without a loaded rowid; otherwise the
/// cell is handed out to open its editor.
pub open spec fn direct_edit_step(a: App, b: App, es: Seq<Effect>) -> bool {
    if a.readonly {
        b == a && is_notice(es, "Read-only database"@, NoticeKind::Error)
    } else {
        match a.grid {
            None => only_dirty(a, b) && es.len() == 0,
            Some(g) => match focused_cell_spec(g) {
                None => only_dirty(a, b) && es.len() == 0,
                Some(Err(e)) => only_dirty(a, b) && is_notice(es, cell_refusal_text(e), NoticeKind::Error),
                Some(Ok(id)) => {
                    &&& only_dirty(a, b)
                    &&& es.len() == 1
                    &&& es[0] matches Effect::OpenEditor(cell) && cell.rowid == id && cell.table_name@
                        == g.table_name@ && cell.col == g.columns@[g.focused_col as int] && cell.cell_value@
                        == focused_value(g)@
                },
            },
        }
    }
}

/// A key for the open editor (no prompt, no help, the key routed to the
/// popup) acts on it as `text_step` says and posts a commit or a close when
/// it asks for one; with no editor open either, the mode returns to
/// browsing.
pub open spec fn editor_keyed(a: App, k: KeyInput, b: App, es: Seq<Effect>) -> bool {
    (a.pending_confirm is None && a.help is None && key_route(k, key_context(a)) == KeyRoute::EditKey) ==> match a.editor {
        Some(e) => b.editor matches Some(f) && {
            let t = text_step(e.current@, e.cursor as int, e.scroll as int, e.multiline, k);
            &&& f.current@ == t.0
            &&& f.cursor == t.1
            &&& f.scroll == t.2
            &&& f.multiline == e.multiline
            &&& f.same_cell(e)
            &&& match t.3 {
                EditOutcome::Commit => es.len() == 1 && es[0] is Post && es[0]->Post_0 is CommitEdit,
                EditOutcome::Close => es.len() == 1 && es[0] is Post && es[0]->Post_0 is ClosePopup,
                _ => es.len() == 0,
            }
        },
        None => b.mode == AppMode::Browse && es.len() == 0,
    }
}

/// The active tab's table, if a tab is active.
pub open spec fn active_table(a: App) -> Option<String> {
    match a.tabs.active_tab {
        Some(i) => if i < a.tabs.open_tabs@.len() { Some(a.tabs.open_tabs@[i as int].table_name) } else { None },
        None => None,
    }
}

/// The viewport's start clamped into `0 ..= max(total - vp, 0)`.
pub open spec fn clamp_start(g: GridState) -> int {
    let total = g.window.total_rows as int;
    let vp = as_i64(g.vp());
    let max_start = if total - vp > 0 { total - vp } else { 0 };
    let vs = if g.viewport_start > max_start { max_start } else { g.viewport_start as int };
    if vs < 0 { 0 } else { vs }
}

/// `g` with its viewport's start clamped.
pub open spec fn clamped_grid(g: GridState) -> GridState {
    GridState { viewport_start: clamp_start(g) as i64, ..g }
}

/// Clamping the viewport does not overflow.
pub open spec fn clamp_safe(s: Option<GridState>) -> bool {
    s matches Some(g) ==> in_i64(g.window.total_rows - as_i64(g.vp()))
}

/// Opening table `t` in the grid: both request counters move on and the
/// table's load is asked for.
pub open spec fn table_view_of(a: App, t: String) -> (App, Seq<Effect>) {
    let serial = vstd::wrapping::u64_specs::wrapping_add(a.grid_request_serial, 1);
    (
        App {
            navigation_request_serial: vstd::wrapping::u64_specs::wrapping_add(a.navigation_request_serial, 1),
            grid_request_serial: serial,
            grid: None,
            ..a
        },
        seq![Effect::OpenTable { request_id: serial, table: t }],
    )
}

/// Refreshing the grid after the schema changed: the grid is rebuilt from
/// the schema; with no grid, the active tab's table is opened.
pub open spec fn refresh_of(a: App) -> (App, Seq<Effect>) {
    let a1 = App {
        navigation_request_serial: vstd::wrapping::u64_specs::wrapping_add(a.navigation_request_serial, 1),
        ..a
    };
    match a.grid {
        Some(g) => (a1, seq![Effect::RefreshGridSchema { table: g.table_name }]),
        None => match active_table(a) {
            Some(t) => table_view_of(a1, t),
            None => (a1, Seq::empty()),
        },
    }
}

/// Closing the popup: back to browsing with the viewport clamped, and the
/// refresh that waited for it done now.
pub open spec fn finish_of(a: App) -> (App, Seq<Effect>) {
    let a1 = App {
        help: None,
        editor: None,
        mode: AppMode::Browse,
        grid: match a.grid {
            Some(g) => Some(clamped_grid(g)),
            None => None,
        },
        ..a
    };
    if a.watch.refresh_waiting {
        refresh_of(App { watch: FileWatch { refresh_waiting: false, ..a.watch }, ..a1 })
    } else {
        (a1, Seq::empty())
    }
}

/// `ClosePopup`: the popup closes as `finish_of` says.
#[verifier::opaque]
pub open spec fn close_popup_step(a: App, b: App, es: Seq<Effect>) -> bool {
    b == (App { dirty: true, ..finish_of(a).0 }) && es == finish_of(a).1
}

/// `FileChanged`: while a check runs the change is only noted; otherwise a
/// schema check starts and the rows are reloaded, or, while a popup is
/// open, the reload waits for it to close.
#[verifier::opaque]
pub open spec fn file_changed_step(a: App, b: App, es: Seq<Effect>) -> bool {
    if a.watch.check_in_flight {
        b == (App { watch: FileWatch { change_pending: true, ..a.watch }, ..a }) && es.len() == 0
    } else {
        let a1 = App { watch: FileWatch { check_in_flight: true, ..a.watch }, dirty: true, ..a };
        &&& es.len() >= 1
        &&& es[0] == Effect::ProbeSchema
        &&& if a.mode == AppMode::Edit {
            b == (App { watch: FileWatch { refresh_waiting: true, ..a1.watch }, ..a1 }) && es.len() == 1
        } else {
            match a.grid {
                Some(g) => es.len() == 1 && b == (App {
                    grid: Some(GridState { window: VirtualWindow { fetch_in_flight: false, ..g.window }, needs_fetch: true, ..g }),
                    grid_request_serial: vstd::wrapping::u64_specs::wrapping_add(a.grid_request_serial, 1),
                    ..a1
                }),
                None => match active_table(a) {
                    Some(t) => (b, es.drop_first()) == table_view_of(a1, t),
                    None => b == a1 && es.len() == 1,
                },
            }
        }
    }
}

/// The end of a schema check, before its notice: the check is over, a
/// changed schema refreshes the grid (or waits for the popup), and a change
/// seen meanwhile is posted again.
pub open spec fn check_done_of(a: App, schema_changed: bool) -> (App, Seq<Effect>) {
    let a1 = App { watch: FileWatch { check_in_flight: false, ..a.watch }, ..a };
    let r1 = if schema_changed {
        if a.mode == AppMode::Edit {
            (App { watch: FileWatch { refresh_waiting: true, ..a1.watch }, ..a1 }, Seq::<Effect>::empty())
        } else {
            refresh_of(a1)
        }
    } else {
        (a1, Seq::<Effect>::empty())
    };
    if a.watch.change_pending {
        (App { watch: FileWatch { change_pending: false, ..r1.0.watch }, ..r1.0 }, r1.1.push(Effect::Post(Message::FileChanged)))
    } else {
        r1
    }
}

/// `ExternalCheckDone`: a changed schema is told and refreshes the grid
/// (after the popup, if one is open); a change seen meanwhile starts the
/// next check (see `check_done_of`).
#[verifier::opaque]
pub open spec fn external_check_step(a: App, schema_changed: bool, b: App, es: Seq<Effect>) -> bool {
    let r2 = check_done_of(a, schema_changed);
    &&& b == (App { dirty: true, ..r2.0 })
    &&& if schema_changed {
        es.len() == r2.1.len() + 1 && is_notice(seq![es[0]], "Schema changed"@, NoticeKind::Info) && es.drop_first() == r2.1
    } else {
        es == r2.1
    }
}

/// `SchemaLoadFailed`: the failure is told; a failed file-change check ends,
/// and a change seen meanwhile starts the next one.
#[verifier::opaque]
pub open spec fn schema_failed_step(a: App, external: bool, error: String, b: App, es: Seq<Effect>) -> bool {
    let r = if external {
        let a1 = App { watch: FileWatch { check_in_flight: false, ..a.watch }, ..a };
        if a.watch.change_pending {
            (App { watch: FileWatch { change_pending: false, ..a1.watch }, ..a1 }, seq![Effect::Post(Message::FileChanged)])
        } else {
            (a1, Seq::<Effect>::empty())
        }
    } else {
        (a, Seq::<Effect>::empty())
    };
    &&& b == (App { dirty: true, ..r.0 })
    &&& es.len() == r.1.len() + 1
    &&& es.drop_last() == r.1
    &&& is_notice(seq![es.last()], "Schema reload failed: "@ + error@, NoticeKind::Error)
}

/// `es` starts no write and `b` keeps the prompt of `a`.
pub open spec fn quiet(a: App, b: App, es: Seq<Effect>) -> bool {
    &&& forall|i: int| 0 <= i < es.len() ==> !is_write(#[trigger] es[i]) && !(es[i] is DeleteRowWithBackup)
        && !(es[i] is DeleteRows) && !(es[i] is ClearTable)
    &&& b.pending_confirm == a.pending_confirm
}

/// `es` is exactly one message `m` posted back.
pub open spec fn posts(es: Seq<Effect>, m: Message) -> bool {
    es.len() == 1 && es[0] == Effect::Post(m)
}

/// `es` is exactly the effect `e`.
pub open spec fn only_effect(es: Seq<Effect>, e: Effect) -> bool {
    es.len() == 1 && es[0] == e
}

/// What the grid keys see of grid `g` in state `a`.
pub open spec fn grid_key_ctx(a: App, g: GridState) -> GridKeyContext {
    GridKeyContext {
        viewport_rows: g.window.viewport_rows,
        focused_is_fk: g.focused_col < g.fk_cols@.len() && g.fk_cols@[g.focused_col as int],
        can_set_null: can_set_null(a.readonly, Some(g)),
        jump_stack_nonempty: a.jump_stack@.len() > 0,
        text_sort: match g.sort {
            Some(s) => s.col_idx < g.columns@.len() && affinity_of(g.columns@[s.col_idx as int].col_type@)
                == ColAffinity::Text,
            None => false,
        },
    }
}

/// `h` is `g` with the focus moved to row `f` (viewport and page-load flag
/// following it) and row `g.focused_row` added to the selection.
pub open spec fn extended_to(g: GridState, h: GridState, f: usize) -> bool {
    if g.window.total_rows <= 0 {
        h == g
    } else {
        &&& h.focused_row == f
        &&& h.viewport_start == g.viewport_for(as_i64(f))
        &&& h.needs_fetch == g.fetch_flag_for(as_i64(f))
        &&& g.selection_with(h.row_selection, g.focused_row)
        &&& h.same_content(g)
        &&& h.focused_col == g.focused_col
        &&& h.h_scroll == g.h_scroll
    }
}

/// A key reaching grid `g` (now `h`) in state `a`: the selection keys act on
/// the grid as its own methods do; any other key's command is posted back.
pub open spec fn grid_keyed(a: App, g: GridState, k: KeyInput, h: GridState, es: Seq<Effect>) -> bool {
    match grid_key(k, grid_key_ctx(a, g)) {
        GridKeyAction::SelectAll => es.len() == 0 && h == (GridState {
            row_selection: if g.window.total_rows > 0 { RowSelection::All } else { RowSelection::Empty },
            ..g
        }),
        GridKeyAction::ExtendSelectionDown => es.len() == 0 && extended_to(g, h, g.row_after_down(1)),
        GridKeyAction::ExtendSelectionUp => es.len() == 0 && extended_to(g, h, g.row_after_up(1)),
        GridKeyAction::ClearSelection => es.len() == 0 && h == (GridState { row_selection: RowSelection::Empty, ..g }),
        GridKeyAction::Send(c) => h == g && posts(es, Message::Grid(c)),
        GridKeyAction::Nothing => h == g && es.len() == 0,
    }
}

/// What key `k` does to state `a` (before `dirty` is set): under a pending
/// prompt only the prompt's keys count and nothing changes; otherwise each
/// route of `key_route` has its effect.
pub open spec fn key_step(a: App, k: KeyInput, b: App, es: Seq<Effect>) -> bool {
    if a.pending_confirm is Some {
        &&& b == a
        &&& match confirm_key_message(k) {
            Some(true) => posts(es, Message::ConfirmDelete),
            Some(false) => posts(es, Message::CancelConfirm),
            None => es.len() == 0,
        }
    } else {
        match key_route(k, key_context(a)) {
            KeyRoute::ConfirmDelete => b == a && posts(es, Message::ConfirmDelete),
            KeyRoute::CancelConfirm => b == a && posts(es, Message::CancelConfirm),
            KeyRoute::Ignore => b == a && es.len() == 0,
            KeyRoute::OpenHelp => b == a && posts(es, Message::OpenHelp),
            KeyRoute::ClosePopup => b == a && posts(es, Message::ClosePopup),
            KeyRoute::EditKey => match a.help {
                Some(h) => {
                    &&& b == (App { help: b.help, ..a })
                    &&& b.help matches Some(h2) && h2.scroll == h.scroll_after(k.code) && h2.max_scroll == h.max_scroll
                    &&& if k.code == KeyCode::Esc { posts(es, Message::ClosePopup) } else { es.len() == 0 }
                },
                None => match a.editor {
                    Some(_) => b == (App { editor: b.editor, ..a }) && editor_keyed(a, k, b, es),
                    None => b == (App { mode: AppMode::Browse, ..a }) && es.len() == 0,
                },
            },
            KeyRoute::OpenCommandPalette => b == a && only_effect(es, Effect::OpenCommandPalette),
            KeyRoute::OpenFind => b == a && only_effect(es, Effect::OpenFind),
            KeyRoute::Quit => b == (App { should_quit: true, ..a }) && es.len() == 0,
            KeyRoute::CloseTab(i) => b == a && posts(es, Message::CloseTab(i)),
            KeyRoute::Undo => b == a && posts(es, Message::UndoAction),
            KeyRoute::ToggleSidebar => b == (App { sidebar_visible: !a.sidebar_visible, ..a }) && es.len() == 0,
            KeyRoute::ActivateTab(i) => b == a && posts(es, Message::ActivateTab(i)),
            KeyRoute::SetFocus(p) => b == (App { focus: p, ..a }) && es.len() == 0,
            KeyRoute::SidebarKey => b == a && only_effect(es, Effect::SidebarKey(k)),
            KeyRoute::GridKey => match a.grid {
                Some(g) => b == (App { grid: b.grid, ..a }) && (b.grid matches Some(h) && grid_keyed(a, g, k, h, es)),
                None => b == a && es.len() == 0,
            },
        }
    }
}

/// A key reaches the grid: no prompt is pending and it is routed there.
pub open spec fn reaches_grid(a: App, k: KeyInput) -> bool {
    a.pending_confirm is None && key_route(k, key_context(a)) == KeyRoute::GridKey
}

/// Deleting what the grid targets: refused when read-only; the focused row
/// gets its prompt at once; selected rows are first resolved to rowids, and
/// all rows are first counted.
pub open spec fn delete_step(a: App, b: App, es: Seq<Effect>) -> bool {
    if a.readonly {
        b == a && is_notice(es, "Read-only database"@, NoticeKind::Error)
    } else {
        &&& b == (App { pending_confirm: b.pending_confirm, dirty: true, ..a })
        &&& match a.grid {
            None => b.pending_confirm == a.pending_confirm && es.len() == 0,
            Some(g) => match g.row_selection {
                RowSelection::All => es.len() == 1 && (es[0] matches Effect::CountTableRows { table }
                    && table@ == g.table_name@) && b.pending_confirm == a.pending_confirm,
                RowSelection::Rows(v) => if v@.len() > 0 {
                    es.len() == 1 && (es[0] matches Effect::ResolveSelectedRows { table, offsets } && table@
                        == g.table_name@ && offsets@ == crate::app::row_offsets_of(v@))
                        && b.pending_confirm == a.pending_confirm
                } else {
                    es.len() == 0 && b.pending_confirm == a.pending_confirm
                },
                RowSelection::Empty => match g.window.rowid_at(g.focused_row as i64) {
                    Some(id) => es.len() == 0 && (b.pending_confirm matches Some(p) && p.message@
                        == crate::app::delete_row_prompt_text((g.focused_row + 1) as nat) && (p.kind matches ConfirmKind::DeleteRow {
                        table,
                        rowid,
                    } && table@ == g.table_name@ && rowid == id) && p.timeout_secs == CONFIRM_TIMEOUT_SECS),
                    None => es.len() == 0 && b.pending_confirm == a.pending_confirm,
                },
            },
        }
    }
}

/// `h` is `g` after column motion `c`.
pub open spec fn col_moved(g: GridState, c: GridCommand, h: GridState) -> bool {
    let f = g.focused_col;
    let n = g.columns@.len();
    &&& h.same_content(g)
    &&& h.focused_row == g.focused_row
    &&& h.viewport_start == g.viewport_start
    &&& h.needs_fetch == g.needs_fetch
    &&& h.row_selection == g.row_selection
    &&& match c {
        GridCommand::MoveRight => if f + 1 < n {
            h.focused_col == f + 1 && h.h_scroll == g.h_scroll_for(h.focused_col)
        } else {
            h.focused_col == f && h.h_scroll == g.h_scroll
        },
        GridCommand::MoveLeft => if f > 0 {
            h.focused_col == f - 1 && h.h_scroll == g.h_scroll_for(h.focused_col)
        } else {
            h.focused_col == f && h.h_scroll == g.h_scroll
        },
        GridCommand::MoveColFirst => h.focused_col == 0 && h.h_scroll == 0,
        _ => if n > 0 {
            h.focused_col == n - 1 && h.h_scroll == g.h_scroll_for(h.focused_col)
        } else {
            h.focused_col == f && h.h_scroll == g.h_scroll
        },
    }
}

/// A grid command that the state machine carries out itself when there is
/// no grid to act on (so it does nothing then).
pub open spec fn grid_local(c: GridCommand) -> bool {
    match c {
        GridCommand::ScrollDown(_) | GridCommand::ScrollUp(_) | GridCommand::MoveDown | GridCommand::MoveUp
        | GridCommand::MoveRight | GridCommand::MoveLeft | GridCommand::MoveColFirst | GridCommand::MoveColLast
        | GridCommand::MoveFirstCell | GridCommand::MoveLastCell | GridCommand::CycleSort
        | GridCommand::JumpToLetter(_) => true,
        _ => false,
    }
}

/// What grid command `c` does to state `a`: row motions move the focus and
/// load; column motions move the focused column; sorting cycles and reloads
/// from the top; a letter asks where its rows start; deleting, setting NULL
/// and direct editing follow their own steps; the rest goes to the
/// interface.
pub open spec fn grid_command_step(a: App, c: GridCommand, b: App, es: Seq<Effect>) -> bool {
    match c {
        GridCommand::DeleteRow => delete_step(a, b, es),
        GridCommand::SetFocusedCellNull => set_null_step(a, b, es),
        GridCommand::OpenDirectEdit => direct_edit_step(a, b, es),
        _ => match a.grid {
            None => only_dirty(a, b) && if grid_local(c) { es.len() == 0 } else { only_effect(es, Effect::Interface(c)) },
            Some(g) => match c {
                GridCommand::ScrollDown(_) | GridCommand::MoveDown | GridCommand::ScrollUp(_) | GridCommand::MoveUp
                | GridCommand::MoveFirstCell | GridCommand::MoveLastCell => {
                    &&& b == (App { grid: b.grid, dirty: true, ..a })
                    &&& b.grid matches Some(h) && loads_if_asked(row_moved(g, c), h, es, a.grid_request_serial)
                },
                GridCommand::MoveRight | GridCommand::MoveLeft | GridCommand::MoveColFirst | GridCommand::MoveColLast => {
                    &&& b == (App { grid: b.grid, dirty: true, ..a })
                    &&& es.len() == 0
                    &&& b.grid matches Some(h) && col_moved(g, c, h)
                },
                GridCommand::CycleSort => {
                    &&& b == (App { grid: b.grid, navigation_request_serial: vstd::wrapping::u64_specs::wrapping_add(
                        a.navigation_request_serial,
                        1,
                    ), dirty: true, ..a })
                    &&& b.grid matches Some(h) && {
                        &&& h.restarted_from(GridState { sort: next_sort(g.sort, g.focused_col), needs_fetch: false, ..g })
                        &&& h.filter == g.filter
                        &&& es.len() == 1
                        &&& es[0] matches Effect::Fetch { request_id, fetch } && request_id == a.grid_request_serial
                            && h.first_page(fetch)
                    }
                },
                GridCommand::JumpToLetter(letter) => match g.sort {
                    Some(sp) => if sp.col_idx < g.columns@.len() {
                        let serial = vstd::wrapping::u64_specs::wrapping_add(a.navigation_request_serial, 1);
                        &&& b == (App { navigation_request_serial: serial, dirty: true, ..a })
                        &&& es.len() == 1
                        &&& es[0] matches Effect::CountRowsBeforeLetter { request_id, table, column, ascending, letter: l }
                            && request_id == serial && table@ == g.table_name@ && column@ == g.columns@[sp.col_idx as int].name@
                            && ascending == (sp.direction == SortDir::Asc) && l == letter
                    } else {
                        only_dirty(a, b) && es.len() == 0
                    },
                    None => only_dirty(a, b) && es.len() == 0,
                },
                _ => only_dirty(a, b) && only_effect(es, Effect::Interface(c)),
            },
        },
    }
}

/// Where the key would go.
pub open spec fn key_context(a: App) -> KeyContext {
    KeyContext {
        pending_confirm: a.pending_confirm is Some,
        help_open: a.help is Some,
        mode: a.mode,
        has_grid: a.grid is Some,
        active_tab: a.tabs.active_tab,
        open_tabs: a.tabs.open_tabs@.len() as usize,
        sidebar_visible: a.sidebar_visible,
        focus: a.focus,
    }
}

/// A stale answer: one to a request that is no longer the current one.
pub open spec fn is_stale(a: App, m: Message) -> bool {
    match m {
        Message::WindowReady { request_id, .. } => request_id != a.grid_request_serial,
        Message::GridReadFailed { request_id, .. } => request_id != a.grid_request_serial,
        Message::JumpToSortedOffset { request_id, .. } => request_id != a.navigation_request_serial,
        _ => false,
    }
}

/// The message a key sends under a pending confirmation: `y` confirms,
/// `n` or Esc cancels, anything else nothing.
pub open spec fn confirm_key_message(k: KeyInput) -> Option<bool> {
    match k.code {
        KeyCode::Char(c) => if c == 'y' || c == 'Y' {
            Some(true)
        } else if c == 'n' || c == 'N' {
            Some(false)
        } else {
            None
        },
        KeyCode::Esc => Some(false),
        _ => None,
    }
}

/// The write that a confirmed prompt performs.
pub open spec fn confirmed_write(kind: ConfirmKind, e: Effect) -> bool {
    match kind {
        ConfirmKind::DeleteRow { table, rowid } => e matches Effect::DeleteRowWithBackup { table: t, rowid: r }
            && t@ == table@ && r == rowid,
        ConfirmKind::DeleteSelectedRows { table, rowids } => e matches Effect::DeleteRows { table: t, rowids: rs }
            && t@ == table@ && rs@ == rowids@,
        ConfirmKind::ClearTable { table } => e matches Effect::ClearTable { table: t } && t@ == table@,
    }
}

/// A write effect.
pub open spec fn is_write(e: Effect) -> bool {
    e is DeleteRowWithBackup || e is DeleteRows || e is ClearTable || e is RunUndo || e is SubmitEdit || e is WriteCell
}

/// The page load that `take_window_fetch` starts for grid `g`.
pub open spec fn fetch_for(g: GridState, w: WindowFetch) -> bool {
    let f = as_i64(g.focused_row);
    &&& w.table@ == g.table_name@
    &&& w.columns@ == g.columns@
    &&& sort_view(w.sort) == sort_by(g)
    &&& w.offset == if f - 50 > 0 { f - 50 } else { 0 }
    &&& w.limit == if f + as_i64(g.window.viewport_rows) + 50 - w.offset > 100 {
        f + as_i64(g.window.viewport_rows) + 50 - w.offset
    } else {
        100
    }
}

/// The laws every step keeps:
/// - a stale answer changes nothing and asks for nothing;
/// - under a pending confirmation a key only confirms (`y`), cancels (`n`,
///   Esc) or does nothing, and changes nothing but `dirty`;
/// - cancelling drops the prompt;
/// - nothing is deleted but by confirming a prompt, and confirming performs
///   exactly the prompt's write;
/// - a read-only state starts no write but one it confirms.
pub open spec fn step_laws(a: App, m: Message, b: App, es: Seq<Effect>) -> bool {
    &&& (is_stale(a, m) ==> b == a && es.len() == 0)
    &&& ((a.pending_confirm is Some && m is Key) ==> {
        let k = m->Key_0;
        &&& only_dirty(a, b)
        &&& match confirm_key_message(k) {
            Some(true) => es.len() == 1 && es[0] is Post && es[0]->Post_0 is ConfirmDelete,
            Some(false) => es.len() == 1 && es[0] is Post && es[0]->Post_0 is CancelConfirm,
            None => es.len() == 0,
        }
    })
    &&& (m is CancelConfirm ==> b.pending_confirm is None)
    &&& (forall|i: int| 0 <= i < es.len() && (#[trigger] es[i] is DeleteRowWithBackup || es[i] is DeleteRows
        || es[i] is ClearTable) ==> m is ConfirmDelete && a.pending_confirm is Some && !a.write_in_flight
        && confirmed_write(a.pending_confirm->0.kind, es[i]))
    &&& (m is ConfirmDelete && a.pending_confirm is Some && !a.write_in_flight ==> {
        &&& es.len() == 1
        &&& confirmed_write(a.pending_confirm->0.kind, es[0])
        &&& b.pending_confirm is None
        &&& b.write_in_flight
    })
    &&& (a.readonly && !(m is ConfirmDelete) ==> forall|i: int| 0 <= i < es.len() ==> !is_write(#[trigger] es[i]))
}

/// A notice effect.
fn notice(text: &str, kind: NoticeKind) -> (e: Effect)
    ensures
        e matches Effect::Notice { text: t, kind: k } && t@ == text@ && k == kind,
{
    Effect::Notice { text: string_of(text), kind }
}

/// A one-effect list.
fn one(e: Effect) -> (v: Vec<Effect>)
    ensures
        v@ == seq![e],
{
    let mut v = Vec::new();
    v.push(e);
    v
}

impl App {
    /// Handles a key. Under a pending confirmation only the prompt's keys
    /// count; otherwise the key is routed as `route_key` says.
    #[verifier::rlimit(40)]
    fn on_key(&mut self, k: KeyInput) -> (es: Vec<Effect>)
        requires
            app_wf(*old(self)),
            old(self).grid matches Some(g) ==> (reaches_grid(*old(self), k) ==> key_grid_safe(g)),
        ensures
            app_wf(*final(self)),
            key_step(*old(self), k, *final(self), es@),
            old(self).pending_confirm is Some ==> {
                &&& *final(self) == *old(self)
                &&& match confirm_key_message(k) {
                    Some(true) => es@.len() == 1 && es@[0] is Post && es@[0]->Post_0 is ConfirmDelete,
                    Some(false) => es@.len() == 1 && es@[0] is Post && es@[0]->Post_0 is CancelConfirm,
                    None => es@.len() == 0,
                }
            },
            forall|i: int| 0 <= i < es@.len() ==> !is_write(#[trigger] es@[i]),
            old(self).pending_confirm is None ==> final(self).pending_confirm is None,
            final(self).undo_stack == old(self).undo_stack,
            final(self).write_in_flight == old(self).write_in_flight,
            final(self).readonly == old(self).readonly,
            final(self).grid_request_serial == old(self).grid_request_serial,
            final(self).navigation_request_serial == old(self).navigation_request_serial,
            final(self).dirty == old(self).dirty,
            editor_keyed(*old(self), k, *final(self), es@),
    {
        let ctx = KeyContext {
            pending_confirm: self.pending_confirm.is_some(),
            help_open: self.help.is_some(),
            mode: self.mode,
            has_grid: self.grid.is_some(),
            active_tab: self.tabs.active_tab,
            open_tabs: self.tabs.open_tabs.len(),
            sidebar_visible: self.sidebar_visible,
            focus: self.focus,
        };
        if self.pending_confirm.is_some() {
            return match k.code {
                KeyCode::Char(c) => if c == 'y' || c == 'Y' {
                    one(Effect::Post(Message::ConfirmDelete))
                } else if c == 'n' || c == 'N' {
                    one(Effect::Post(Message::CancelConfirm))
                } else {
                    Vec::new()
                },
                KeyCode::Esc => one(Effect::Post(Message::CancelConfirm)),
                _ => Vec::new(),
            };
        }
        match route_key(k, &ctx) {
            KeyRoute::ConfirmDelete => one(Effect::Post(Message::ConfirmDelete)),
            KeyRoute::CancelConfirm => one(Effect::Post(Message::CancelConfirm)),
            KeyRoute::Ignore => Vec::new(),
            KeyRoute::OpenHelp => one(Effect::Post(Message::OpenHelp)),
            KeyRoute::ClosePopup => one(Effect::Post(Message::ClosePopup)),
            KeyRoute::EditKey => {
                let mut help = None;
                std::mem::swap(&mut help, &mut self.help);
                match help {
                    Some(mut h) => {
                        let close = h.handle_key(k.code);
                        self.help = Some(h);
                        if close {
                            one(Effect::Post(Message::ClosePopup))
                        } else {
                            Vec::new()
                        }
                    },
                    None => {
                        let mut editor = None;
                        std::mem::swap(&mut editor, &mut self.editor);
                        match editor {
                            Some(mut e) => {
                                let outcome = e.edit_step(k);
                                self.editor = Some(e);
                                match outcome {
                                    EditOutcome::Commit => one(Effect::Post(Message::CommitEdit)),
                                    EditOutcome::Close => one(Effect::Post(Message::ClosePopup)),
                                    _ => Vec::new(),
                                }
                            },
                            None => {
                                self.mode = AppMode::Browse;
                                Vec::new()
                            },
                        }
                    },
                }
            },
            KeyRoute::OpenCommandPalette => one(Effect::OpenCommandPalette),
            KeyRoute::OpenFind => one(Effect::OpenFind),
            KeyRoute::Quit => {
                self.should_quit = true;
                Vec::new()
            },
            KeyRoute::CloseTab(i) => one(Effect::Post(Message::CloseTab(i))),
            KeyRoute::Undo => one(Effect::Post(Message::UndoAction)),
            KeyRoute::ToggleSidebar => {
                self.sidebar_visible = !self.sidebar_visible;
                Vec::new()
            },
            KeyRoute::ActivateTab(i) => one(Effect::Post(Message::ActivateTab(i))),
            KeyRoute::SetFocus(p) => {
                self.focus = p;
                Vec::new()
            },
            KeyRoute::SidebarKey => one(Effect::SidebarKey(k)),
            KeyRoute::GridKey => self.on_grid_key(k),
        }
    }

    /// Handles a key for the grid: selection keys act on it directly, the
    /// others become grid commands posted back.
    fn on_grid_key(&mut self, k: KeyInput) -> (es: Vec<Effect>)
        requires
            app_wf(*old(self)),
            old(self).pending_confirm is None,
            old(self).grid matches Some(g) ==> key_grid_safe(g),
        ensures
            app_wf(*final(self)),
            forall|i: int| 0 <= i < es@.len() ==> !is_write(#[trigger] es@[i]),
            *final(self) == (App { grid: final(self).grid, ..*old(self) }),
            match old(self).grid {
                Some(g) => final(self).grid matches Some(h) && grid_keyed(*old(self), g, k, h, es@),
                None => final(self).grid is None && es@.len() == 0,
            },
    {
        let mut grid = None;
        std::mem::swap(&mut grid, &mut self.grid);
        let mut g = match grid {
            Some(g) => g,
            None => {
                return Vec::new();
            },
        };
        let text_sort = match g.sort {
            Some(s) => s.col_idx < g.columns.len() && affinity(g.columns[s.col_idx].col_type.as_str())
                == ColAffinity::Text,
            None => false,
        };
        let ctx = GridKeyContext {
            viewport_rows: g.window.viewport_rows,
            focused_is_fk: g.focused_col < g.fk_cols.len() && g.fk_cols[g.focused_col],
            can_set_null: focused_cell_can_be_set_null(self.readonly, Some(&g)),
            jump_stack_nonempty: self.jump_stack.len() > 0,
            text_sort,
        };
        let es = match grid_key_action(k, &ctx) {
            GridKeyAction::SelectAll => {
                g.select_all_rows();
                Vec::new()
            },
            GridKeyAction::ExtendSelectionDown => {
                g.extend_row_selection_down(1);
                Vec::new()
            },
            GridKeyAction::ExtendSelectionUp => {
                g.extend_row_selection_up(1);
                Vec::new()
            },
            GridKeyAction::ClearSelection => {
                g.clear_row_selection();
                Vec::new()
            },
            GridKeyAction::Send(cmd) => one(Effect::Post(Message::Grid(cmd))),
            GridKeyAction::Nothing => Vec::new(),
        };
        self.grid = Some(g);
        es
    }
}

/// The grid after focusing row `f` from `g` (as the scroll functions do).
pub open spec fn focused_at(g: GridState, f: usize) -> GridState {
    GridState {
        focused_row: f,
        viewport_start: g.viewport_for(as_i64(f)) as i64,
        needs_fetch: g.fetch_flag_for(as_i64(f)),
        ..g
    }
}

/// The row that a row motion focuses, if `c` is one.
pub open spec fn motion_row(g: GridState, c: GridCommand) -> Option<usize> {
    match c {
        GridCommand::ScrollDown(n) => Some(g.row_after_down(n)),
        GridCommand::MoveDown => Some(g.row_after_down(1)),
        GridCommand::ScrollUp(n) => Some(g.row_after_up(n)),
        GridCommand::MoveUp => Some(g.row_after_up(1)),
        GridCommand::MoveFirstCell => Some(g.row_at(0)),
        GridCommand::MoveLastCell => Some(g.end_row()),
        _ => None,
    }
}

/// The grid after a row motion, before any page load starts.
pub open spec fn row_moved(g: GridState, c: GridCommand) -> GridState {
    let f = motion_row(g, c)->0;
    match c {
        GridCommand::MoveFirstCell => focused_at(GridState { focused_col: 0, h_scroll: 0, ..g }, f),
        GridCommand::MoveLastCell => if g.columns@.len() > 0 {
            let last = (g.columns@.len() - 1) as usize;
            focused_at(GridState { focused_col: last, h_scroll: g.h_scroll_for(last), ..g }, f)
        } else {
            focused_at(g, f)
        },
        _ => focused_at(g, f),
    }
}

/// A row motion on `g` does not overflow, and neither does the page load
/// that may follow it.
pub open spec fn motion_safe(g: GridState, c: GridCommand) -> bool {
    let f = motion_row(g, c)->0;
    &&& g.window.total_rows > i64::MIN
    &&& g.move_safe(as_i64(f))
    &&& g.window.fetch_params_safe(as_i64(f) as i64)
    &&& (c is ScrollDown ==> g.scroll_down_safe(c->ScrollDown_0))
    &&& (c is MoveDown ==> g.scroll_down_safe(1))
}

/// `after` and `es` follow from starting a page load in `mid` when one is
/// asked for and none is under way.
pub open spec fn loads_if_asked(mid: GridState, after: GridState, es: Seq<Effect>, serial: u64) -> bool {
    if mid.needs_fetch && !mid.window.fetch_in_flight {
        &&& after == (GridState { window: VirtualWindow { fetch_in_flight: true, ..mid.window }, needs_fetch: false, ..mid })
        &&& es.len() == 1
        &&& es[0] matches Effect::Fetch { request_id, fetch } && request_id == serial && fetch_for(mid, fetch)
    } else {
        after == mid && es.len() == 0
    }
}

/// What a message needs so that nothing overflows.
pub open spec fn message_safe(a: App, m: Message) -> bool {
    match a.grid {
        None => true,
        Some(g) => match m {
            Message::Key(k) => reaches_grid(a, k) ==> key_grid_safe(g),
            Message::Tick { .. } => g.window.fetch_params_safe(as_i64(g.focused_row) as i64),
            Message::Grid(c) => {
                &&& (motion_row(g, c) is Some ==> motion_safe(g, c))
                &&& (c is CycleSort ==> g.window.fetch_params_safe(0))
                &&& ((c is SetFocusedCellNull || c is OpenDirectEdit) ==> g.window.offset_safe(
                    as_i64(g.focused_row) as i64,
                ))
                &&& (c is DeleteRow ==> (g.row_selection is Empty ==> g.focused_row < usize::MAX
                    && g.window.offset_safe(g.focused_row as i64)))
            },
            Message::ClearFilters => g.window.fetch_params_safe(0),
            Message::WindowReady { request_id, table, offset, rows, total_rows, .. } => request_id
                == a.grid_request_serial && table@ == g.table_name@ ==> g.window_ready_safe(
                offset,
                rows@.len(),
                total_rows,
            ),
            Message::JumpToSortedOffset { request_id, table, offset } => request_id == a.navigation_request_serial
                && table@ == g.table_name@ ==> {
                &&& g.window.total_rows > i64::MIN
                &&& g.move_safe(as_i64(g.row_at(offset)))
                &&& g.window.fetch_params_safe(as_i64(g.row_at(offset)) as i64)
            },
            Message::DeleteRow => g.row_selection is Empty ==> g.focused_row < usize::MAX
                && g.window.offset_safe(g.focused_row as i64),
            Message::RowDeleted { table, .. } => table@ == g.table_name@ ==> (g.total_after_delete(1) > 0 ==> in_i64(
                g.total_after_delete(1) - as_i64(g.window.viewport_rows),
            )),
            Message::RowsDeleted { table, count } => table@ == g.table_name@ ==> (g.total_after_delete(count) > 0
                ==> in_i64(g.total_after_delete(count) - as_i64(g.window.viewport_rows))),
            Message::RowInserted { table, .. } => table@ == g.table_name@ ==> g.window.total_rows < i64::MAX,
            Message::EditCommitted { .. } => g.window.fetch_params_safe(as_i64(g.focused_row) as i64),
            Message::ClosePopup => clamp_safe(a.grid),
            _ => true,
        },
    }
}

/// Starting a page load for the grid, if any, does not overflow.
pub open spec fn load_safe(s: Option<GridState>) -> bool {
    s matches Some(g) ==> g.window.fetch_params_safe(as_i64(g.focused_row) as i64)
}

/// `after` and `es` follow from starting the page load `before` asks for.
pub open spec fn loaded(before: Option<GridState>, after: Option<GridState>, es: Seq<Effect>, serial: u64) -> bool {
    match before {
        None => after is None && es.len() == 0,
        Some(g) => after matches Some(h) && loads_if_asked(g, h, es, serial),
    }
}

/// A page load request for the grid in `slot`, numbered `serial`.
fn start_load(slot: &mut Option<GridState>, serial: u64) -> (es: Vec<Effect>)
    requires
        load_safe(*old(slot)),
    ensures
        loaded(*old(slot), *final(slot), es@, serial),
{
    let mut grid = None;
    std::mem::swap(&mut grid, slot);
    match grid {
        None => Vec::new(),
        Some(mut g) => {
            let ghost mid = g;
            let r = g.take_window_fetch();
            *slot = Some(g);
            match r {
                Some(fetch) => {
                    assert(g == (GridState { window: VirtualWindow { fetch_in_flight: true, ..mid.window }, needs_fetch: false, ..mid }));
                    one(Effect::Fetch { request_id: serial, fetch })
                },
                None => Vec::new(),
            }
        },
    }
}

impl App {
    /// A notice of `text`, marking the state changed.
    fn tell(&mut self, text: &str, kind: NoticeKind) -> (es: Vec<Effect>)
        ensures
            *final(self) == (App { dirty: true, ..*old(self) }),
            es@.len() == 1,
            es@[0] matches Effect::Notice { text: t, kind: k } && t@ == text@ && k == kind,
    {
        self.dirty = true;
        one(notice(text, kind))
    }

    /// Handles a grid command: row motions move the focus and start the page
    /// load it asks for; column motions move the focused column; sorting
    /// cycles and reloads from the top; a letter asks for its position;
    /// deleting asks for confirmation; the rest is left to the interface.
    #[verifier::rlimit(40)]
    fn on_grid_command(&mut self, c: GridCommand) -> (es: Vec<Effect>)
        requires
            app_wf(*old(self)),
            message_safe(*old(self), Message::Grid(c)),
            !(c is SetFocusedCellNull),
            !(c is OpenDirectEdit),
        ensures
            app_wf(*final(self)),
            grid_command_step(*old(self), c, *final(self), es@),
            forall|i: int| 0 <= i < es@.len() ==> !is_write(#[trigger] es@[i]),
            final(self).pending_confirm == old(self).pending_confirm || c is DeleteRow,
            final(self).write_in_flight == old(self).write_in_flight,
            final(self).undo_stack == old(self).undo_stack,
            final(self).grid_request_serial == old(self).grid_request_serial,
            old(self).grid matches Some(g) ==> (motion_row(g, c) is Some ==> (final(self).grid matches Some(h)
                && loads_if_asked(row_moved(g, c), h, es@, old(self).grid_request_serial))),
            old(self).grid is None ==> final(self).grid is None,
    {
        if let GridCommand::DeleteRow = c {
            return self.on_delete_row();
        }
        let serial = self.grid_request_serial;
        let mut grid = None;
        std::mem::swap(&mut grid, &mut self.grid);
        let mut g = match grid {
            Some(g) => g,
            None => {
                self.dirty = true;
                return match c {
                    GridCommand::ScrollDown(_) | GridCommand::ScrollUp(_) | GridCommand::MoveDown
                    | GridCommand::MoveUp | GridCommand::MoveRight | GridCommand::MoveLeft
                    | GridCommand::MoveColFirst | GridCommand::MoveColLast | GridCommand::MoveFirstCell
                    | GridCommand::MoveLastCell | GridCommand::CycleSort | GridCommand::JumpToLetter(_) => Vec::new(),
                    _ => one(Effect::Interface(c)),
                };
            },
        };
        let is_motion = match c {
            GridCommand::ScrollDown(_) | GridCommand::MoveDown | GridCommand::ScrollUp(_) | GridCommand::MoveUp
            | GridCommand::MoveFirstCell | GridCommand::MoveLastCell => true,
            _ => false,
        };
        if is_motion {
            self.grid = Some(g);
            return self.move_rows(c);
        }
        let mut es: Vec<Effect> = Vec::new();
        match c {
            GridCommand::MoveRight => g.move_col_right(),
            GridCommand::MoveLeft => g.move_col_left(),
            GridCommand::MoveColFirst => g.move_col_first(),
            GridCommand::MoveColLast => g.move_col_last(),
            GridCommand::CycleSort => {
                self.navigation_request_serial = self.navigation_request_serial.wrapping_add(1);
                let fetch = g.cycle_sort();
                es = one(Effect::Fetch { request_id: serial, fetch });
            },
            GridCommand::JumpToLetter(letter) => match g.sort {
                Some(sp) => if sp.col_idx < g.columns.len() {
                    self.navigation_request_serial = self.navigation_request_serial.wrapping_add(1);
                    es = one(Effect::CountRowsBeforeLetter {
                        request_id: self.navigation_request_serial,
                        table: g.table_name.clone(),
                        column: g.columns[sp.col_idx].name.clone(),
                        ascending: match sp.direction {
                            crate::grid::SortDir::Asc => true,
                            crate::grid::SortDir::Desc => false,
                        },
                        letter,
                    });
                },
                None => {},
            },
            _ => {
                es = one(Effect::Interface(c));
            },
        }
        self.grid = Some(g);
        self.dirty = true;
        es
    }

    /// A row motion: the focus moves as the grid's scroll functions say,
    /// and the page load it asks for starts.
    fn move_rows(&mut self, c: GridCommand) -> (es: Vec<Effect>)
        requires
            app_wf(*old(self)),
            old(self).grid matches Some(g) && motion_row(g, c) is Some && motion_safe(g, c),
        ensures
            app_wf(*final(self)),
            final(self).grid matches Some(h) && loads_if_asked(
                row_moved(old(self).grid->0, c),
                h,
                es@,
                old(self).grid_request_serial,
            ),
            *final(self) == (App { grid: final(self).grid, dirty: true, ..*old(self) }),
    {
        let serial = self.grid_request_serial;
        let mut grid = None;
        std::mem::swap(&mut grid, &mut self.grid);
        let mut g = grid.unwrap();
        let ghost g0 = g;
        match c {
            GridCommand::ScrollDown(n) => g.scroll_down(n),
            GridCommand::MoveDown => g.scroll_down(1),
            GridCommand::ScrollUp(n) => g.scroll_up(n),
            GridCommand::MoveUp => g.scroll_up(1),
            GridCommand::MoveFirstCell => {
                g.focused_col = 0;
                g.h_scroll = 0;
                g.scroll_to_row(0);
            },
            _ => {
                g.move_col_last();
                g.scroll_to_end();
            },
        }
        assert(g == row_moved(g0, c));
        self.grid = Some(g);
        self.dirty = true;
        start_load(&mut self.grid, serial)
    }

    /// Asks to delete what the grid targets: refused when read-only; the
    /// focused row gets its prompt at once; the selected rows are looked up
    /// first, and all rows are counted first.
    fn on_delete_row(&mut self) -> (es: Vec<Effect>)
        requires
            app_wf(*old(self)),
            message_safe(*old(self), Message::DeleteRow),
        ensures
            app_wf(*final(self)),
            delete_step(*old(self), *final(self), es@),
            forall|i: int| 0 <= i < es@.len() ==> !is_write(#[trigger] es@[i]),
            old(self).readonly ==> *final(self) == *old(self) && es@.len() == 1 && es@[0] is Notice,
            final(self).grid == old(self).grid,
            final(self).write_in_flight == old(self).write_in_flight,
            final(self).undo_stack == old(self).undo_stack,
            final(self).grid_request_serial == old(self).grid_request_serial,
            final(self).navigation_request_serial == old(self).navigation_request_serial,
            !old(self).readonly ==> match old(self).grid {
                None => final(self).pending_confirm == old(self).pending_confirm && es@.len() == 0,
                Some(g) => match g.row_selection {
                    crate::grid::RowSelection::All => es@.len() == 1 && (es@[0] matches Effect::CountTableRows { table } && table@ == g.table_name@)
                        && final(self).pending_confirm == old(self).pending_confirm,
                    crate::grid::RowSelection::Rows(v) => if v@.len() > 0 {
                        es@.len() == 1 && (es@[0] matches Effect::ResolveSelectedRows { table, offsets } && table@ == g.table_name@
                            && offsets@ == crate::app::row_offsets_of(v@))
                            && final(self).pending_confirm == old(self).pending_confirm
                    } else {
                        es@.len() == 0 && final(self).pending_confirm == old(self).pending_confirm
                    },
                    crate::grid::RowSelection::Empty => match g.window.rowid_at(g.focused_row as i64) {
                        Some(id) => es@.len() == 0 && (final(self).pending_confirm matches Some(p)
                            && p.message@ == crate::app::delete_row_prompt_text((g.focused_row + 1) as nat)
                            && (p.kind matches ConfirmKind::DeleteRow { table, rowid } && table@ == g.table_name@ && rowid == id)
                            && p.timeout_secs == CONFIRM_TIMEOUT_SECS),
                        None => es@.len() == 0 && final(self).pending_confirm == old(self).pending_confirm,
                    },
                },
            },
    {
        if self.readonly {
            return one(notice("Read-only database", NoticeKind::Error));
        }
        let target = match &self.grid {
            Some(g) => delete_target(g),
            None => None,
        };
        self.dirty = true;
        match target {
            Some(DeleteTarget::CurrentRow { row_num, table, rowid }) => {
                self.pending_confirm = Some(Prompt {
                    message: delete_row_prompt(row_num),
                    kind: ConfirmKind::DeleteRow { table, rowid },
                    timeout_secs: CONFIRM_TIMEOUT_SECS,
                });
                Vec::new()
            },
            Some(DeleteTarget::SelectedRows { table, row_offsets }) => one(
                Effect::ResolveSelectedRows { table, offsets: row_offsets },
            ),
            Some(DeleteTarget::AllRows { table }) => one(Effect::CountTableRows { table }),
            None => Vec::new(),
        }
    }
}

/// The text `prefix` followed by `rest`.
fn joined_text(prefix: &str, rest: &str) -> (r: String)
    ensures
        r@ == prefix@ + rest@,
{
    let mut r = string_of(prefix);
    push_str(&mut r, rest);
    r
}

/// Whether two strings hold the same characters.
fn same(a: &String, b: &String) -> (r: bool)
    ensures
        r == (a@ == b@),
{
    same_text(a.as_str(), b.as_str())
}

/// The prompt after `elapsed` seconds: gone once its timeout has passed.
pub open spec fn prompt_after(p: Option<Prompt>, elapsed: u64) -> Option<Prompt> {
    match p {
        Some(q) => if elapsed >= q.timeout_secs {
            None
        } else {
            Some(q)
        },
        None => None,
    }
}

/// The grid `g` one tick later.
pub open spec fn ticked(g: GridState) -> GridState {
    GridState {
        window: VirtualWindow { tick_count: vstd::wrapping::u64_specs::wrapping_add(g.window.tick_count, 1), ..g.window },
        ..g
    }
}

/// `es` is the single notice `text` of kind `kind`.
pub open spec fn is_notice(es: Seq<Effect>, text: Seq<char>, kind: NoticeKind) -> bool {
    es.len() == 1 && (es[0] matches Effect::Notice { text: t, kind: k } && t@ == text && k == kind)
}

/// The grid of `a` when it shows `table`.
pub open spec fn grid_showing(a: App, table: Seq<char>) -> Option<GridState> {
    match a.grid {
        Some(g) => if g.table_name@ == table {
            Some(g)
        } else {
            None
        },
        None => None,
    }
}

/// What each message does: the state `b` and the effects `es` that follow
/// message `m` in state `a`.
pub open spec fn step_spec(a: App, m: Message, b: App, es: Seq<Effect>) -> bool {
    match m {
        Message::Quit => b == (App { should_quit: true, ..a }) && es.len() == 0,
        Message::Key(k) => b.dirty && key_step(a, k, App { dirty: a.dirty, ..b }, es),
        Message::Tick { confirm_elapsed_secs } => {
            &&& b.pending_confirm == prompt_after(a.pending_confirm, confirm_elapsed_secs)
            &&& match a.grid {
                Some(g) => loaded(Some(ticked(g)), b.grid, es, a.grid_request_serial),
                None => b.grid is None && es.len() == 0,
            }
            &&& b == (App { grid: b.grid, pending_confirm: b.pending_confirm, dirty: b.dirty, ..a })
        },
        Message::Grid(c) => grid_command_step(a, c, b, es),
        Message::CloseTab(i) => {
            &&& b == (App { tabs: b.tabs, dirty: true, ..a })
            &&& es.len() == 0
            &&& (i < a.tabs.open_tabs@.len() ==> b.tabs.open_tabs@ == a.tabs.open_tabs@.remove(i as int)
                && b.tabs.active_tab == crate::app::active_after_close(
                a.tabs.active_tab,
                i,
                (a.tabs.open_tabs@.len() - 1) as usize,
            ))
            &&& (i >= a.tabs.open_tabs@.len() ==> b.tabs.open_tabs@ == a.tabs.open_tabs@ && b.tabs.active_tab == a.tabs.active_tab)
        },
        Message::ActivateTab(i) => {
            &&& b == (App { tabs: b.tabs, dirty: true, ..a })
            &&& es.len() == 0
            &&& b.tabs.open_tabs@ == a.tabs.open_tabs@
            &&& b.tabs.active_tab == if i < a.tabs.open_tabs@.len() { Some(i) } else { a.tabs.active_tab }
        },
        Message::NextTab | Message::PrevTab => b == (App { tabs: b.tabs, dirty: true, ..a }) && es.len() == 0
            && b.tabs.open_tabs@ == a.tabs.open_tabs@,
        Message::OpenHelp => b == (App { help: Some(HelpState { scroll: 0, max_scroll: 0 }), editor: None,
            mode: AppMode::Edit, dirty: true, ..a }) && es.len() == 0,
        Message::ClosePopup => close_popup_step(a, b, es),
        Message::FileChanged => file_changed_step(a, b, es),
        Message::ExternalCheckDone { schema_changed } => external_check_step(a, schema_changed, b, es),
        Message::SchemaLoadFailed { external, error } => schema_failed_step(a, external, error, b, es),
        Message::ExportDone { path, count } => only_dirty(a, b) && is_notice(
            es,
            "Exported "@ + nat_decimal(count as nat) + " rows to "@ + path@,
            NoticeKind::Success,
        ),
        Message::ExportFailed(error) => only_dirty(a, b) && is_notice(es, "Export failed: "@ + error@, NoticeKind::Error),
        Message::EditorOpened(e) => if e.wf() {
            b == (App { editor: Some(e), mode: AppMode::Edit, dirty: true, ..a }) && es.len() == 0
        } else {
            only_dirty(a, b) && es.len() == 0
        },
        Message::CommitEdit => if a.readonly {
            &&& b == (App { help: None, editor: None, mode: AppMode::Browse, dirty: true, ..a })
            &&& is_notice(es, "Read-only database"@, NoticeKind::Error)
        } else {
            match a.editor {
                None => only_dirty(a, b) && is_notice(es, "No value selected to save"@, NoticeKind::Error),
                Some(e) => if a.write_in_flight {
                    only_dirty(a, b) && is_notice(es, "A database write is already running"@, NoticeKind::Info)
                } else {
                    &&& b == (App { write_in_flight: true, dirty: true, ..a })
                    &&& es.len() == 1
                    &&& es[0] matches Effect::SubmitEdit { table, col, rowid, text } && table == e.table && col
                        == e.col_name && rowid == e.rowid && text@ == e.current@
                },
            }
        },
        Message::EditCommitted { table, rowid, col, original } => {
            let serial = vstd::wrapping::u64_specs::wrapping_add(a.grid_request_serial, 1);
            &&& b == (App { grid: b.grid, undo_stack: b.undo_stack, write_in_flight: false, help: None, editor: None,
                mode: AppMode::Browse, grid_request_serial: serial, dirty: true, ..a })
            &&& b.undo_stack@ == undo_pushed(
                a.undo_stack@,
                UndoFrame { op: UndoOp::Update, table, rowid, cols: b.undo_stack@.last().cols },
            )
            &&& b.undo_stack@.last().cols@ == seq![(col, original)]
            &&& es.len() >= 1
            &&& is_notice(seq![es.last()], "Cell updated"@, NoticeKind::Success)
            &&& match a.grid {
                None => b.grid is None && es.len() == 1,
                Some(g) => b.grid matches Some(h) && {
                    &&& h.window.rows@.len() == 0
                    &&& h.window.fetch_in_flight
                    &&& !h.needs_fetch
                    &&& h.focused_row == g.focused_row
                    &&& h.focused_col == g.focused_col
                    &&& h.viewport_start == g.viewport_start
                    &&& h.table_name == g.table_name
                    &&& h.sort == g.sort
                    &&& h.filter == g.filter
                    &&& h.row_selection == g.row_selection
                    &&& es.len() == 2
                    &&& es[0] matches Effect::Fetch { request_id, fetch } && request_id == serial && fetch_for(g, fetch)
                },
            }
        },
        Message::WindowReady { request_id, table, offset, rows, rowids, total_rows } => request_id
            == a.grid_request_serial ==> {
            &&& es.len() == 0
            &&& b == (App { grid: b.grid, dirty: true, ..a })
            &&& match a.grid {
                Some(g) => b.grid matches Some(h) && (table@ == g.table_name@ ==> {
                    &&& h.window.offset == offset
                    &&& h.window.rows@ == rows@
                    &&& h.window.rowids@ == rowids@
                    &&& h.window.total_rows == total_rows
                    &&& !h.window.fetch_in_flight
                    &&& h.focused_row == g.focus_within(total_rows)
                    &&& h.viewport_start == g.start_within(total_rows)
                    &&& h.needs_fetch == (g.needs_fetch && h.window.spec_needs_prefetch(h.focused_row as i64))
                    &&& h.window.viewport_rows == g.window.viewport_rows
                    &&& h.window.tick_count == g.window.tick_count
                    &&& h.same_content(GridState { window: h.window, ..g })
                    &&& h.focused_col == g.focused_col
                    &&& h.h_scroll == g.h_scroll
                    &&& h.row_selection == g.row_selection
                }) && (table@ != g.table_name@ ==> h == g),
                None => b.grid is None,
            }
        },
        Message::GridReadFailed { request_id, table, error } => request_id == a.grid_request_serial ==> {
            &&& is_notice(es, error@, NoticeKind::Error)
            &&& b == (App { grid: b.grid, dirty: true, ..a })
            &&& match grid_showing(a, table@) {
                Some(g) => b.grid == Some(GridState {
                    window: VirtualWindow { fetch_in_flight: false, ..g.window },
                    needs_fetch: false,
                    ..g
                }),
                None => b.grid == a.grid,
            }
        },
        Message::JumpToSortedOffset { request_id, table, offset } => request_id == a.navigation_request_serial ==> {
            &&& b == (App { grid: b.grid, dirty: true, ..a })
            &&& match grid_showing(a, table@) {
                Some(g) => b.grid matches Some(h) && loads_if_asked(
                    focused_at(g, g.row_at(offset)),
                    h,
                    es,
                    a.grid_request_serial,
                ),
                None => b.grid == a.grid && es.len() == 0,
            }
        },
        Message::ClearFilters => {
            &&& b == (App { grid: b.grid, navigation_request_serial: vstd::wrapping::u64_specs::wrapping_add(
                a.navigation_request_serial,
                1,
            ), dirty: true, ..a })
            &&& match a.grid {
                Some(g) => b.grid matches Some(h) && h.filter.columns@.len() == 0 && h.restarted_from(g)
                    && es.len() == 1 && (es[0] matches Effect::Fetch { request_id, fetch } && request_id
                    == a.grid_request_serial && g.first_page(fetch)),
                None => b.grid is None && es.len() == 0,
            }
        },
        Message::DeleteRow => delete_step(a, b, es),
        Message::SelectedRowsResolved { table, expected, rowids } => {
            &&& b == (App { pending_confirm: b.pending_confirm, dirty: true, ..a })
            &&& if rowids@.len() == expected {
                &&& es.len() == 0
                &&& b.pending_confirm matches Some(p)
                &&& p.message@ == crate::app::delete_selected_prompt_text(expected as nat)
                &&& (p.kind matches ConfirmKind::DeleteSelectedRows { table: t, rowids: r } && t@ == table@
                    && r@ == rowids@)
                &&& p.timeout_secs == CONFIRM_TIMEOUT_SECS
            } else {
                b.pending_confirm == a.pending_confirm && is_notice(
                    es,
                    "Some selected rows no longer exist"@,
                    NoticeKind::Error,
                )
            }
        },
        Message::TableRowsCounted { table, total } => {
            &&& b == (App { pending_confirm: b.pending_confirm, dirty: true, ..a })
            &&& if total > 0 {
                &&& es.len() == 0
                &&& b.pending_confirm matches Some(p)
                &&& p.message@ == crate::app::clear_table_prompt_text(total as int, table@)
                &&& (p.kind matches ConfirmKind::ClearTable { table: t } && t@ == table@)
                &&& p.timeout_secs == CONFIRM_TIMEOUT_SECS
            } else {
                b.pending_confirm == a.pending_confirm && is_notice(es, "Table is empty"@, NoticeKind::Info)
            }
        },
        Message::ConfirmDelete => if a.write_in_flight {
            b == (App { dirty: true, ..a }) && is_notice(es, "A database write is already running"@, NoticeKind::Info)
        } else if a.pending_confirm is None {
            b == (App { dirty: true, ..a }) && es.len() == 0
        } else {
            b == (App { pending_confirm: None, write_in_flight: true, dirty: true, ..a }) && es.len() == 1
                && confirmed_write(a.pending_confirm->0.kind, es[0])
        },
        Message::CancelConfirm => b == (App { pending_confirm: None, dirty: true, ..a }) && es.len() == 0,
        Message::RowDeleted { table, rowid, cols } => {
            &&& b == (App { grid: b.grid, undo_stack: b.undo_stack, write_in_flight: false,
                grid_request_serial: vstd::wrapping::u64_specs::wrapping_add(a.grid_request_serial, 1), dirty: true, ..a })
            &&& b.undo_stack@ == undo_pushed(a.undo_stack@, UndoFrame { op: UndoOp::Delete, table, rowid, cols })
            &&& is_notice(es, "Row deleted"@, NoticeKind::Success)
            &&& match grid_showing(a, table@) {
                Some(g) => b.grid matches Some(h) && h.window.total_rows == g.total_after_delete(1)
                    && h.row_selection is Empty && h.needs_fetch && h.window.rows@.len() == 0,
                None => b.grid == a.grid,
            }
        },
        Message::RowsDeleted { table, count } => {
            &&& b == (App { grid: b.grid, write_in_flight: false,
                grid_request_serial: vstd::wrapping::u64_specs::wrapping_add(a.grid_request_serial, 1), dirty: true, ..a })
            &&& is_notice(es, crate::app::rows_deleted_text(count as nat), NoticeKind::Success)
            &&& match grid_showing(a, table@) {
                Some(g) => b.grid matches Some(h) && h.window.total_rows == g.total_after_delete(count)
                    && h.row_selection is Empty && h.needs_fetch && h.window.rows@.len() == 0,
                None => b.grid == a.grid,
            }
        },
        Message::RowInserted { table, rowid } => {
            &&& b == (App { grid: b.grid, undo_stack: b.undo_stack, write_in_flight: false, help: None,
                mode: AppMode::Browse, grid_request_serial: vstd::wrapping::u64_specs::wrapping_add(a.grid_request_serial, 1),
                dirty: true, ..a })
            &&& is_notice(es, "Row inserted"@, NoticeKind::Success)
            &&& match grid_showing(a, table@) {
                Some(g) => b.grid matches Some(h) && h.window.total_rows == g.window.total_rows + 1 && h.needs_fetch
                    && h.window.rows@.len() == 0 && b.undo_stack@ == undo_pushed(
                    a.undo_stack@,
                    UndoFrame { op: UndoOp::Insert, table, rowid, cols: b.undo_stack@.last().cols },
                ) && b.undo_stack@.last().cols@.len() == 0,
                None => b.grid == a.grid && b.undo_stack == a.undo_stack,
            }
        },
        Message::UndoAction => if a.readonly {
            b == a && is_notice(es, "Read-only: cannot undo"@, NoticeKind::Error)
        } else if a.write_in_flight {
            b == a && is_notice(es, "A database write is already running"@, NoticeKind::Info)
        } else if a.undo_stack@.len() == 0 {
            b == (App { dirty: true, ..a }) && is_notice(es, "Nothing to undo"@, NoticeKind::Info)
        } else {
            &&& b == (App { undo_stack: b.undo_stack, write_in_flight: true, dirty: true, ..a })
            &&& b.undo_stack@ == a.undo_stack@.drop_last()
            &&& es.len() == 1
            &&& (es[0] matches Effect::RunUndo(f) && f == a.undo_stack@.last())
        },
        Message::UndoCompleted { table, message } => {
            &&& b == (App { grid: b.grid, write_in_flight: false,
                grid_request_serial: vstd::wrapping::u64_specs::wrapping_add(a.grid_request_serial, 1), dirty: true, ..a })
            &&& is_notice(es, message@, NoticeKind::Info)
            &&& match grid_showing(a, table@) {
                Some(g) => b.grid matches Some(h) && h.needs_fetch && !h.window.fetch_in_flight
                    && h.window.rows@.len() == 0 && h.window.rowids@.len() == 0,
                None => b.grid == a.grid,
            }
        },
        Message::UndoFailed { frame, error } => {
            &&& b == (App { undo_stack: b.undo_stack, write_in_flight: false, dirty: true, ..a })
            &&& b.undo_stack@ == a.undo_stack@.push(frame)
            &&& is_notice(es, "Undo failed: "@ + error@, NoticeKind::Error)
        },
        Message::EditFailed(err) => b == (App { write_in_flight: false, dirty: true, ..a }) && is_notice(
            es,
            "Error: "@ + err@,
            NoticeKind::Error,
        ),
    }
}

/// The messages `update` hands to its first half.
pub open spec fn early_message(m: Message) -> bool {
    ||| m is Quit
    ||| m is Key
    ||| m is Tick
    ||| m is Grid
    ||| m is EditorOpened
    ||| m is CloseTab
    ||| m is ActivateTab
    ||| m is NextTab
    ||| m is PrevTab
    ||| m is OpenHelp
    ||| m is ClosePopup
    ||| m is FileChanged
    ||| m is ExternalCheckDone
    ||| m is SchemaLoadFailed
    ||| m is ExportDone
    ||| m is ExportFailed
    ||| m is WindowReady
    ||| m is GridReadFailed
    ||| m is JumpToSortedOffset
}

/// Whether `update` hands `m` to its first half.
fn is_early(m: &Message) -> (r: bool)
    ensures
        r == early_message(*m),
{
    match m {
        Message::Quit | Message::Key(_) | Message::Tick { .. } | Message::Grid(_) | Message::EditorOpened(_)
        | Message::CloseTab(_) | Message::ActivateTab(_) | Message::NextTab | Message::PrevTab | Message::OpenHelp
        | Message::ClosePopup | Message::FileChanged | Message::ExternalCheckDone { .. }
        | Message::SchemaLoadFailed { .. } | Message::ExportDone { .. } | Message::ExportFailed(_)
        | Message::WindowReady { .. } | Message::GridReadFailed { .. } | Message::JumpToSortedOffset { .. } => true,
        _ => false,
    }
}

impl App {
    /// Takes in one message: moves the state as `step_spec` says and
    /// answers the effects to perform; every step keeps `step_laws`.
    pub fn update(&mut self, m: Message) -> (es: Vec<Effect>)
        requires
            app_wf(*old(self)),
            message_safe(*old(self), m),
        ensures
            app_wf(*final(self)),
            step_spec(*old(self), m, *final(self), es@),
            step_laws(*old(self), m, *final(self), es@),
    {
        if is_early(&m) {
            self.step_early(m)
        } else {
            self.step_late(m)
        }
    }

    /// `update` for keys, grid commands, popups, file changes, exports and
    /// page answers.
    #[verifier::rlimit(100)]
    fn step_early(&mut self, m: Message) -> (es: Vec<Effect>)
        requires
            app_wf(*old(self)),
            message_safe(*old(self), m),
            early_message(m),
        ensures
            app_wf(*final(self)),
            step_spec(*old(self), m, *final(self), es@),
            step_laws(*old(self), m, *final(self), es@),
    {
        match m {
            Message::Quit => {
                self.should_quit = true;
                Vec::new()
            },
            Message::Key(k) => {
                let es = self.on_key(k);
                self.dirty = true;
                es
            },
            Message::Tick { confirm_elapsed_secs } => self.on_tick(confirm_elapsed_secs),
            Message::Grid(c) => match c {
                GridCommand::SetFocusedCellNull => self.on_set_null(),
                GridCommand::OpenDirectEdit => self.on_open_direct_edit(),
                _ => self.on_grid_command(c),
            },
            Message::EditorOpened(e) => {
                if e.cursor <= e.current.len() {
                    self.editor = Some(e);
                    self.mode = AppMode::Edit;
                }
                self.dirty = true;
                Vec::new()
            },
            Message::CloseTab(i) => {
                self.tabs.close_tab(i);
                self.dirty = true;
                Vec::new()
            },
            Message::ActivateTab(i) => {
                self.tabs.activate_tab(i);
                self.dirty = true;
                Vec::new()
            },
            Message::NextTab => {
                self.tabs.next_tab();
                self.dirty = true;
                Vec::new()
            },
            Message::PrevTab => {
                self.tabs.prev_tab();
                self.dirty = true;
                Vec::new()
            },
            Message::OpenHelp => {
                self.help = Some(HelpState::new());
                self.editor = None;
                self.mode = AppMode::Edit;
                self.dirty = true;
                Vec::new()
            },
            Message::ClosePopup => self.on_close_popup(),
            Message::FileChanged => self.on_file_changed(),
            Message::ExternalCheckDone { schema_changed } => self.on_external_check_done(schema_changed),
            Message::SchemaLoadFailed { external, error } => self.on_schema_load_failed(external, error),
            Message::ExportDone { path, count } => self.on_export_done(path, count),
            Message::ExportFailed(error) => {
                self.dirty = true;
                one(Effect::Notice { text: joined_text("Export failed: ", error.as_str()), kind: NoticeKind::Error })
            },
            Message::WindowReady { request_id, table, offset, rows, rowids, total_rows } => {
                if request_id != self.grid_request_serial {
                    return Vec::new();
                }
                let serial = self.grid_request_serial;
                let mut grid = None;
                std::mem::swap(&mut grid, &mut self.grid);
                if let Some(mut g) = grid {
                    g.apply_window_ready(request_id, serial, table.as_str(), offset, rows, rowids, total_rows);
                    self.grid = Some(g);
                }
                self.dirty = true;
                Vec::new()
            },
            Message::GridReadFailed { request_id, table, error } => {
                if request_id != self.grid_request_serial {
                    return Vec::new();
                }
                self.on_read_failed(table, error)
            },
            Message::JumpToSortedOffset { request_id, table, offset } => {
                if request_id != self.navigation_request_serial {
                    return Vec::new();
                }
                self.on_sorted_offset(request_id, table, offset)
            },
            _ => {
                proof {
                    assert(false);
                }
                Vec::new()
            },
        }
    }

    /// `update` for deletions, writes, undo and edits.
    #[verifier::rlimit(100)]
    fn step_late(&mut self, m: Message) -> (es: Vec<Effect>)
        requires
            app_wf(*old(self)),
            message_safe(*old(self), m),
            !early_message(m),
        ensures
            app_wf(*final(self)),
            step_spec(*old(self), m, *final(self), es@),
            step_laws(*old(self), m, *final(self), es@),
    {
        match m {
            Message::ClearFilters => self.on_clear_filters(),
            Message::DeleteRow => self.on_delete_row(),
            Message::SelectedRowsResolved { table, expected, rowids } => {
                self.dirty = true;
                if rowids.len() == expected {
                    self.pending_confirm = Some(Prompt {
                        message: delete_selected_prompt(expected),
                        kind: ConfirmKind::DeleteSelectedRows { table, rowids },
                        timeout_secs: CONFIRM_TIMEOUT_SECS,
                    });
                    Vec::new()
                } else {
                    one(notice("Some selected rows no longer exist", NoticeKind::Error))
                }
            },
            Message::TableRowsCounted { table, total } => {
                self.dirty = true;
                match clear_table_prompt(total, table.as_str()) {
                    Some(message) => {
                        self.pending_confirm = Some(Prompt {
                            message,
                            kind: ConfirmKind::ClearTable { table },
                            timeout_secs: CONFIRM_TIMEOUT_SECS,
                        });
                        Vec::new()
                    },
                    None => one(notice("Table is empty", NoticeKind::Info)),
                }
            },
            Message::ConfirmDelete => self.on_confirm(),
            Message::CancelConfirm => {
                self.pending_confirm = None;
                self.dirty = true;
                Vec::new()
            },
            Message::RowDeleted { table, rowid, cols } => self.on_row_deleted(table, rowid, cols),
            Message::RowsDeleted { table, count } => self.on_rows_deleted(table, count),
            Message::RowInserted { table, rowid } => self.on_row_inserted(table, rowid),
            Message::UndoAction => self.on_undo(),
            Message::UndoCompleted { table, message } => {
                self.write_in_flight = false;
                self.grid_request_serial = self.grid_request_serial.wrapping_add(1);
                let mut grid = None;
                std::mem::swap(&mut grid, &mut self.grid);
                if let Some(mut g) = grid {
                    if same(&g.table_name, &table) {
                        g.drop_loaded_rows();
                    }
                    self.grid = Some(g);
                }
                self.dirty = true;
                one(Effect::Notice { text: message, kind: NoticeKind::Info })
            },
            Message::UndoFailed { frame, error } => {
                self.write_in_flight = false;
                self.undo_stack.push(frame);
                self.dirty = true;
                one(Effect::Notice { text: joined_text("Undo failed: ", error.as_str()), kind: NoticeKind::Error })
            },
            Message::CommitEdit => self.on_commit_edit(),
            Message::EditCommitted { table, rowid, col, original } => self.on_edit_committed(table, rowid, col, original),
            Message::EditFailed(err) => {
                self.write_in_flight = false;
                self.dirty = true;
                one(Effect::Notice { text: joined_text("Error: ", err.as_str()), kind: NoticeKind::Error })
            },
            _ => {
                proof {
                    assert(false);
                }
                Vec::new()
            },
        }
    }

    /// A tick: the grid counts it and starts a page load it asks for; an
    /// expired prompt goes away.
    fn on_tick(&mut self, elapsed: u64) -> (es: Vec<Effect>)
        requires
            app_wf(*old(self)),
            message_safe(*old(self), Message::Tick { confirm_elapsed_secs: elapsed }),
        ensures
            app_wf(*final(self)),
            step_spec(*old(self), Message::Tick { confirm_elapsed_secs: elapsed }, *final(self), es@),
            forall|i: int| 0 <= i < es@.len() ==> (#[trigger] es@[i]) is Fetch,
    {
        let serial = self.grid_request_serial;
        let mut grid = None;
        std::mem::swap(&mut grid, &mut self.grid);
        let es = match grid {
            Some(mut g) => {
                g.window.tick_count = g.window.tick_count.wrapping_add(1);
                self.grid = Some(g);
                let es = start_load(&mut self.grid, serial);
                let in_flight = match &self.grid {
                    Some(h) => h.window.fetch_in_flight,
                    None => false,
                };
                if es.len() > 0 || in_flight {
                    self.dirty = true;
                }
                es
            },
            None => Vec::new(),
        };
        let expired = match &self.pending_confirm {
            Some(p) => elapsed >= p.timeout_secs,
            None => false,
        };
        if expired {
            self.pending_confirm = None;
            self.dirty = true;
        }
        es
    }

    /// A failed page load for the current request: the grid showing that
    /// table stops waiting, and the error is shown.
    fn on_read_failed(&mut self, table: String, error: String) -> (es: Vec<Effect>)
        requires
            app_wf(*old(self)),
        ensures
            app_wf(*final(self)),
            step_spec(*old(self), Message::GridReadFailed { request_id: old(self).grid_request_serial, table, error }, *final(self), es@),
    {
        let mut grid = None;
        std::mem::swap(&mut grid, &mut self.grid);
        if let Some(mut g) = grid {
            if same(&g.table_name, &table) {
                g.window.fetch_in_flight = false;
                g.needs_fetch = false;
            }
            self.grid = Some(g);
        }
        self.dirty = true;
        one(Effect::Notice { text: error, kind: NoticeKind::Error })
    }

    /// The answer to the current letter lookup: the grid showing that table
    /// focuses the row and starts the page load it asks for.
    fn on_sorted_offset(&mut self, request_id: u64, table: String, offset: i64) -> (es: Vec<Effect>)
        requires
            app_wf(*old(self)),
            request_id == old(self).navigation_request_serial,
            message_safe(*old(self), Message::JumpToSortedOffset { request_id, table, offset }),
        ensures
            app_wf(*final(self)),
            step_spec(*old(self), Message::JumpToSortedOffset { request_id, table, offset }, *final(self), es@),
            forall|i: int| 0 <= i < es@.len() ==> (#[trigger] es@[i]) is Fetch,
    {
        let serial = self.grid_request_serial;
        let current = self.navigation_request_serial;
        let mut grid = None;
        std::mem::swap(&mut grid, &mut self.grid);
        let es = match grid {
            Some(mut g) => {
                let ghost g0 = g;
                let jumped = g.jump_to_sorted_offset(request_id, current, table.as_str(), offset);
                self.grid = Some(g);
                if jumped {
                    assert(g == focused_at(g0, g0.row_at(offset)));
                    start_load(&mut self.grid, serial)
                } else {
                    Vec::new()
                }
            },
            None => Vec::new(),
        };
        self.dirty = true;
        es
    }

    /// Drops every filter and reloads the grid from its first page.
    fn on_clear_filters(&mut self) -> (es: Vec<Effect>)
        requires
            app_wf(*old(self)),
            message_safe(*old(self), Message::ClearFilters),
        ensures
            app_wf(*final(self)),
            step_spec(*old(self), Message::ClearFilters, *final(self), es@),
            forall|i: int| 0 <= i < es@.len() ==> (#[trigger] es@[i]) is Fetch,
    {
        self.navigation_request_serial = self.navigation_request_serial.wrapping_add(1);
        let serial = self.grid_request_serial;
        let mut grid = None;
        std::mem::swap(&mut grid, &mut self.grid);
        let es = match grid {
            Some(mut g) => {
                let fetch = g.clear_filters();
                self.grid = Some(g);
                one(Effect::Fetch { request_id: serial, fetch })
            },
            None => Vec::new(),
        };
        self.dirty = true;
        es
    }

    /// Confirms the pending prompt: its write starts, unless a write is
    /// already running.
    fn on_confirm(&mut self) -> (es: Vec<Effect>)
        requires
            app_wf(*old(self)),
        ensures
            app_wf(*final(self)),
            step_spec(*old(self), Message::ConfirmDelete, *final(self), es@),
    {
        self.dirty = true;
        if self.write_in_flight {
            return one(notice("A database write is already running", NoticeKind::Info));
        }
        let mut pending = None;
        std::mem::swap(&mut pending, &mut self.pending_confirm);
        match pending {
            None => Vec::new(),
            Some(p) => {
                self.write_in_flight = true;
                match p.kind {
                    ConfirmKind::DeleteRow { table, rowid } => one(Effect::DeleteRowWithBackup { table, rowid }),
                    ConfirmKind::DeleteSelectedRows { table, rowids } => one(Effect::DeleteRows { table, rowids }),
                    ConfirmKind::ClearTable { table } => one(Effect::ClearTable { table }),
                }
            },
        }
    }

    /// A row was deleted: its undo frame is kept and the grid showing its
    /// table reloads one row shorter.
    fn on_row_deleted(&mut self, table: String, rowid: i64, cols: Vec<(String, SqlValue)>) -> (es: Vec<Effect>)
        requires
            app_wf(*old(self)),
            message_safe(*old(self), Message::RowDeleted { table, rowid, cols }),
        ensures
            app_wf(*final(self)),
            step_spec(*old(self), Message::RowDeleted { table, rowid, cols }, *final(self), es@),
    {
        self.write_in_flight = false;
        self.grid_request_serial = self.grid_request_serial.wrapping_add(1);
        let mut grid = None;
        std::mem::swap(&mut grid, &mut self.grid);
        if let Some(mut g) = grid {
            if same(&g.table_name, &table) {
                g.apply_rows_deleted(1);
            }
            self.grid = Some(g);
        }
        record_undo(&mut self.undo_stack, UndoFrame { op: UndoOp::Delete, table, rowid, cols });
        self.dirty = true;
        one(notice("Row deleted", NoticeKind::Success))
    }

    /// Rows were deleted: the grid showing their table reloads shorter.
    fn on_rows_deleted(&mut self, table: String, count: usize) -> (es: Vec<Effect>)
        requires
            app_wf(*old(self)),
            message_safe(*old(self), Message::RowsDeleted { table, count }),
        ensures
            app_wf(*final(self)),
            step_spec(*old(self), Message::RowsDeleted { table, count }, *final(self), es@),
    {
        self.write_in_flight = false;
        self.grid_request_serial = self.grid_request_serial.wrapping_add(1);
        let mut grid = None;
        std::mem::swap(&mut grid, &mut self.grid);
        if let Some(mut g) = grid {
            if same(&g.table_name, &table) {
                g.apply_rows_deleted(count);
            }
            self.grid = Some(g);
        }
        self.dirty = true;
        one(Effect::Notice { text: rows_deleted_message(count), kind: NoticeKind::Success })
    }

    /// Sets the focused cell to NULL, unless refused (see `set_null_step`).
    fn on_set_null(&mut self) -> (es: Vec<Effect>)
        requires
            app_wf(*old(self)),
            message_safe(*old(self), Message::Grid(GridCommand::SetFocusedCellNull)),
        ensures
            app_wf(*final(self)),
            step_spec(*old(self), Message::Grid(GridCommand::SetFocusedCellNull), *final(self), es@),
    {
        if self.readonly {
            return one(notice("Read-only database", NoticeKind::Error));
        }
        self.dirty = true;
        let found = match &self.grid {
            None => None,
            Some(g) => focused_cell(g),
        };
        match found {
            None => Vec::new(),
            Some(Err(e)) => one(Effect::Notice { text: e.message(), kind: NoticeKind::Error }),
            Some(Ok(cell)) => {
                if cell.col.not_null {
                    one(notice("Column is NOT NULL", NoticeKind::Error))
                } else if let SqlValue::Null = cell.cell_value {
                    one(notice("Cell is already NULL", NoticeKind::Error))
                } else if self.write_in_flight {
                    one(notice("A database write is already running", NoticeKind::Info))
                } else {
                    self.write_in_flight = true;
                    one(Effect::WriteCell {
                        table: cell.table_name,
                        col: cell.col.name,
                        rowid: cell.rowid,
                        value: SqlValue::Null,
                        original: cell.cell_value,
                    })
                }
            },
        }
    }

    /// Hands out the focused cell to open its editor, unless refused (see
    /// `direct_edit_step`).
    fn on_open_direct_edit(&mut self) -> (es: Vec<Effect>)
        requires
            app_wf(*old(self)),
            message_safe(*old(self), Message::Grid(GridCommand::OpenDirectEdit)),
        ensures
            app_wf(*final(self)),
            step_spec(*old(self), Message::Grid(GridCommand::OpenDirectEdit), *final(self), es@),
    {
        if self.readonly {
            return one(notice("Read-only database", NoticeKind::Error));
        }
        self.dirty = true;
        let found = match &self.grid {
            None => None,
            Some(g) => focused_cell(g),
        };
        match found {
            None => Vec::new(),
            Some(Err(e)) => one(Effect::Notice { text: e.message(), kind: NoticeKind::Error }),
            Some(Ok(cell)) => one(Effect::OpenEditor(cell)),
        }
    }

    /// Opens table `t` in the grid (see `table_view_of`).
    fn request_table_view(&mut self, t: String) -> (es: Vec<Effect>)
        ensures
            (*final(self), es@) == table_view_of(*old(self), t),
    {
        self.navigation_request_serial = self.navigation_request_serial.wrapping_add(1);
        self.grid_request_serial = self.grid_request_serial.wrapping_add(1);
        self.grid = None;
        one(Effect::OpenTable { request_id: self.grid_request_serial, table: t })
    }

    /// The active tab's table, if a tab is active.
    fn active_table_name(&self) -> (r: Option<String>)
        ensures
            r == active_table(*self),
    {
        match self.tabs.active_tab {
            Some(i) => if i < self.tabs.open_tabs.len() {
                Some(self.tabs.open_tabs[i].table_name.clone())
            } else {
                None
            },
            None => None,
        }
    }

    /// Refreshes the grid after the schema changed (see `refresh_of`).
    fn refresh_active_grid(&mut self) -> (es: Vec<Effect>)
        ensures
            (*final(self), es@) == refresh_of(*old(self)),
    {
        let t = self.active_table_name();
        self.navigation_request_serial = self.navigation_request_serial.wrapping_add(1);
        match &self.grid {
            Some(g) => one(Effect::RefreshGridSchema { table: g.table_name.clone() }),
            None => match t {
                Some(t) => self.request_table_view(t),
                None => Vec::new(),
            },
        }
    }

    /// Closes the popup (see `close_popup_step`).
    fn on_close_popup(&mut self) -> (es: Vec<Effect>)
        requires
            app_wf(*old(self)),
            clamp_safe(old(self).grid),
        ensures
            app_wf(*final(self)),
            close_popup_step(*old(self), *final(self), es@),
            quiet(*old(self), *final(self), es@),
    {
        proof {
            reveal(close_popup_step);
        }
        self.help = None;
        self.editor = None;
        self.mode = AppMode::Browse;
        let mut grid = None;
        std::mem::swap(&mut grid, &mut self.grid);
        if let Some(mut g) = grid {
            let ghost g0 = g;
            g.clamp_viewport();
            assert(g == clamped_grid(g0));
            self.grid = Some(g);
        }
        let es = if self.watch.refresh_waiting {
            self.watch.refresh_waiting = false;
            self.refresh_active_grid()
        } else {
            Vec::new()
        };
        self.dirty = true;
        es
    }

    /// A change of the database file (see `file_changed_step`).
    fn on_file_changed(&mut self) -> (es: Vec<Effect>)
        requires
            app_wf(*old(self)),
        ensures
            app_wf(*final(self)),
            file_changed_step(*old(self), *final(self), es@),
            quiet(*old(self), *final(self), es@),
    {
        proof {
            reveal(file_changed_step);
        }
        if self.watch.check_in_flight {
            self.watch.change_pending = true;
            return Vec::new();
        }
        let t = self.active_table_name();
        self.watch.check_in_flight = true;
        self.dirty = true;
        let mut es = one(Effect::ProbeSchema);
        if self.mode == AppMode::Edit {
            self.watch.refresh_waiting = true;
            return es;
        }
        let mut grid = None;
        std::mem::swap(&mut grid, &mut self.grid);
        match grid {
            Some(mut g) => {
                self.grid_request_serial = self.grid_request_serial.wrapping_add(1);
                g.window.fetch_in_flight = false;
                g.needs_fetch = true;
                self.grid = Some(g);
            },
            None => {
                if let Some(t) = t {
                    let mut more = self.request_table_view(t);
                    let ghost m0 = more@;
                    es.append(&mut more);
                    assert(es@.drop_first() =~= m0);
                }
            },
        }
        es
    }

    /// The end of a schema check (see `external_check_step`).
    fn on_external_check_done(&mut self, schema_changed: bool) -> (es: Vec<Effect>)
        requires
            app_wf(*old(self)),
        ensures
            app_wf(*final(self)),
            external_check_step(*old(self), schema_changed, *final(self), es@),
            quiet(*old(self), *final(self), es@),
    {
        proof {
            reveal(external_check_step);
        }
        let mut rest = self.check_done_rest(schema_changed);
        self.dirty = true;
        if schema_changed {
            let mut es = one(notice("Schema changed", NoticeKind::Info));
            let ghost r0 = rest@;
            es.append(&mut rest);
            assert(es@.drop_first() =~= r0);
            es
        } else {
            rest
        }
    }

    /// The end of a schema check before its notice (see `check_done_of`).
    fn check_done_rest(&mut self, schema_changed: bool) -> (rest: Vec<Effect>)
        requires
            app_wf(*old(self)),
        ensures
            app_wf(*final(self)),
            (*final(self), rest@) == check_done_of(*old(self), schema_changed),
            quiet(*old(self), *final(self), rest@),
    {
        self.watch.check_in_flight = false;
        let mut rest: Vec<Effect> = Vec::new();
        if schema_changed {
            if self.mode == AppMode::Edit {
                self.watch.refresh_waiting = true;
            } else {
                rest = self.refresh_active_grid();
            }
        }
        if self.watch.change_pending {
            self.watch.change_pending = false;
            rest.push(Effect::Post(Message::FileChanged));
        }
        rest
    }

    /// A failed schema load (see `schema_failed_step`).
    fn on_schema_load_failed(&mut self, external: bool, error: String) -> (es: Vec<Effect>)
        requires
            app_wf(*old(self)),
        ensures
            app_wf(*final(self)),
            schema_failed_step(*old(self), external, error, *final(self), es@),
            quiet(*old(self), *final(self), es@),
    {
        proof {
            reveal(schema_failed_step);
        }
        let mut es: Vec<Effect> = Vec::new();
        if external {
            self.watch.check_in_flight = false;
            if self.watch.change_pending {
                self.watch.change_pending = false;
                es.push(Effect::Post(Message::FileChanged));
            }
        }
        self.dirty = true;
        let ghost e0 = es@;
        es.push(Effect::Notice { text: joined_text("Schema reload failed: ", error.as_str()), kind: NoticeKind::Error });
        assert(es@.drop_last() =~= e0);
        es
    }

    /// An export finished: says how many rows went where.
    fn on_export_done(&mut self, path: String, count: u64) -> (es: Vec<Effect>)
        ensures
            only_dirty(*old(self), *final(self)),
            is_notice(es@, "Exported "@ + nat_decimal(count as nat) + " rows to "@ + path@, NoticeKind::Success),
    {
        let mut t = string_of("Exported ");
        push_decimal(&mut t, count);
        push_str(&mut t, " rows to ");
        push_str(&mut t, path.as_str());
        self.dirty = true;
        one(Effect::Notice { text: t, kind: NoticeKind::Success })
    }

    /// Writes the open editor's value back, unless the database is
    /// read-only (the editor closes), no editor is open, or a write is
    /// already running.
    fn on_commit_edit(&mut self) -> (es: Vec<Effect>)
        requires
            app_wf(*old(self)),
        ensures
            app_wf(*final(self)),
            step_spec(*old(self), Message::CommitEdit, *final(self), es@),
    {
        if self.readonly {
            self.help = None;
            self.editor = None;
            self.mode = AppMode::Browse;
            self.dirty = true;
            return one(notice("Read-only database", NoticeKind::Error));
        }
        match &self.editor {
            None => {
                self.dirty = true;
                one(notice("No value selected to save", NoticeKind::Error))
            },
            Some(e) => {
                if self.write_in_flight {
                    self.dirty = true;
                    return one(notice("A database write is already running", NoticeKind::Info));
                }
                let text = e.text();
                let table = e.table.clone();
                let col = e.col_name.clone();
                let rowid = e.rowid;
                self.write_in_flight = true;
                self.dirty = true;
                one(Effect::SubmitEdit { table, col, rowid, text })
            },
        }
    }

    /// A cell was written: its undo frame is kept, the editor closes and the
    /// grid reloads the page around its focused row.
    fn on_edit_committed(&mut self, table: String, rowid: i64, col: String, original: SqlValue) -> (es: Vec<Effect>)
        requires
            app_wf(*old(self)),
            message_safe(*old(self), Message::EditCommitted { table, rowid, col, original }),
        ensures
            app_wf(*final(self)),
            step_spec(*old(self), Message::EditCommitted { table, rowid, col, original }, *final(self), es@),
    {
        self.write_in_flight = false;
        self.grid_request_serial = self.grid_request_serial.wrapping_add(1);
        let mut es: Vec<Effect> = Vec::new();
        let mut grid = None;
        std::mem::swap(&mut grid, &mut self.grid);
        if let Some(mut g) = grid {
            let fetch = g.reload_after_edit();
            es.push(Effect::Fetch { request_id: self.grid_request_serial, fetch });
            self.grid = Some(g);
        }
        let mut cols: Vec<(String, SqlValue)> = Vec::new();
        cols.push((col, original));
        record_undo(&mut self.undo_stack, UndoFrame { op: UndoOp::Update, table, rowid, cols });
        self.help = None;
        self.editor = None;
        self.mode = AppMode::Browse;
        self.dirty = true;
        es.push(notice("Cell updated", NoticeKind::Success));
        es
    }

    /// A row was inserted: for the grid showing its table, its undo frame
    /// is kept and the grid reloads one row longer; the editor closes.
    fn on_row_inserted(&mut self, table: String, rowid: i64) -> (es: Vec<Effect>)
        requires
            app_wf(*old(self)),
            message_safe(*old(self), Message::RowInserted { table, rowid }),
        ensures
            app_wf(*final(self)),
            step_spec(*old(self), Message::RowInserted { table, rowid }, *final(self), es@),
    {
        self.write_in_flight = false;
        self.grid_request_serial = self.grid_request_serial.wrapping_add(1);
        let mut grid = None;
        std::mem::swap(&mut grid, &mut self.grid);
        if let Some(mut g) = grid {
            if same(&g.table_name, &table) {
                record_undo(&mut self.undo_stack, UndoFrame { op: UndoOp::Insert, table, rowid, cols: Vec::new() });
                g.apply_row_inserted();
            }
            self.grid = Some(g);
        }
        self.help = None;
        self.mode = AppMode::Browse;
        self.dirty = true;
        one(notice("Row inserted", NoticeKind::Success))
    }

    /// Undoes the newest write, unless read-only, busy or nothing is left.
    fn on_undo(&mut self) -> (es: Vec<Effect>)
        requires
            app_wf(*old(self)),
        ensures
            app_wf(*final(self)),
            step_spec(*old(self), Message::UndoAction, *final(self), es@),
    {
        if self.readonly {
            return one(Effect::Notice { text: UndoRefusal::ReadOnly.message(), kind: NoticeKind::Error });
        }
        if self.write_in_flight {
            return one(Effect::Notice { text: UndoRefusal::WriteRunning.message(), kind: NoticeKind::Info });
        }
        if self.undo_stack.len() == 0 {
            self.dirty = true;
            return one(Effect::Notice { text: UndoRefusal::Nothing.message(), kind: NoticeKind::Info });
        }
        match take_undo_frame(&mut self.undo_stack, false, false) {
            Ok(frame) => {
                self.write_in_flight = true;
                self.dirty = true;
                one(Effect::RunUndo(frame))
            },
            Err(_) => Vec::new(),
        }
    }
}

/// A command of the command palette.
pub enum PaletteCommand {
    ExportCsv,
    ExportJson,
    ExportSql,
    SwitchTable(String),
    ToggleSidebar,
    ToggleReadonly,
    ResetColumnWidths,
    ClearFilters,
    ReloadSchema,
    CopyCell,
    CopyRowJson,
    Quit,
}

/// The formats a table can be exported to.
#[derive(PartialEq, Eq, Structural, Clone, Copy, Debug)]
pub enum ExportFormat {
    Csv,
    Json,
    Sql,
}

/// A format's file extension.
pub open spec fn format_ext(f: ExportFormat) -> Seq<char> {
    match f {
        ExportFormat::Csv => "csv"@,
        ExportFormat::Json => "json"@,
        ExportFormat::Sql => "sql"@,
    }
}

/// What a palette command asks of whoever runs the loop.
pub enum PaletteEffect {
    /// Export the grid's table (in its order and filter) to `path`.
    Export { format: ExportFormat, table: String, path: String },
    /// Open table `name`.
    OpenTable(String),
    /// Load the schema again.
    ReloadSchema,
    /// Post this message back.
    Post(Message),
    /// A grid command the interface carries out itself.
    Interface(GridCommand),
    /// Show a notice.
    Notice { text: String, kind: NoticeKind },
}

/// A character kept in an export's file name: ASCII letters and digits,
/// `-` and `_`; any other becomes `_`.
pub open spec fn file_char(c: char) -> char {
    if ('a' <= c <= 'z') || ('A' <= c <= 'Z') || ('0' <= c <= '9') || c == '-' || c == '_' {
        c
    } else {
        '_'
    }
}

/// The table name made safe for a file name.
pub open spec fn safe_name(t: Seq<char>) -> Seq<char> {
    Seq::new(t.len(), |i: int| file_char(t[i]))
}

/// The export file: `<home>/sqview_<safe table>_<id>.<ext>`.
pub open spec fn export_path_text(home: Seq<char>, table: Seq<char>, id: u128, f: ExportFormat) -> Seq<char> {
    home + "/sqview_"@ + safe_name(table) + "_"@ + crate::text::nat_decimal(id as nat) + "."@ + format_ext(f)
}

/// The file an export of `table` goes to, under the directory `home`, told
/// apart by `export_id`.
pub fn export_path(home: &str, table: &str, export_id: u128, format: ExportFormat) -> (r: String)
    ensures
        r@ == export_path_text(home@, table@, export_id, format),
{
    let mut r = string_of(home);
    push_str(&mut r, "/sqview_");
    let cs = crate::text::chars_of(table);
    let mut i: usize = 0;
    let ghost start = r@;
    while i < cs.len()
        invariant
            i <= cs@.len(),
            cs@ == table@,
            r@ == start + safe_name(table@).subrange(0, i as int),
        decreases cs@.len() - i,
    {
        let c = cs[i];
        let k = if ('a' <= c && c <= 'z') || ('A' <= c && c <= 'Z') || ('0' <= c && c <= '9') || c == '-' || c
            == '_' {
            c
        } else {
            '_'
        };
        crate::text::push_char(&mut r, k);
        assert(safe_name(table@).subrange(0, i + 1) =~= safe_name(table@).subrange(0, i as int).push(k));
        i = i + 1;
    }
    assert(safe_name(table@).subrange(0, cs@.len() as int) =~= safe_name(table@));
    push_str(&mut r, "_");
    crate::text::push_decimal_wide(&mut r, export_id);
    push_str(&mut r, ".");
    match format {
        ExportFormat::Csv => push_str(&mut r, "csv"),
        ExportFormat::Json => push_str(&mut r, "json"),
        ExportFormat::Sql => push_str(&mut r, "sql"),
    }
    r
}

/// A palette notice.
fn palette_notice(text: &str) -> (e: PaletteEffect)
    ensures
        e matches PaletteEffect::Notice { text: t, kind: k } && t@ == text@ && k == NoticeKind::Info,
{
    PaletteEffect::Notice { text: string_of(text), kind: NoticeKind::Info }
}

impl App {
    /// Runs a palette command. An export (only with a table open) writes
    /// under `home`, named with `export_id`; switching tables, reloading the
    /// schema and copying are asked of the interface; the toggles, resetting
    /// the column widths and quitting change the state here.
    pub fn palette_step(&mut self, cmd: PaletteCommand, home: &str, export_id: u128) -> (es: Vec<PaletteEffect>)
        requires
            app_wf(*old(self)),
        ensures
            app_wf(*final(self)),
            match cmd {
                PaletteCommand::ExportCsv | PaletteCommand::ExportJson | PaletteCommand::ExportSql => {
                    let f = match cmd {
                        PaletteCommand::ExportCsv => ExportFormat::Csv,
                        PaletteCommand::ExportJson => ExportFormat::Json,
                        _ => ExportFormat::Sql,
                    };
                    &&& *final(self) == *old(self)
                    &&& match old(self).grid {
                        Some(g) => es@.len() == 1 && (es@[0] matches PaletteEffect::Export { format, table, path }
                            && format == f && table@ == g.table_name@ && path@ == export_path_text(
                            home@,
                            g.table_name@,
                            export_id,
                            f,
                        )),
                        None => es@.len() == 0,
                    }
                },
                PaletteCommand::SwitchTable(name) => *final(self) == *old(self) && es@.len() == 1
                    && (es@[0] matches PaletteEffect::OpenTable(n) && n@ == name@),
                PaletteCommand::ToggleSidebar => *final(self) == (App { sidebar_visible: !old(self).sidebar_visible, ..*old(self) })
                    && es@.len() == 0,
                PaletteCommand::ToggleReadonly => *final(self) == (App { readonly: !old(self).readonly, ..*old(self) })
                    && es@.len() == 1 && (es@[0] matches PaletteEffect::Notice { text, kind } && kind == NoticeKind::Info
                    && text@ == if final(self).readonly { "Read-only mode enabled"@ } else { "Read-only mode disabled"@ }),
                PaletteCommand::ResetColumnWidths => {
                    &&& *final(self) == (App { grid: final(self).grid, ..*old(self) })
                    &&& (old(self).grid is None ==> final(self).grid is None)
                    &&& (old(self).grid is Some ==> (final(self).grid matches Some(h) && h.manual_widths@
                        == Map::<usize, u16>::empty() && h.columns == old(self).grid->0.columns && h.window
                        == old(self).grid->0.window))
                    &&& es@.len() == 1 && (es@[0] matches PaletteEffect::Notice { text, kind } && text@
                        == "Column widths reset"@ && kind == NoticeKind::Info)
                },
                PaletteCommand::ClearFilters => *final(self) == *old(self) && es@.len() == 2
                    && (es@[0] matches PaletteEffect::Post(m) && m is ClearFilters) && (es@[1] matches PaletteEffect::Notice {
                    text,
                    kind,
                } && text@ == "Filters cleared"@ && kind == NoticeKind::Info),
                PaletteCommand::ReloadSchema => *final(self) == *old(self) && es@.len() == 1
                    && es@[0] is ReloadSchema,
                PaletteCommand::CopyCell => *final(self) == *old(self) && es@.len() == 1 && (es@[0] matches PaletteEffect::Interface(c)
                    && c == GridCommand::CopyCell),
                PaletteCommand::CopyRowJson => *final(self) == *old(self) && es@.len() == 1 && (es@[0] matches PaletteEffect::Interface(
                    c,
                ) && c == GridCommand::CopyRowJson),
                PaletteCommand::Quit => *final(self) == (App { should_quit: true, ..*old(self) }) && es@.len() == 0,
            },
    {
        match cmd {
            PaletteCommand::ExportCsv | PaletteCommand::ExportJson | PaletteCommand::ExportSql => {
                let format = match cmd {
                    PaletteCommand::ExportCsv => ExportFormat::Csv,
                    PaletteCommand::ExportJson => ExportFormat::Json,
                    _ => ExportFormat::Sql,
                };
                match &self.grid {
                    Some(g) => {
                        let mut es = Vec::new();
                        es.push(PaletteEffect::Export {
                            format,
                            table: g.table_name.clone(),
                            path: export_path(home, g.table_name.as_str(), export_id, format),
                        });
                        es
                    },
                    None => Vec::new(),
                }
            },
            PaletteCommand::SwitchTable(name) => {
                let mut es = Vec::new();
                es.push(PaletteEffect::OpenTable(name));
                es
            },
            PaletteCommand::ToggleSidebar => {
                self.sidebar_visible = !self.sidebar_visible;
                Vec::new()
            },
            PaletteCommand::ToggleReadonly => {
                self.readonly = !self.readonly;
                let mut es = Vec::new();
                es.push(palette_notice(if self.readonly { "Read-only mode enabled" } else { "Read-only mode disabled" }));
                es
            },
            PaletteCommand::ResetColumnWidths => {
                let mut grid = None;
                std::mem::swap(&mut grid, &mut self.grid);
                if let Some(mut g) = grid {
                    g.reset_column_widths();
                    self.grid = Some(g);
                }
                let mut es = Vec::new();
                es.push(palette_notice("Column widths reset"));
                es
            },
            PaletteCommand::ClearFilters => {
                let mut es = Vec::new();
                es.push(PaletteEffect::Post(Message::ClearFilters));
                es.push(palette_notice("Filters cleared"));
                es
            },
            PaletteCommand::ReloadSchema => {
                let mut es = Vec::new();
                es.push(PaletteEffect::ReloadSchema);
                es
            },
            PaletteCommand::CopyCell => {
                let mut es = Vec::new();
                es.push(PaletteEffect::Interface(GridCommand::CopyCell));
                es
            },
            PaletteCommand::CopyRowJson => {
                let mut es = Vec::new();
                es.push(PaletteEffect::Interface(GridCommand::CopyRowJson));
                es
            },
            PaletteCommand::Quit => {
                self.should_quit = true;
                Vec::new()
            },
        }
    }
}

} // verus!
