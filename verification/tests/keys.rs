use sqview::app::{AppMode, FocusPane, HelpState};
use sqview::grid::{GridInit, GridState, RowSelection};
use sqview::value::{Column, SqlValue};
use sqview::keys::{
    grid_key_action, route_key, GridCommand, GridKeyAction, GridKeyContext, KeyCode, KeyContext, KeyInput, KeyRoute,
    ALT, CONTROL, NONE, SHIFT,
};

fn key(code: KeyCode, modifiers: u8) -> KeyInput {
    KeyInput { code, modifiers }
}

fn ctx() -> KeyContext {
    KeyContext {
        pending_confirm: false,
        help_open: false,
        mode: AppMode::Browse,
        has_grid: true,
        active_tab: Some(0),
        open_tabs: 1,
        sidebar_visible: true,
        focus: FocusPane::Grid,
    }
}

fn grid_ctx() -> GridKeyContext {
    GridKeyContext {
        viewport_rows: 20,
        focused_is_fk: false,
        can_set_null: false,
        jump_stack_nonempty: false,
        text_sort: false,
    }
}

fn grid(code: KeyCode, modifiers: u8) -> GridKeyAction {
    grid_key_action(key(code, modifiers), &grid_ctx())
}

/// A key pressed in browse mode with the grid focused: the router hands it
/// to the grid, which decides.
fn grid_pane_key(code: KeyCode, modifiers: u8, c: &GridKeyContext) -> GridKeyAction {
    assert_eq!(route_key(key(code, modifiers), &ctx()), KeyRoute::GridKey);
    grid_key_action(key(code, modifiers), c)
}

fn sends(code: KeyCode, modifiers: u8) -> GridKeyAction {
    grid_pane_key(code, modifiers, &grid_ctx())
}

#[test]
fn ctrl_q_routes_to_quit() {
    assert_eq!(route_key(key(KeyCode::Char('q'), CONTROL), &ctx()), KeyRoute::Quit);
}

#[test]
fn ctrl_b_routes_to_sidebar_toggle() {
    assert_eq!(route_key(key(KeyCode::Char('b'), CONTROL), &ctx()), KeyRoute::ToggleSidebar);
}

#[test]
fn ctrl_w_closes_current_tab() {
    assert_eq!(route_key(key(KeyCode::Char('w'), CONTROL), &ctx()), KeyRoute::CloseTab(0));
    let mut no_tab = ctx();
    no_tab.active_tab = None;
    assert_eq!(route_key(key(KeyCode::Char('w'), CONTROL), &no_tab), KeyRoute::GridKey);
}

#[test]
fn tab_toggles_focus_sidebar_to_grid() {
    let mut c = ctx();
    c.focus = FocusPane::Sidebar;
    assert_eq!(route_key(key(KeyCode::Tab, NONE), &c), KeyRoute::SetFocus(FocusPane::Grid));
    c.sidebar_visible = false;
    assert_eq!(route_key(key(KeyCode::Tab, NONE), &c), KeyRoute::SetFocus(FocusPane::Grid));
}

#[test]
fn backtab_toggles_focus() {
    assert_eq!(route_key(key(KeyCode::BackTab, SHIFT), &ctx()), KeyRoute::SetFocus(FocusPane::Sidebar));
}

#[test]
fn question_mark_opens_and_closes_help() {
    assert_eq!(route_key(key(KeyCode::Char('?'), NONE), &ctx()), KeyRoute::OpenHelp);
    let mut open = ctx();
    open.help_open = true;
    assert_eq!(route_key(key(KeyCode::Char('?'), NONE), &open), KeyRoute::ClosePopup);
}

#[test]
fn ctrl_p_opens_command_palette() {
    assert_eq!(route_key(key(KeyCode::Char('p'), CONTROL), &ctx()), KeyRoute::OpenCommandPalette);
    assert_eq!(route_key(key(KeyCode::Char('P'), CONTROL | SHIFT), &ctx()), KeyRoute::OpenCommandPalette);
}

#[test]
fn ctrl_h_opens_help() {
    assert_eq!(route_key(key(KeyCode::Char('h'), CONTROL), &ctx()), KeyRoute::OpenHelp);
}

#[test]
fn y_confirm_and_n_cancel_in_confirm_dialog() {
    let mut c = ctx();
    c.pending_confirm = true;
    assert_eq!(route_key(key(KeyCode::Char('y'), NONE), &c), KeyRoute::ConfirmDelete);
    assert_eq!(route_key(key(KeyCode::Char('N'), SHIFT), &c), KeyRoute::CancelConfirm);
    assert_eq!(route_key(key(KeyCode::Char('q'), CONTROL), &c), KeyRoute::Ignore);
}

#[test]
fn esc_cancels_confirm_dialog() {
    let mut c = ctx();
    c.pending_confirm = true;
    assert_eq!(route_key(key(KeyCode::Esc, NONE), &c), KeyRoute::CancelConfirm);
}

#[test]
fn digits_activate_tabs() {
    let mut c = ctx();
    c.open_tabs = 3;
    assert_eq!(route_key(key(KeyCode::Char('2'), NONE), &c), KeyRoute::ActivateTab(1));
    assert_eq!(route_key(key(KeyCode::Char('5'), NONE), &c), KeyRoute::Ignore);
    assert_eq!(route_key(key(KeyCode::Char('0'), NONE), &c), KeyRoute::GridKey);
    c.open_tabs = 10;
    assert_eq!(route_key(key(KeyCode::Char('0'), NONE), &c), KeyRoute::ActivateTab(9));
    c.open_tabs = 0;
    assert_eq!(route_key(key(KeyCode::Char('1'), NONE), &c), KeyRoute::GridKey);
}

#[test]
fn edit_mode_takes_keys_after_help() {
    let mut c = ctx();
    c.mode = AppMode::Edit;
    assert_eq!(route_key(key(KeyCode::Char('q'), CONTROL), &c), KeyRoute::EditKey);
    assert_eq!(route_key(key(KeyCode::Char('?'), NONE), &c), KeyRoute::OpenHelp);
}

#[test]
fn arrow_down_sends_move_down() {
    assert_eq!(grid(KeyCode::Down, NONE), GridKeyAction::Send(GridCommand::MoveDown));
}

#[test]
fn arrow_up_sends_move_up() {
    assert_eq!(grid(KeyCode::Up, NONE), GridKeyAction::Send(GridCommand::MoveUp));
}

#[test]
fn shift_down_selects_rows_from_focused_row() {
    let mut g = users_grid();
    assert_eq!(grid_pane_key(KeyCode::Down, SHIFT, &grid_ctx()), GridKeyAction::ExtendSelectionDown);
    g.extend_row_selection_down(1);
    assert_eq!(g.focused_row, 1);
    assert_eq!(g.row_selection, RowSelection::Rows(vec![0]));
}

#[test]
fn shift_up_extends_selection_toward_previous_rows() {
    let mut g = users_grid();
    g.focused_row = 3;
    assert_eq!(grid_pane_key(KeyCode::Up, SHIFT, &grid_ctx()), GridKeyAction::ExtendSelectionUp);
    g.extend_row_selection_up(1);
    assert_eq!(g.focused_row, 2);
    assert_eq!(g.row_selection, RowSelection::Rows(vec![3]));
}

#[test]
fn ctrl_a_selects_all_rows_in_grid() {
    assert_eq!(grid(KeyCode::Char('a'), CONTROL), GridKeyAction::SelectAll);
}

#[test]
fn vim_hjkl_navigation() {
    assert_eq!(grid(KeyCode::Char('h'), NONE), GridKeyAction::Send(GridCommand::MoveLeft));
    assert_eq!(grid(KeyCode::Char('j'), NONE), GridKeyAction::Send(GridCommand::MoveDown));
    assert_eq!(grid(KeyCode::Char('k'), NONE), GridKeyAction::Send(GridCommand::MoveUp));
    assert_eq!(grid(KeyCode::Char('l'), NONE), GridKeyAction::Send(GridCommand::MoveRight));
}

#[test]
fn j_on_fk_col_sends_jump_to_fk() {
    let mut c = grid_ctx();
    c.focused_is_fk = true;
    assert_eq!(grid_key_action(key(KeyCode::Char('j'), NONE), &c), GridKeyAction::Send(GridCommand::JumpToFk));
}

#[test]
fn n_in_grid_sends_set_focused_cell_null_when_allowed() {
    let mut c = grid_ctx();
    c.can_set_null = true;
    assert_eq!(
        grid_key_action(key(KeyCode::Char('n'), NONE), &c),
        GridKeyAction::Send(GridCommand::SetFocusedCellNull)
    );
    assert_eq!(grid(KeyCode::Char('n'), NONE), GridKeyAction::Nothing);
}

#[test]
fn backspace_with_jump_stack_sends_jump_back() {
    let mut c = grid_ctx();
    c.jump_stack_nonempty = true;
    assert_eq!(grid_key_action(key(KeyCode::Backspace, NONE), &c), GridKeyAction::Send(GridCommand::JumpBack));
    assert_eq!(grid(KeyCode::Backspace, NONE), GridKeyAction::Nothing);
}

#[test]
fn letter_key_on_text_sorted_column_sends_jump_to_letter() {
    let mut c = grid_ctx();
    c.text_sort = true;
    assert_eq!(
        grid_key_action(key(KeyCode::Char('m'), NONE), &c),
        GridKeyAction::Send(GridCommand::JumpToLetter('m'))
    );
    assert_eq!(
        grid_key_action(key(KeyCode::Char('#'), NONE), &c),
        GridKeyAction::Send(GridCommand::JumpToLetter('#'))
    );
    assert_eq!(grid(KeyCode::Char('m'), NONE), GridKeyAction::Nothing);
}

#[test]
fn arrow_left_sends_move_left() {
    assert_eq!(sends(KeyCode::Left, NONE), GridKeyAction::Send(GridCommand::MoveLeft));
}

#[test]
fn arrow_right_sends_move_right() {
    assert_eq!(sends(KeyCode::Right, NONE), GridKeyAction::Send(GridCommand::MoveRight));
}

#[test]
fn home_sends_move_col_first() {
    assert_eq!(sends(KeyCode::Home, NONE), GridKeyAction::Send(GridCommand::MoveColFirst));
}

#[test]
fn end_sends_move_col_last() {
    assert_eq!(sends(KeyCode::End, NONE), GridKeyAction::Send(GridCommand::MoveColLast));
}

#[test]
fn ctrl_home_sends_move_first_cell() {
    assert_eq!(sends(KeyCode::Home, CONTROL), GridKeyAction::Send(GridCommand::MoveFirstCell));
}

#[test]
fn ctrl_end_sends_move_last_cell() {
    assert_eq!(sends(KeyCode::End, CONTROL), GridKeyAction::Send(GridCommand::MoveLastCell));
}

#[test]
fn page_down_scrolls_viewport() {
    assert_eq!(sends(KeyCode::PageDown, NONE), GridKeyAction::Send(GridCommand::ScrollDown(grid_ctx().viewport_rows - 1)));
}

#[test]
fn page_up_scrolls_viewport() {
    assert_eq!(sends(KeyCode::PageUp, NONE), GridKeyAction::Send(GridCommand::ScrollUp(grid_ctx().viewport_rows - 1)));
}

#[test]
fn ctrl_up_scrolls_viewport() {
    assert_eq!(sends(KeyCode::Up, CONTROL), GridKeyAction::Send(GridCommand::ScrollUp(grid_ctx().viewport_rows - 1)));
}

#[test]
fn ctrl_down_scrolls_viewport() {
    assert_eq!(sends(KeyCode::Down, CONTROL), GridKeyAction::Send(GridCommand::ScrollDown(grid_ctx().viewport_rows - 1)));
}

#[test]
fn s_key_sends_cycle_sort() {
    assert_eq!(sends(KeyCode::Char('s'), NONE), GridKeyAction::Send(GridCommand::CycleSort));
}

#[test]
fn f_key_sends_open_filter_popup() {
    assert_eq!(sends(KeyCode::Char('f'), NONE), GridKeyAction::Send(GridCommand::OpenFilterPopup));
}

#[test]
fn shift_f_sends_clear_filters() {
    assert_eq!(sends(KeyCode::Char('F'), SHIFT), GridKeyAction::Send(GridCommand::ClearFilters));
}

#[test]
fn i_key_in_grid_sends_insert_row() {
    assert_eq!(sends(KeyCode::Char('i'), NONE), GridKeyAction::Send(GridCommand::InsertRow));
}

#[test]
fn insert_key_in_grid_sends_insert_row() {
    assert_eq!(sends(KeyCode::Insert, NONE), GridKeyAction::Send(GridCommand::InsertRow));
}

#[test]
fn d_key_in_grid_shows_confirm_dialog() {
    assert_eq!(sends(KeyCode::Char('d'), NONE), GridKeyAction::Send(GridCommand::DeleteRow));
}

#[test]
fn delete_key_in_grid_sends_delete_row() {
    assert_eq!(sends(KeyCode::Delete, NONE), GridKeyAction::Send(GridCommand::DeleteRow));
}

#[test]
fn y_in_grid_sends_copy_cell() {
    assert_eq!(sends(KeyCode::Char('y'), NONE), GridKeyAction::Send(GridCommand::CopyCell));
}

#[test]
fn ctrl_c_in_grid_sends_copy_cell() {
    assert_eq!(sends(KeyCode::Char('c'), CONTROL), GridKeyAction::Send(GridCommand::CopyCell));
}

#[test]
fn shift_y_in_grid_sends_copy_row_json() {
    assert_eq!(sends(KeyCode::Char('Y'), SHIFT), GridKeyAction::Send(GridCommand::CopyRowJson));
}

#[test]
fn enter_in_grid_sends_open_popup() {
    assert_eq!(sends(KeyCode::Enter, NONE), GridKeyAction::Send(GridCommand::OpenPopup));
}

#[test]
fn e_in_grid_sends_open_direct_edit() {
    assert_eq!(sends(KeyCode::Char('e'), NONE), GridKeyAction::Send(GridCommand::OpenDirectEdit));
}

#[test]
fn ctrl_z_sends_undo_action() {
    assert_eq!(route_key(key(KeyCode::Char('z'), CONTROL), &ctx()), KeyRoute::Undo);
}

#[test]
fn backspace_without_jump_stack_is_noop() {
    let c = grid_ctx();
    assert!(!c.jump_stack_nonempty);
    let action = grid_pane_key(KeyCode::Backspace, NONE, &c);
    assert_ne!(action, GridKeyAction::Send(GridCommand::JumpBack));
}

#[test]
fn n_in_grid_does_nothing_when_cell_cannot_be_null() {
    let mut c = grid_ctx();
    c.can_set_null = false;
    assert_eq!(grid_pane_key(KeyCode::Char('n'), NONE, &c), GridKeyAction::Nothing);
}

#[test]
fn hash_key_on_text_sorted_column_sends_jump_to_letter() {
    let mut c = grid_ctx();
    c.text_sort = true;
    assert_eq!(
        grid_pane_key(KeyCode::Char('#'), NONE, &c),
        GridKeyAction::Send(GridCommand::JumpToLetter('#'))
    );
}

#[test]
fn letter_key_without_text_sort_does_nothing() {
    let mut c = grid_ctx();
    c.text_sort = false;
    let action = grid_pane_key(KeyCode::Char('a'), NONE, &c);
    assert!(!matches!(action, GridKeyAction::Send(GridCommand::JumpToLetter(_))));
}

fn users_grid() -> GridState {
    GridState::new(GridInit {
        table_name: "users".to_string(),
        columns: vec![Column {
            cid: 0,
            name: "name".to_string(),
            col_type: "TEXT".to_string(),
            not_null: false,
            default_value: None,
            is_pk: false,
            pk_position: 0,
            writable: true,
        }],
        fk_cols: vec![false],
        enumerated_values: vec![Vec::new()],
        rows: vec![vec![SqlValue::Text("x".to_string())]; 50],
        width_sample_rows: vec![],
        total_rows: 50,
        area_width: 40,
    })
}

#[test]
fn esc_in_grid_clears_selection() {
    let mut g = users_grid();
    g.select_only_row(2);
    assert!(g.has_row_selection());
    let focus = route_key(key(KeyCode::Esc, NONE), &ctx());
    assert_eq!(focus, KeyRoute::GridKey);
    match grid_key_action(key(KeyCode::Esc, NONE), &grid_ctx()) {
        GridKeyAction::ClearSelection => g.clear_row_selection(),
        other => panic!("unexpected {:?}", other),
    }
    assert_eq!(g.row_selection, RowSelection::Empty);
    assert_eq!(ctx().focus, FocusPane::Grid);
    assert_eq!(grid(KeyCode::Char('x'), ALT), GridKeyAction::Nothing);
}

fn help_ctx() -> KeyContext {
    let mut c = ctx();
    c.help_open = true;
    c.mode = AppMode::Edit;
    c
}

#[test]
fn help_up_down_keys_scroll_in_edit_mode() {
    let mut state = HelpState::new();
    state.max_scroll = 10;
    assert_eq!(route_key(key(KeyCode::Down, NONE), &help_ctx()), KeyRoute::EditKey);
    assert!(!state.handle_key(KeyCode::Down));
    assert_eq!(state.scroll, 3);
    assert_eq!(route_key(key(KeyCode::Up, NONE), &help_ctx()), KeyRoute::EditKey);
    assert!(!state.handle_key(KeyCode::Up));
    assert_eq!(state.scroll, 0);
}

#[test]
fn help_page_up_down_scrolls_faster() {
    let mut state = HelpState::new();
    state.max_scroll = 30;
    assert_eq!(route_key(key(KeyCode::PageDown, NONE), &help_ctx()), KeyRoute::EditKey);
    assert!(!state.handle_key(KeyCode::PageDown));
    assert_eq!(state.scroll, 10);
}

#[test]
fn esc_in_help_closes_popup() {
    let mut state = HelpState::new();
    assert_eq!(route_key(key(KeyCode::Esc, NONE), &help_ctx()), KeyRoute::EditKey);
    assert!(state.handle_key(KeyCode::Esc));
}

#[test]
fn ctrl_enter_in_help_is_noop() {
    let mut state = HelpState::new();
    state.max_scroll = 5;
    assert_eq!(route_key(key(KeyCode::Enter, CONTROL), &help_ctx()), KeyRoute::EditKey);
    assert!(!state.handle_key(KeyCode::Enter));
    assert_eq!(state.scroll, 0);
}
