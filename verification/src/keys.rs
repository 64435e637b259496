//! Which action a key press asks for, from the state the interface is in.

use vstd::prelude::*;
use crate::app::{AppMode, FocusPane};

verus! {

/// The keys the interface reacts to.
#[derive(PartialEq, Eq, Structural, Clone, Copy, Debug)]
pub enum KeyCode {
    Char(char),
    Up,
    Down,
    Left,
    Right,
    Home,
    End,
    PageUp,
    PageDown,
    Enter,
    Esc,
    Backspace,
    Tab,
    BackTab,
    Insert,
    Delete,
    Other,
}

/// No modifier held.
pub const NONE: u8 = 0;

/// The Shift modifier bit.
pub const SHIFT: u8 = 1;

/// The Control modifier bit.
pub const CONTROL: u8 = 2;

/// The Alt modifier bit.
pub const ALT: u8 = 4;

/// A key press: the key and the modifier bits held.
#[derive(PartialEq, Eq, Structural, Clone, Copy, Debug)]
pub struct KeyInput {
    pub code: KeyCode,
    pub modifiers: u8,
}

/// Control is among the modifiers held.
pub open spec fn has_control(m: u8) -> bool {
    (m / 2) % 2 == 1
}

/// Whether Control is among the modifiers held.
pub fn holds_control(m: u8) -> (r: bool)
    ensures
        r == has_control(m),
{
    (m / 2) % 2 == 1
}

/// What the interface is doing when a key arrives.
pub struct KeyContext {
    pub pending_confirm: bool,
    pub help_open: bool,
    pub mode: AppMode,
    pub has_grid: bool,
    pub active_tab: Option<usize>,
    pub open_tabs: usize,
    pub sidebar_visible: bool,
    pub focus: FocusPane,
}

/// Where a key goes.
#[derive(PartialEq, Eq, Structural, Clone, Copy, Debug)]
pub enum KeyRoute {
    ConfirmDelete,
    CancelConfirm,
    Ignore,
    OpenHelp,
    ClosePopup,
    EditKey,
    OpenCommandPalette,
    OpenFind,
    Quit,
    CloseTab(usize),
    Undo,
    ToggleSidebar,
    ActivateTab(usize),
    SetFocus(FocusPane),
    SidebarKey,
    GridKey,
}

/// The pane Tab moves to: the other one when the sidebar shows, else the
/// grid.
pub open spec fn tab_focus(sidebar_visible: bool, focus: FocusPane) -> FocusPane {
    if sidebar_visible {
        match focus {
            FocusPane::Sidebar => FocusPane::Grid,
            FocusPane::Grid => FocusPane::Sidebar,
        }
    } else {
        FocusPane::Grid
    }
}

/// Where a key goes: a pending confirmation takes `y`/`n`/Esc only; `?` and
/// Ctrl-H toggle help; in edit mode the editor takes the rest; then the
/// global shortcuts; then the focused pane.
pub open spec fn key_route(k: KeyInput, c: KeyContext) -> KeyRoute {
    if c.pending_confirm {
        match k.code {
            KeyCode::Char(ch) => if ch == 'y' || ch == 'Y' {
                KeyRoute::ConfirmDelete
            } else if ch == 'n' || ch == 'N' {
                KeyRoute::CancelConfirm
            } else {
                KeyRoute::Ignore
            },
            KeyCode::Esc => KeyRoute::CancelConfirm,
            _ => KeyRoute::Ignore,
        }
    } else if k.code == KeyCode::Char('?') || ((k.code == KeyCode::Char('h') || k.code == KeyCode::Char('H'))
        && has_control(k.modifiers)) {
        if c.help_open {
            KeyRoute::ClosePopup
        } else {
            KeyRoute::OpenHelp
        }
    } else if c.mode == AppMode::Edit {
        KeyRoute::EditKey
    } else if (k.code == KeyCode::Char('p') || k.code == KeyCode::Char('P')) && has_control(k.modifiers) {
        KeyRoute::OpenCommandPalette
    } else if k.code == KeyCode::Char('f') && has_control(k.modifiers) && c.has_grid {
        KeyRoute::OpenFind
    } else if k.code == KeyCode::Char('q') && k.modifiers == CONTROL {
        KeyRoute::Quit
    } else if k.code == KeyCode::Char('w') && k.modifiers == CONTROL && c.active_tab is Some {
        KeyRoute::CloseTab(c.active_tab->0)
    } else if k.code == KeyCode::Char('z') && k.modifiers == CONTROL {
        KeyRoute::Undo
    } else if k.code == KeyCode::Char('b') && k.modifiers == CONTROL {
        KeyRoute::ToggleSidebar
    } else if k.code matches KeyCode::Char(ch) && '1' <= ch <= '9' && k.modifiers == NONE && c.open_tabs > 0 {
        let idx = (k.code->Char_0 as int) - ('1' as int);
        if idx < c.open_tabs {
            KeyRoute::ActivateTab(idx as usize)
        } else {
            KeyRoute::Ignore
        }
    } else if k.code == KeyCode::Char('0') && k.modifiers == NONE && c.open_tabs >= 10 {
        KeyRoute::ActivateTab(9)
    } else if (k.code == KeyCode::Tab && k.modifiers == NONE) || k.code == KeyCode::BackTab {
        KeyRoute::SetFocus(tab_focus(c.sidebar_visible, c.focus))
    } else {
        match c.focus {
            FocusPane::Sidebar => KeyRoute::SidebarKey,
            FocusPane::Grid => KeyRoute::GridKey,
        }
    }
}

/// The digit's value for `'0' <= d <= '9'`.
fn digit_value(d: char) -> (v: usize)
    requires
        '0' <= d <= '9',
    ensures
        v == d as int - '0' as int,
{
    (d as u32 - '0' as u32) as usize
}

/// Where a key goes.
pub fn route_key(k: KeyInput, c: &KeyContext) -> (r: KeyRoute)
    ensures
        r == key_route(k, *c),
{
    if c.pending_confirm {
        return match k.code {
            KeyCode::Char(ch) => if ch == 'y' || ch == 'Y' {
                KeyRoute::ConfirmDelete
            } else if ch == 'n' || ch == 'N' {
                KeyRoute::CancelConfirm
            } else {
                KeyRoute::Ignore
            },
            KeyCode::Esc => KeyRoute::CancelConfirm,
            _ => KeyRoute::Ignore,
        };
    }
    let ctrl = holds_control(k.modifiers);
    if k.code == KeyCode::Char('?') || ((k.code == KeyCode::Char('h') || k.code == KeyCode::Char('H')) && ctrl) {
        return if c.help_open {
            KeyRoute::ClosePopup
        } else {
            KeyRoute::OpenHelp
        };
    }
    if c.mode == AppMode::Edit {
        return KeyRoute::EditKey;
    }
    if (k.code == KeyCode::Char('p') || k.code == KeyCode::Char('P')) && ctrl {
        return KeyRoute::OpenCommandPalette;
    }
    if k.code == KeyCode::Char('f') && ctrl && c.has_grid {
        return KeyRoute::OpenFind;
    }
    if k.code == KeyCode::Char('q') && k.modifiers == CONTROL {
        return KeyRoute::Quit;
    }
    if k.code == KeyCode::Char('w') && k.modifiers == CONTROL && c.active_tab.is_some() {
        return KeyRoute::CloseTab(c.active_tab.unwrap());
    }
    if k.code == KeyCode::Char('z') && k.modifiers == CONTROL {
        return KeyRoute::Undo;
    }
    if k.code == KeyCode::Char('b') && k.modifiers == CONTROL {
        return KeyRoute::ToggleSidebar;
    }
    if let KeyCode::Char(ch) = k.code {
        if '1' <= ch && ch <= '9' && k.modifiers == NONE && c.open_tabs > 0 {
            let idx = digit_value(ch) - 1;
            return if idx < c.open_tabs {
                KeyRoute::ActivateTab(idx)
            } else {
                KeyRoute::Ignore
            };
        }
    }
    if k.code == KeyCode::Char('0') && k.modifiers == NONE && c.open_tabs >= 10 {
        return KeyRoute::ActivateTab(9);
    }
    if (k.code == KeyCode::Tab && k.modifiers == NONE) || k.code == KeyCode::BackTab {
        let f = if c.sidebar_visible {
            match c.focus {
                FocusPane::Sidebar => FocusPane::Grid,
                FocusPane::Grid => FocusPane::Sidebar,
            }
        } else {
            FocusPane::Grid
        };
        return KeyRoute::SetFocus(f);
    }
    match c.focus {
        FocusPane::Sidebar => KeyRoute::SidebarKey,
        FocusPane::Grid => KeyRoute::GridKey,
    }
}

/// What a grid key may ask of the grid itself.
#[derive(PartialEq, Eq, Structural, Clone, Copy, Debug)]
pub enum GridCommand {
    ScrollDown(usize),
    ScrollUp(usize),
    MoveDown,
    JumpToFk,
    MoveUp,
    MoveRight,
    MoveLeft,
    MoveFirstCell,
    MoveLastCell,
    MoveColFirst,
    MoveColLast,
    OpenPopup,
    OpenDirectEdit,
    SetFocusedCellNull,
    JumpBack,
    CycleSort,
    OpenFilterPopup,
    ClearFilters,
    InsertRow,
    DeleteRow,
    CopyCell,
    CopyRowJson,
    JumpToLetter(char),
}

/// What a key in the grid does.
#[derive(PartialEq, Eq, Structural, Clone, Copy, Debug)]
pub enum GridKeyAction {
    SelectAll,
    ExtendSelectionDown,
    ExtendSelectionUp,
    ClearSelection,
    Send(GridCommand),
    Nothing,
}

/// What the grid is showing when a key arrives.
pub struct GridKeyContext {
    pub viewport_rows: usize,
    pub focused_is_fk: bool,
    pub can_set_null: bool,
    pub jump_stack_nonempty: bool,
    pub text_sort: bool,
}

/// Whether a character is alphabetic in Unicode.
pub uninterp spec fn unicode_alphabetic(c: char) -> bool;

/// Calls `char::is_alphabetic`. The contract names the Unicode property and
/// states its ASCII part: among ASCII characters only letters are
/// alphabetic.
#[verifier::external_body]
fn is_alphabetic(c: char) -> (r: bool)
    ensures
        r == unicode_alphabetic(c),
        c <= '\u{7f}' ==> (r == (('a' <= c <= 'z') || ('A' <= c <= 'Z'))),
{
    c.is_alphabetic()
}

/// Letters that are grid shortcuts rather than letter jumps.
pub open spec fn is_grid_letter(c: char) -> bool {
    c == 'j' || c == 'k' || c == 'h' || c == 'l' || c == 's' || c == 'f' || c == 'i' || c == 'd' || c == 'e'
        || c == 'n' || c == 'y'
}

/// One page less one row, at least none.
pub open spec fn page_rows(vp: usize) -> usize {
    if vp >= 1 { (vp - 1) as usize } else { 0 }
}

/// What a key in the grid does, in the order the shortcuts are tried.
pub open spec fn grid_key(k: KeyInput, c: GridKeyContext) -> GridKeyAction {
    let m = k.modifiers;
    let page = page_rows(c.viewport_rows);
    match k.code {
        KeyCode::Char(ch) => if ch == 'a' && m == CONTROL {
            GridKeyAction::SelectAll
        } else if ch == 'j' && m == NONE {
            GridKeyAction::Send(if c.focused_is_fk { GridCommand::JumpToFk } else { GridCommand::MoveDown })
        } else if ch == 'k' && m == NONE {
            GridKeyAction::Send(GridCommand::MoveUp)
        } else if ch == 'l' && m == NONE {
            GridKeyAction::Send(GridCommand::MoveRight)
        } else if ch == 'h' && m == NONE {
            GridKeyAction::Send(GridCommand::MoveLeft)
        } else if ch == 'e' && m == NONE {
            GridKeyAction::Send(GridCommand::OpenDirectEdit)
        } else if ch == 'n' && m == NONE && c.can_set_null {
            GridKeyAction::Send(GridCommand::SetFocusedCellNull)
        } else if ch == 's' && m == NONE {
            GridKeyAction::Send(GridCommand::CycleSort)
        } else if ch == 'f' && m == NONE {
            GridKeyAction::Send(GridCommand::OpenFilterPopup)
        } else if ch == 'F' && m == SHIFT {
            GridKeyAction::Send(GridCommand::ClearFilters)
        } else if ch == 'i' && m == NONE {
            GridKeyAction::Send(GridCommand::InsertRow)
        } else if ch == 'd' && m == NONE {
            GridKeyAction::Send(GridCommand::DeleteRow)
        } else if ch == 'c' && m == CONTROL {
            GridKeyAction::Send(GridCommand::CopyCell)
        } else if ch == 'y' && m == NONE {
            GridKeyAction::Send(GridCommand::CopyCell)
        } else if ch == 'Y' && m == SHIFT {
            GridKeyAction::Send(GridCommand::CopyRowJson)
        } else if m == NONE && unicode_alphabetic(ch) && !is_grid_letter(ch) {
            if c.text_sort { GridKeyAction::Send(GridCommand::JumpToLetter(ch)) } else { GridKeyAction::Nothing }
        } else if ch == '#' && m == NONE {
            if c.text_sort { GridKeyAction::Send(GridCommand::JumpToLetter('#')) } else { GridKeyAction::Nothing }
        } else {
            GridKeyAction::Nothing
        },
        KeyCode::Down => if m == SHIFT {
            GridKeyAction::ExtendSelectionDown
        } else if m == CONTROL {
            GridKeyAction::Send(GridCommand::ScrollDown(page))
        } else {
            GridKeyAction::Send(GridCommand::MoveDown)
        },
        KeyCode::Up => if m == SHIFT {
            GridKeyAction::ExtendSelectionUp
        } else if m == CONTROL {
            GridKeyAction::Send(GridCommand::ScrollUp(page))
        } else {
            GridKeyAction::Send(GridCommand::MoveUp)
        },
        KeyCode::Right => GridKeyAction::Send(GridCommand::MoveRight),
        KeyCode::Left => GridKeyAction::Send(GridCommand::MoveLeft),
        KeyCode::Home => GridKeyAction::Send(if m == CONTROL { GridCommand::MoveFirstCell } else { GridCommand::MoveColFirst }),
        KeyCode::End => GridKeyAction::Send(if m == CONTROL { GridCommand::MoveLastCell } else { GridCommand::MoveColLast }),
        KeyCode::PageDown => GridKeyAction::Send(GridCommand::ScrollDown(page)),
        KeyCode::PageUp => GridKeyAction::Send(GridCommand::ScrollUp(page)),
        KeyCode::Enter => if m == NONE { GridKeyAction::Send(GridCommand::OpenPopup) } else { GridKeyAction::Nothing },
        KeyCode::Esc => GridKeyAction::ClearSelection,
        KeyCode::Backspace => if c.jump_stack_nonempty { GridKeyAction::Send(GridCommand::JumpBack) } else { GridKeyAction::Nothing },
        KeyCode::Insert => if m == NONE { GridKeyAction::Send(GridCommand::InsertRow) } else { GridKeyAction::Nothing },
        KeyCode::Delete => if m == NONE { GridKeyAction::Send(GridCommand::DeleteRow) } else { GridKeyAction::Nothing },
        _ => GridKeyAction::Nothing,
    }
}

/// What a key in the grid does.
pub fn grid_key_action(k: KeyInput, c: &GridKeyContext) -> (r: GridKeyAction)
    ensures
        r == grid_key(k, *c),
{
    let m = k.modifiers;
    let page = c.viewport_rows.saturating_sub(1);
    match k.code {
        KeyCode::Char(ch) => if ch == 'a' && m == CONTROL {
            GridKeyAction::SelectAll
        } else if ch == 'j' && m == NONE {
            GridKeyAction::Send(if c.focused_is_fk { GridCommand::JumpToFk } else { GridCommand::MoveDown })
        } else if ch == 'k' && m == NONE {
            GridKeyAction::Send(GridCommand::MoveUp)
        } else if ch == 'l' && m == NONE {
            GridKeyAction::Send(GridCommand::MoveRight)
        } else if ch == 'h' && m == NONE {
            GridKeyAction::Send(GridCommand::MoveLeft)
        } else if ch == 'e' && m == NONE {
            GridKeyAction::Send(GridCommand::OpenDirectEdit)
        } else if ch == 'n' && m == NONE && c.can_set_null {
            GridKeyAction::Send(GridCommand::SetFocusedCellNull)
        } else if ch == 's' && m == NONE {
            GridKeyAction::Send(GridCommand::CycleSort)
        } else if ch == 'f' && m == NONE {
            GridKeyAction::Send(GridCommand::OpenFilterPopup)
        } else if ch == 'F' && m == SHIFT {
            GridKeyAction::Send(GridCommand::ClearFilters)
        } else if ch == 'i' && m == NONE {
            GridKeyAction::Send(GridCommand::InsertRow)
        } else if ch == 'd' && m == NONE {
            GridKeyAction::Send(GridCommand::DeleteRow)
        } else if ch == 'c' && m == CONTROL {
            GridKeyAction::Send(GridCommand::CopyCell)
        } else if ch == 'y' && m == NONE {
            GridKeyAction::Send(GridCommand::CopyCell)
        } else if ch == 'Y' && m == SHIFT {
            GridKeyAction::Send(GridCommand::CopyRowJson)
        } else if m == NONE && is_alphabetic(ch) && !(ch == 'j' || ch == 'k' || ch == 'h' || ch == 'l' || ch == 's'
            || ch == 'f' || ch == 'i' || ch == 'd' || ch == 'e' || ch == 'n' || ch == 'y') {
            if c.text_sort { GridKeyAction::Send(GridCommand::JumpToLetter(ch)) } else { GridKeyAction::Nothing }
        } else if ch == '#' && m == NONE {
            if c.text_sort { GridKeyAction::Send(GridCommand::JumpToLetter('#')) } else { GridKeyAction::Nothing }
        } else {
            GridKeyAction::Nothing
        },
        KeyCode::Down => if m == SHIFT {
            GridKeyAction::ExtendSelectionDown
        } else if m == CONTROL {
            GridKeyAction::Send(GridCommand::ScrollDown(page))
        } else {
            GridKeyAction::Send(GridCommand::MoveDown)
        },
        KeyCode::Up => if m == SHIFT {
            GridKeyAction::ExtendSelectionUp
        } else if m == CONTROL {
            GridKeyAction::Send(GridCommand::ScrollUp(page))
        } else {
            GridKeyAction::Send(GridCommand::MoveUp)
        },
        KeyCode::Right => GridKeyAction::Send(GridCommand::MoveRight),
        KeyCode::Left => GridKeyAction::Send(GridCommand::MoveLeft),
        KeyCode::Home => GridKeyAction::Send(if m == CONTROL { GridCommand::MoveFirstCell } else { GridCommand::MoveColFirst }),
        KeyCode::End => GridKeyAction::Send(if m == CONTROL { GridCommand::MoveLastCell } else { GridCommand::MoveColLast }),
        KeyCode::PageDown => GridKeyAction::Send(GridCommand::ScrollDown(page)),
        KeyCode::PageUp => GridKeyAction::Send(GridCommand::ScrollUp(page)),
        KeyCode::Enter => if m == NONE { GridKeyAction::Send(GridCommand::OpenPopup) } else { GridKeyAction::Nothing },
        KeyCode::Esc => GridKeyAction::ClearSelection,
        KeyCode::Backspace => if c.jump_stack_nonempty { GridKeyAction::Send(GridCommand::JumpBack) } else { GridKeyAction::Nothing },
        KeyCode::Insert => if m == NONE { GridKeyAction::Send(GridCommand::InsertRow) } else { GridKeyAction::Nothing },
        KeyCode::Delete => if m == NONE { GridKeyAction::Send(GridCommand::DeleteRow) } else { GridKeyAction::Nothing },
        _ => GridKeyAction::Nothing,
    }
}

} // verus!
