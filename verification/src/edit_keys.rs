//! What a key does while a popup edits something: the text editor, the
//! value, date, date-time and foreign-key pickers, the insert row, the
//! filter editor, the command palette, the help and the find box. The
//! answer names the editor operation to run on the popup's own state.

use vstd::prelude::*;
use crate::keys::{KeyCode, KeyInput, NONE, SHIFT};

verus! {

/// Where the filter editor's focus is.
#[derive(PartialEq, Eq, Structural, Clone, Copy, Debug)]
pub enum FilterFocus {
    RuleList,
    Operator,
    Value,
}

/// The open popup, as far as keys are concerned.
#[derive(PartialEq, Eq, Structural, Clone, Copy, Debug)]
pub enum EditorView {
    Nothing,
    TextEditor { multiline: bool },
    ValuePicker,
    /// A date picker; `calendar` when the calendar has the focus.
    DatePicker { calendar: bool },
    DatetimePicker { calendar: bool },
    InsertRow,
    FkPicker,
    Filter { focus: FilterFocus },
    CommandPalette,
    Help,
    Find,
}

/// What a key does in a popup.
#[derive(PartialEq, Eq, Structural, Clone, Copy, Debug)]
pub enum EditAction {
    /// No popup is open: back to browsing.
    Browse,
    CommitInsertRow,
    CommitEdit,
    ClosePopup,
    /// Close the popup at once (the filter editor).
    FinishPopup,
    InsertChar(char),
    /// Insert two spaces.
    Indent,
    DeleteBackward,
    CursorLeft,
    CursorRight,
    CursorUp,
    CursorDown,
    ScrollUp(usize),
    ScrollDown(usize),
    MoveUp,
    MoveDown,
    PushFilterChar(char),
    PopFilterChar,
    PrevMonth,
    NextMonth,
    CalendarLeft,
    CalendarRight,
    FocusPrev,
    FocusNext,
    /// Move the picked day by this many days.
    MoveDay(i8),
    /// Step the focused date part by this much.
    AdjustFocused(i8),
    ClearValue,
    /// Go to the next (or previous) field, editing it.
    NextField,
    PrevField,
    ResetField,
    FocusValue,
    AddRule,
    SelectPrevRule,
    SelectNextRule,
    PrevOp,
    NextOp,
    ToggleRule,
    DeleteRule,
    PushChar(char),
    PopChar,
    RunSelectedCommand,
    /// A key for the help popup (see `HelpState::handle_key`).
    Help(KeyCode),
    CommitFind,
    Nothing,
}

/// No modifier or only Shift.
pub open spec fn plain_or_shift(m: u8) -> bool {
    m == NONE || m == SHIFT
}

/// Alt is among the modifiers.
pub open spec fn has_alt(m: u8) -> bool {
    (m / 4) % 2 == 1
}

/// Control is among the modifiers.
pub open spec fn has_ctrl(m: u8) -> bool {
    (m / 2) % 2 == 1
}

/// A date picker's answer to key `c`.
pub open spec fn date_key(calendar: bool, c: KeyCode) -> EditAction {
    match c {
        KeyCode::Esc => EditAction::ClosePopup,
        KeyCode::Enter => EditAction::CommitEdit,
        KeyCode::PageUp => EditAction::PrevMonth,
        KeyCode::PageDown => EditAction::NextMonth,
        KeyCode::Left => if calendar { EditAction::CalendarLeft } else { EditAction::FocusPrev },
        KeyCode::Right => if calendar { EditAction::CalendarRight } else { EditAction::FocusNext },
        KeyCode::Up => if calendar { EditAction::MoveDay(-7i8) } else { EditAction::AdjustFocused(1i8) },
        KeyCode::Down => if calendar { EditAction::MoveDay(7i8) } else { EditAction::AdjustFocused(-1i8) },
        KeyCode::Tab => EditAction::FocusNext,
        KeyCode::BackTab => EditAction::FocusPrev,
        KeyCode::Delete => EditAction::ClearValue,
        _ => EditAction::Nothing,
    }
}

/// What key `k` does in popup `v`: Alt+Enter commits an insert row, and
/// Control+Enter commits a picker, before the popup's own keys.
pub open spec fn edit_key(v: EditorView, k: KeyInput) -> EditAction {
    let m = k.modifiers;
    if k.code == KeyCode::Enter && has_alt(m) && v == EditorView::InsertRow {
        EditAction::CommitInsertRow
    } else if k.code == KeyCode::Enter && has_ctrl(m) && (v == EditorView::ValuePicker || v is DatePicker
        || v is DatetimePicker || v == EditorView::FkPicker) {
        EditAction::CommitEdit
    } else {
        match v {
            EditorView::Nothing => EditAction::Browse,
            EditorView::TextEditor { multiline } => match k.code {
                KeyCode::Esc => EditAction::ClosePopup,
                KeyCode::Enter => if has_alt(m) && multiline {
                    EditAction::InsertChar('\n')
                } else if plain_or_shift(m) {
                    EditAction::CommitEdit
                } else {
                    EditAction::Nothing
                },
                KeyCode::Tab => if multiline { EditAction::Indent } else { EditAction::Nothing },
                KeyCode::Char(c) => if plain_or_shift(m) { EditAction::InsertChar(c) } else { EditAction::Nothing },
                KeyCode::Backspace => EditAction::DeleteBackward,
                KeyCode::Left => EditAction::CursorLeft,
                KeyCode::Right => EditAction::CursorRight,
                KeyCode::Up => if multiline { EditAction::CursorUp } else { EditAction::Nothing },
                KeyCode::Down => if multiline { EditAction::CursorDown } else { EditAction::Nothing },
                KeyCode::PageUp => if multiline { EditAction::ScrollUp(6usize) } else { EditAction::Nothing },
                KeyCode::PageDown => if multiline { EditAction::ScrollDown(6usize) } else { EditAction::Nothing },
                _ => EditAction::Nothing,
            },
            EditorView::ValuePicker | EditorView::FkPicker => match k.code {
                KeyCode::Esc => EditAction::ClosePopup,
                KeyCode::Enter => EditAction::CommitEdit,
                KeyCode::Up => EditAction::MoveUp,
                KeyCode::Down => EditAction::MoveDown,
                KeyCode::Char(c) => if plain_or_shift(m) { EditAction::PushFilterChar(c) } else { EditAction::Nothing },
                KeyCode::Backspace => EditAction::PopFilterChar,
                _ => EditAction::Nothing,
            },
            EditorView::DatePicker { calendar } => date_key(calendar, k.code),
            EditorView::DatetimePicker { calendar } => date_key(calendar, k.code),
            EditorView::InsertRow => match k.code {
                KeyCode::Esc => EditAction::ClosePopup,
                KeyCode::Enter | KeyCode::Tab | KeyCode::Down => EditAction::NextField,
                KeyCode::BackTab | KeyCode::Up => EditAction::PrevField,
                KeyCode::Left => EditAction::CursorLeft,
                KeyCode::Right => EditAction::CursorRight,
                KeyCode::Backspace => EditAction::DeleteBackward,
                KeyCode::Delete => EditAction::ResetField,
                KeyCode::Char(c) => if plain_or_shift(m) { EditAction::InsertChar(c) } else { EditAction::Nothing },
                _ => EditAction::Nothing,
            },
            EditorView::Filter { focus } => match k.code {
                KeyCode::Esc => EditAction::FinishPopup,
                KeyCode::Enter => if focus == FilterFocus::Value { EditAction::AddRule } else { EditAction::FocusValue },
                KeyCode::Up => if focus == FilterFocus::RuleList { EditAction::SelectPrevRule } else { EditAction::PrevOp },
                KeyCode::Down => if focus == FilterFocus::RuleList { EditAction::SelectNextRule } else { EditAction::NextOp },
                KeyCode::Left => if focus == FilterFocus::Value { EditAction::CursorLeft } else { EditAction::Nothing },
                KeyCode::Right => if focus == FilterFocus::Value { EditAction::CursorRight } else { EditAction::Nothing },
                KeyCode::Tab => EditAction::FocusNext,
                KeyCode::BackTab => EditAction::FocusPrev,
                KeyCode::Delete => if focus == FilterFocus::RuleList { EditAction::DeleteRule } else { EditAction::Nothing },
                KeyCode::Backspace => if focus == FilterFocus::RuleList {
                    EditAction::DeleteRule
                } else if focus == FilterFocus::Value {
                    EditAction::PopChar
                } else {
                    EditAction::Nothing
                },
                KeyCode::Char(c) => if c == ' ' && focus == FilterFocus::RuleList {
                    EditAction::ToggleRule
                } else if c == ' ' && focus == FilterFocus::Operator {
                    EditAction::NextOp
                } else if focus == FilterFocus::Value && plain_or_shift(m) {
                    EditAction::PushChar(c)
                } else {
                    EditAction::Nothing
                },
                _ => EditAction::Nothing,
            },
            EditorView::CommandPalette => match k.code {
                KeyCode::Esc => EditAction::ClosePopup,
                KeyCode::Enter => EditAction::RunSelectedCommand,
                KeyCode::Up => EditAction::MoveUp,
                KeyCode::Down => EditAction::MoveDown,
                KeyCode::Char(c) => EditAction::PushChar(c),
                KeyCode::Backspace => EditAction::PopChar,
                _ => EditAction::Nothing,
            },
            EditorView::Help => EditAction::Help(k.code),
            EditorView::Find => match k.code {
                KeyCode::Esc => EditAction::ClosePopup,
                KeyCode::Enter => EditAction::CommitFind,
                KeyCode::Up => EditAction::MoveUp,
                KeyCode::Down => EditAction::MoveDown,
                KeyCode::Char(c) => if plain_or_shift(m) { EditAction::PushChar(c) } else { EditAction::Nothing },
                KeyCode::Backspace => EditAction::PopChar,
                _ => EditAction::Nothing,
            },
        }
    }
}

/// A date picker's answer to key `c`.
fn date_key_action(calendar: bool, c: KeyCode) -> (r: EditAction)
    ensures
        r == date_key(calendar, c),
{
    match c {
        KeyCode::Esc => EditAction::ClosePopup,
        KeyCode::Enter => EditAction::CommitEdit,
        KeyCode::PageUp => EditAction::PrevMonth,
        KeyCode::PageDown => EditAction::NextMonth,
        KeyCode::Left => if calendar { EditAction::CalendarLeft } else { EditAction::FocusPrev },
        KeyCode::Right => if calendar { EditAction::CalendarRight } else { EditAction::FocusNext },
        KeyCode::Up => if calendar { EditAction::MoveDay(-7i8) } else { EditAction::AdjustFocused(1i8) },
        KeyCode::Down => if calendar { EditAction::MoveDay(7i8) } else { EditAction::AdjustFocused(-1i8) },
        KeyCode::Tab => EditAction::FocusNext,
        KeyCode::BackTab => EditAction::FocusPrev,
        KeyCode::Delete => EditAction::ClearValue,
        _ => EditAction::Nothing,
    }
}

/// What key `k` does in popup `v`.
pub fn edit_key_action(v: EditorView, k: KeyInput) -> (r: EditAction)
    ensures
        r == edit_key(v, k),
{
    let m = k.modifiers;
    let alt = (m / 4) % 2 == 1;
    let ctrl = (m / 2) % 2 == 1;
    let plain = m == NONE || m == SHIFT;
    let is_enter = match k.code {
        KeyCode::Enter => true,
        _ => false,
    };
    if is_enter && alt && v == EditorView::InsertRow {
        return EditAction::CommitInsertRow;
    }
    let picker = match v {
        EditorView::ValuePicker | EditorView::DatePicker { .. } | EditorView::DatetimePicker { .. }
        | EditorView::FkPicker => true,
        _ => false,
    };
    if is_enter && ctrl && picker {
        return EditAction::CommitEdit;
    }
    match v {
        EditorView::Nothing => EditAction::Browse,
        EditorView::TextEditor { multiline } => match k.code {
            KeyCode::Esc => EditAction::ClosePopup,
            KeyCode::Enter => if alt && multiline {
                EditAction::InsertChar('\n')
            } else if plain {
                EditAction::CommitEdit
            } else {
                EditAction::Nothing
            },
            KeyCode::Tab => if multiline { EditAction::Indent } else { EditAction::Nothing },
            KeyCode::Char(c) => if plain { EditAction::InsertChar(c) } else { EditAction::Nothing },
            KeyCode::Backspace => EditAction::DeleteBackward,
            KeyCode::Left => EditAction::CursorLeft,
            KeyCode::Right => EditAction::CursorRight,
            KeyCode::Up => if multiline { EditAction::CursorUp } else { EditAction::Nothing },
            KeyCode::Down => if multiline { EditAction::CursorDown } else { EditAction::Nothing },
            KeyCode::PageUp => if multiline { EditAction::ScrollUp(6usize) } else { EditAction::Nothing },
            KeyCode::PageDown => if multiline { EditAction::ScrollDown(6usize) } else { EditAction::Nothing },
            _ => EditAction::Nothing,
        },
        EditorView::ValuePicker | EditorView::FkPicker => match k.code {
            KeyCode::Esc => EditAction::ClosePopup,
            KeyCode::Enter => EditAction::CommitEdit,
            KeyCode::Up => EditAction::MoveUp,
            KeyCode::Down => EditAction::MoveDown,
            KeyCode::Char(c) => if plain { EditAction::PushFilterChar(c) } else { EditAction::Nothing },
            KeyCode::Backspace => EditAction::PopFilterChar,
            _ => EditAction::Nothing,
        },
        EditorView::DatePicker { calendar } => date_key_action(calendar, k.code),
        EditorView::DatetimePicker { calendar } => date_key_action(calendar, k.code),
        EditorView::InsertRow => match k.code {
            KeyCode::Esc => EditAction::ClosePopup,
            KeyCode::Enter | KeyCode::Tab | KeyCode::Down => EditAction::NextField,
            KeyCode::BackTab | KeyCode::Up => EditAction::PrevField,
            KeyCode::Left => EditAction::CursorLeft,
            KeyCode::Right => EditAction::CursorRight,
            KeyCode::Backspace => EditAction::DeleteBackward,
            KeyCode::Delete => EditAction::ResetField,
            KeyCode::Char(c) => if plain { EditAction::InsertChar(c) } else { EditAction::Nothing },
            _ => EditAction::Nothing,
        },
        EditorView::Filter { focus } => {
            let on_list = focus == FilterFocus::RuleList;
            let on_value = focus == FilterFocus::Value;
            let on_op = focus == FilterFocus::Operator;
            match k.code {
                KeyCode::Esc => EditAction::FinishPopup,
                KeyCode::Enter => if on_value { EditAction::AddRule } else { EditAction::FocusValue },
                KeyCode::Up => if on_list { EditAction::SelectPrevRule } else { EditAction::PrevOp },
                KeyCode::Down => if on_list { EditAction::SelectNextRule } else { EditAction::NextOp },
                KeyCode::Left => if on_value { EditAction::CursorLeft } else { EditAction::Nothing },
                KeyCode::Right => if on_value { EditAction::CursorRight } else { EditAction::Nothing },
                KeyCode::Tab => EditAction::FocusNext,
                KeyCode::BackTab => EditAction::FocusPrev,
                KeyCode::Delete => if on_list { EditAction::DeleteRule } else { EditAction::Nothing },
                KeyCode::Backspace => if on_list {
                    EditAction::DeleteRule
                } else if on_value {
                    EditAction::PopChar
                } else {
                    EditAction::Nothing
                },
                KeyCode::Char(c) => if c == ' ' && on_list {
                    EditAction::ToggleRule
                } else if c == ' ' && on_op {
                    EditAction::NextOp
                } else if on_value && plain {
                    EditAction::PushChar(c)
                } else {
                    EditAction::Nothing
                },
                _ => EditAction::Nothing,
            }
        },
        EditorView::CommandPalette => match k.code {
            KeyCode::Esc => EditAction::ClosePopup,
            KeyCode::Enter => EditAction::RunSelectedCommand,
            KeyCode::Up => EditAction::MoveUp,
            KeyCode::Down => EditAction::MoveDown,
            KeyCode::Char(c) => EditAction::PushChar(c),
            KeyCode::Backspace => EditAction::PopChar,
            _ => EditAction::Nothing,
        },
        EditorView::Help => EditAction::Help(k.code),
        EditorView::Find => match k.code {
            KeyCode::Esc => EditAction::ClosePopup,
            KeyCode::Enter => EditAction::CommitFind,
            KeyCode::Up => EditAction::MoveUp,
            KeyCode::Down => EditAction::MoveDown,
            KeyCode::Char(c) => if plain { EditAction::PushChar(c) } else { EditAction::Nothing },
            KeyCode::Backspace => EditAction::PopChar,
            _ => EditAction::Nothing,
        },
    }
}

} // verus!
