//! The interface's own state and rules: tabs, pending confirmations, undo
//! frames, help scrolling, enumerated values, clipboard encoding and the
//! letter-jump query.

use vstd::prelude::*;
use crate::filter::{filter_sql, filter_to_sql, placeholder, values_view, FilterError, FilterSet};
use crate::grid::{GridState, RowSelection};
use crate::keys::KeyCode;
use crate::grid::virtual_scroll::as_i64;
use crate::query::{quote_identifier, quoted};
use crate::text::{same_text, i64_to_decimal, int_decimal, nat_decimal, push_char, push_decimal, push_decimal_wide, push_str, string_of};
use crate::sorted::{insert_sorted, sorted_listing, strictly_sorted, texts_of};
use crate::value::{clone_value, Column, SqlValue, ValueModel};

verus! {

/// Whether the interface browses or edits.
#[derive(PartialEq, Eq, Structural, Clone, Copy, Debug)]
pub enum AppMode {
    Browse,
    Edit,
}

/// The pane that takes keys.
#[derive(PartialEq, Eq, Structural, Clone, Copy, Debug)]
pub enum FocusPane {
    Sidebar,
    Grid,
}

/// Where a foreign-key jump came from, to jump back to.
pub struct JumpFrame {
    pub table: String,
    pub rowid: i64,
    pub col: usize,
}

/// A row to focus once its table has loaded.
pub struct PendingJumpTarget {
    pub table: String,
    pub rowid: i64,
    pub col: Option<usize>,
}

/// An open tab.
pub struct TableTab {
    pub table_name: String,
}

/// The kind of write an undo frame reverts.
#[derive(PartialEq, Eq, Structural, Clone, Copy, Debug)]
pub enum UndoOp {
    Update,
    Insert,
    Delete,
}

/// What reverts one write: the row and the column values before it.
pub struct UndoFrame {
    pub op: UndoOp,
    pub table: String,
    pub rowid: i64,
    pub cols: Vec<(String, SqlValue)>,
}

/// A destructive action awaiting confirmation.
pub enum ConfirmKind {
    DeleteRow { table: String, rowid: i64 },
    DeleteSelectedRows { table: String, rowids: Vec<i64> },
    ClearTable { table: String },
}

/// The instant a confirmation was asked for.
#[verifier::external_type_specification]
#[verifier::external_body]
pub struct ExInstant(std::time::Instant);

/// A confirmation prompt and when it expires.
pub struct PendingConfirm {
    pub message: String,
    pub kind: ConfirmKind,
    pub created: std::time::Instant,
    pub timeout_secs: u64,
}

/// A prompt expires once its timeout has elapsed.
pub fn confirm_expired(elapsed_secs: u64, timeout_secs: u64) -> (r: bool)
    ensures
        r == (elapsed_secs >= timeout_secs),
{
    elapsed_secs >= timeout_secs
}

/// How many undo frames are kept.
pub const UNDO_LIMIT: usize = 100;

/// The undo stack after recording `frame`: it goes on top, and the oldest
/// frame drops out once more than `UNDO_LIMIT` are held.
pub open spec fn undo_pushed(stack: Seq<UndoFrame>, frame: UndoFrame) -> Seq<UndoFrame> {
    let pushed = stack.push(frame);
    if pushed.len() > UNDO_LIMIT {
        pushed.subrange(1, pushed.len() as int)
    } else {
        pushed
    }
}

/// Records the frame that reverts a write.
pub fn record_undo(stack: &mut Vec<UndoFrame>, frame: UndoFrame)
    ensures
        final(stack)@ == undo_pushed(old(stack)@, frame),
{
    let ghost pushed = old(stack)@.push(frame);
    stack.push(frame);
    if stack.len() > UNDO_LIMIT {
        let _oldest = stack.remove(0);
        assert(stack@ =~= pushed.subrange(1, pushed.len() as int));
    }
}

/// Undo reverts the newest write first: right after a frame is recorded,
/// it is the one an undo takes, and when fewer than `UNDO_LIMIT` frames were
/// held the stack is left as it was before the write.
pub proof fn lemma_undo_takes_latest_frame(stack: Seq<UndoFrame>, frame: UndoFrame)
    ensures
        undo_pushed(stack, frame).len() > 0,
        undo_pushed(stack, frame).last() == frame,
        stack.len() < UNDO_LIMIT ==> undo_pushed(stack, frame).drop_last() == stack,
{
    let pushed = stack.push(frame);
    if pushed.len() > UNDO_LIMIT {
        assert(pushed.subrange(1, pushed.len() as int).last() == pushed.last());
    } else {
        assert(pushed.drop_last() =~= stack);
    }
}

/// The undo stack never holds more than `UNDO_LIMIT` frames.
pub proof fn lemma_undo_stack_bounded(stack: Seq<UndoFrame>, frame: UndoFrame)
    requires
        stack.len() <= UNDO_LIMIT,
    ensures
        undo_pushed(stack, frame).len() <= UNDO_LIMIT,
{
}

/// Why an undo was not started.
#[derive(PartialEq, Eq, Structural, Clone, Copy, Debug)]
pub enum UndoRefusal {
    ReadOnly,
    WriteRunning,
    Nothing,
}

/// The notice shown for a refused undo.
pub open spec fn undo_refusal_text(r: UndoRefusal) -> Seq<char> {
    match r {
        UndoRefusal::ReadOnly => "Read-only: cannot undo"@,
        UndoRefusal::WriteRunning => "A database write is already running"@,
        UndoRefusal::Nothing => "Nothing to undo"@,
    }
}

impl UndoRefusal {
    /// The notice shown for this refusal.
    pub fn message(&self) -> (m: String)
        ensures
            m@ == undo_refusal_text(*self),
    {
        match self {
            UndoRefusal::ReadOnly => string_of("Read-only: cannot undo"),
            UndoRefusal::WriteRunning => string_of("A database write is already running"),
            UndoRefusal::Nothing => string_of("Nothing to undo"),
        }
    }
}

/// Takes the newest undo frame to run, unless the database is read-only, a
/// write is running or there is nothing to undo; a refusal leaves the stack
/// as it was.
pub fn take_undo_frame(stack: &mut Vec<UndoFrame>, readonly: bool, write_in_flight: bool) -> (r: Result<
    UndoFrame,
    UndoRefusal,
>)
    ensures
        readonly ==> r == Err::<UndoFrame, UndoRefusal>(UndoRefusal::ReadOnly),
        !readonly && write_in_flight ==> r == Err::<UndoFrame, UndoRefusal>(UndoRefusal::WriteRunning),
        !readonly && !write_in_flight && old(stack)@.len() == 0 ==> r == Err::<UndoFrame, UndoRefusal>(
            UndoRefusal::Nothing,
        ),
        r is Err ==> final(stack)@ == old(stack)@,
        !readonly && !write_in_flight && old(stack)@.len() > 0 ==> r == Ok::<UndoFrame, UndoRefusal>(
            old(stack)@.last(),
        ) && final(stack)@ == old(stack)@.drop_last(),
{
    if readonly {
        return Err(UndoRefusal::ReadOnly);
    }
    if write_in_flight {
        return Err(UndoRefusal::WriteRunning);
    }
    match stack.pop() {
        Some(frame) => Ok(frame),
        None => Err(UndoRefusal::Nothing),
    }
}

/// The notice shown once an undo has run.
pub open spec fn undo_done_text(op: UndoOp, rowid: i64) -> Seq<char> {
    match op {
        UndoOp::Update => "Undo: restored row "@ + int_decimal(rowid as int),
        UndoOp::Insert => "Undo: deleted inserted row "@ + int_decimal(rowid as int),
        UndoOp::Delete => "Undo: restored deleted row "@ + int_decimal(rowid as int),
    }
}

/// The notice shown once the undo of `op` on row `rowid` has run.
pub fn undo_done_message(op: UndoOp, rowid: i64) -> (m: String)
    ensures
        m@ == undo_done_text(op, rowid),
{
    let mut m = match op {
        UndoOp::Update => string_of("Undo: restored row "),
        UndoOp::Insert => string_of("Undo: deleted inserted row "),
        UndoOp::Delete => string_of("Undo: restored deleted row "),
    };
    let n = i64_to_decimal(rowid);
    push_str(&mut m, n.as_str());
    m
}

/// The notice shown once rows were deleted.
pub open spec fn rows_deleted_text(count: nat) -> Seq<char> {
    if count == 0 {
        "No rows deleted"@
    } else if count == 1 {
        "1 row deleted"@
    } else {
        nat_decimal(count) + " rows deleted"@
    }
}

/// The notice shown once `count` rows were deleted.
pub fn rows_deleted_message(count: usize) -> (m: String)
    ensures
        m@ == rows_deleted_text(count as nat),
{
    if count == 0 {
        string_of("No rows deleted")
    } else if count == 1 {
        string_of("1 row deleted")
    } else {
        let mut m = String::new();
        push_decimal(&mut m, count as u64);
        push_str(&mut m, " rows deleted");
        m
    }
}

/// The prompt before deleting the focused row, numbered from one.
pub open spec fn delete_row_prompt_text(row_num: nat) -> Seq<char> {
    "Delete row #"@ + nat_decimal(row_num) + "? [y/n]"@
}

/// Asks before deleting row number `row_num`.
pub fn delete_row_prompt(row_num: usize) -> (m: String)
    ensures
        m@ == delete_row_prompt_text(row_num as nat),
{
    let mut m = string_of("Delete row #");
    push_decimal(&mut m, row_num as u64);
    push_str(&mut m, "? [y/n]");
    m
}

/// The prompt before deleting `count` selected rows.
pub open spec fn delete_selected_prompt_text(count: nat) -> Seq<char> {
    "Delete "@ + nat_decimal(count) + " selected "@ + (if count == 1 {
        "row"@
    } else {
        "rows"@
    }) + "? [y/n]"@
}

/// Asks before deleting `count` selected rows.
pub fn delete_selected_prompt(count: usize) -> (m: String)
    ensures
        m@ == delete_selected_prompt_text(count as nat),
{
    let mut m = string_of("Delete ");
    push_decimal(&mut m, count as u64);
    push_str(&mut m, " selected ");
    push_str(&mut m, if count == 1 { "row" } else { "rows" });
    push_str(&mut m, "? [y/n]");
    m
}

/// The prompt before deleting all `total` rows of `table`.
pub open spec fn clear_table_prompt_text(total: int, table: Seq<char>) -> Seq<char> {
    "Delete all "@ + int_decimal(total) + " rows from "@ + table + "? [y/n]"@
}

/// Asks before deleting every row of `table`; none for an empty table.
pub fn clear_table_prompt(total: i64, table: &str) -> (m: Option<String>)
    ensures
        total <= 0 ==> m is None,
        total > 0 ==> (m matches Some(t) && t@ == clear_table_prompt_text(total as int, table@)),
{
    if total <= 0 {
        return None;
    }
    let mut m = string_of("Delete all ");
    let n = i64_to_decimal(total);
    push_str(&mut m, n.as_str());
    push_str(&mut m, " rows from ");
    push_str(&mut m, table);
    push_str(&mut m, "? [y/n]");
    Some(m)
}

/// Why a cell cannot be set to NULL.
#[derive(PartialEq, Eq, Structural, Clone, Copy, Debug)]
pub enum NullRefusal {
    NotNullColumn,
    AlreadyNull,
}

/// The notice shown when a cell cannot be set to NULL.
pub open spec fn null_refusal_text(r: NullRefusal) -> Seq<char> {
    match r {
        NullRefusal::NotNullColumn => "Column is NOT NULL"@,
        NullRefusal::AlreadyNull => "Cell is already NULL"@,
    }
}

impl NullRefusal {
    /// The notice shown for this refusal.
    pub fn message(&self) -> (m: String)
        ensures
            m@ == null_refusal_text(*self),
    {
        match self {
            NullRefusal::NotNullColumn => string_of("Column is NOT NULL"),
            NullRefusal::AlreadyNull => string_of("Cell is already NULL"),
        }
    }
}

/// Whether a cell of a column declared NOT NULL (`not_null`) holding
/// `cell` may be set to NULL: refused for such a column, then for a cell
/// that is NULL already.
pub fn set_null_refusal(not_null: bool, cell: &SqlValue) -> (r: Option<NullRefusal>)
    ensures
        not_null ==> r == Some(NullRefusal::NotNullColumn),
        !not_null && cell is Null ==> r == Some(NullRefusal::AlreadyNull),
        !not_null && !(cell is Null) ==> r is None,
{
    if not_null {
        Some(NullRefusal::NotNullColumn)
    } else {
        match cell {
            SqlValue::Null => Some(NullRefusal::AlreadyNull),
            _ => None,
        }
    }
}

/// Which of `columns` are the source of a foreign key, given the source
/// column names of the table's foreign keys.
pub fn fk_flags(columns: &[Column], fk_from: &[String]) -> (r: Vec<bool>)
    ensures
        r@.len() == columns@.len(),
        forall|i: int| 0 <= i < columns@.len() ==> (#[trigger] r@[i] <==> exists|j: int|
            0 <= j < fk_from@.len() && (#[trigger] fk_from@[j])@ == columns@[i].name@),
{
    let mut r: Vec<bool> = Vec::new();
    let mut i: usize = 0;
    while i < columns.len()
        invariant
            i <= columns@.len(),
            r@.len() == i,
            forall|k: int| 0 <= k < i ==> (#[trigger] r@[k] <==> exists|j: int|
                0 <= j < fk_from@.len() && (#[trigger] fk_from@[j])@ == columns@[k].name@),
        decreases columns@.len() - i,
    {
        let mut found = false;
        let mut j: usize = 0;
        while j < fk_from.len()
            invariant
                j <= fk_from@.len(),
                i < columns@.len(),
                found <==> exists|m: int| 0 <= m < j && (#[trigger] fk_from@[m])@ == columns@[i as int].name@,
            decreases fk_from@.len() - j,
        {
            if same_text(fk_from[j].as_str(), columns[i].name.as_str()) {
                found = true;
            }
            j = j + 1;
        }
        r.push(found);
        i = i + 1;
    }
    r
}

/// What a delete request applies to.
pub enum DeleteTarget {
    /// The focused row: its number counted from one, its table and rowid.
    CurrentRow { row_num: usize, table: String, rowid: i64 },
    /// The selected rows, by position in the current order and filter.
    SelectedRows { table: String, row_offsets: Vec<i64> },
    /// Every row of the table.
    AllRows { table: String },
}

/// The selected rows read as `i64` positions.
pub open spec fn row_offsets_of(rows: Seq<usize>) -> Seq<i64> {
    Seq::new(rows.len(), |i: int| rows[i] as i64)
}

/// What deleting in `grid` targets: every row when all are selected, the
/// positions of the selected rows (none when the set is empty), otherwise
/// the focused row when its rowid is loaded.
pub fn delete_target(grid: &GridState) -> (r: Option<DeleteTarget>)
    requires
        grid.row_selection is Empty ==> grid.focused_row < usize::MAX
            && grid.window.offset_safe(grid.focused_row as i64),
    ensures
        match grid.row_selection {
            RowSelection::All => (r matches Some(DeleteTarget::AllRows { table }) && table@ == grid.table_name@),
            RowSelection::Rows(v) => if v@.len() > 0 {
                r matches Some(DeleteTarget::SelectedRows { table, row_offsets }) && table@ == grid.table_name@
                    && row_offsets@ == row_offsets_of(v@)
            } else {
                r is None
            },
            RowSelection::Empty => match grid.window.rowid_at(grid.focused_row as i64) {
                Some(id) => (r matches Some(DeleteTarget::CurrentRow { row_num, table, rowid }) && row_num
                    == grid.focused_row + 1 && table@ == grid.table_name@ && rowid == id),
                None => r is None,
            },
        },
{
    let table = grid.table_name.clone();
    match &grid.row_selection {
        RowSelection::All => Some(DeleteTarget::AllRows { table }),
        RowSelection::Rows(v) => {
            if v.len() == 0 {
                return None;
            }
            let mut row_offsets: Vec<i64> = Vec::new();
            let mut k: usize = 0;
            while k < v.len()
                invariant
                    k <= v@.len(),
                    row_offsets@ =~= Seq::new(k as nat, |i: int| v@[i] as i64),
                decreases v@.len() - k,
            {
                row_offsets.push(v[k] as i64);
                k = k + 1;
            }
            Some(DeleteTarget::SelectedRows { table, row_offsets })
        },
        RowSelection::Empty => match grid.window.get_rowid(grid.focused_row as i64) {
            Some(rowid) => Some(DeleteTarget::CurrentRow { row_num: grid.focused_row + 1, table, rowid }),
            None => None,
        },
    }
}

/// The scroll position of the help popup.
pub struct HelpState {
    pub scroll: usize,
    pub max_scroll: usize,
}

impl HelpState {
    /// Scrolled to the top, with nothing to scroll yet.
    pub fn new() -> (h: HelpState)
        ensures
            h.scroll == 0,
            h.max_scroll == 0,
    {
        HelpState { scroll: 0, max_scroll: 0 }
    }

    /// Scrolls down `n` lines, stopping at the last position.
    pub fn scroll_down(&mut self, n: usize)
        ensures
            final(self).max_scroll == old(self).max_scroll,
            final(self).scroll == if old(self).scroll + n > old(self).max_scroll {
                old(self).max_scroll as int
            } else {
                old(self).scroll + n
            },
    {
        let target = self.scroll.saturating_add(n);
        self.scroll = if target > self.max_scroll { self.max_scroll } else { target };
    }

    /// Scrolls up `n` lines, stopping at the top.
    pub fn scroll_up(&mut self, n: usize)
        ensures
            final(self).max_scroll == old(self).max_scroll,
            final(self).scroll == if old(self).scroll >= n { old(self).scroll - n } else { 0 },
    {
        self.scroll = self.scroll.saturating_sub(n);
    }

    /// The scroll after key `code` in the open help: the arrows move three
    /// lines, the page keys ten; other keys leave it.
    pub open spec fn scroll_after(self, code: KeyCode) -> int {
        let up = |n: int| if self.scroll >= n { self.scroll - n } else { 0 };
        let down = |n: int| if self.scroll + n > self.max_scroll { self.max_scroll as int } else { self.scroll + n };
        match code {
            KeyCode::Up => up(3),
            KeyCode::Down => down(3),
            KeyCode::PageUp => up(10),
            KeyCode::PageDown => down(10),
            _ => self.scroll as int,
        }
    }

    /// Handles a key in the open help; answers whether it closes the help
    /// (Esc does).
    pub fn handle_key(&mut self, code: KeyCode) -> (close: bool)
        ensures
            close == (code == KeyCode::Esc),
            final(self).max_scroll == old(self).max_scroll,
            final(self).scroll == old(self).scroll_after(code),
    {
        match code {
            KeyCode::Esc => true,
            KeyCode::Up => {
                self.scroll_up(3);
                false
            },
            KeyCode::Down => {
                self.scroll_down(3);
                false
            },
            KeyCode::PageUp => {
                self.scroll_up(10);
                false
            },
            KeyCode::PageDown => {
                self.scroll_down(10);
                false
            },
            _ => false,
        }
    }
}

/// Most distinct values for which edits offer a picker.
pub const VALUE_PICKER_DISTINCT_LIMIT: usize = 100;

/// Fewest distinct values for which a column is no longer coloured as an
/// enumeration.
pub const ENUM_COLOR_DISTINCT_LIMIT: usize = 20;

/// Longest value, in characters, of an enumeration.
pub const ENUM_VALUE_MAX_CHARS: usize = 20;

/// An edit offers a picker over a column's distinct values when there are
/// some and at most a hundred.
pub fn should_use_value_picker(values: &[String]) -> (r: bool)
    ensures
        r == (values@.len() > 0 && values@.len() <= VALUE_PICKER_DISTINCT_LIMIT),
{
    values.len() > 0 && values.len() <= VALUE_PICKER_DISTINCT_LIMIT
}

/// A column's distinct values make an enumeration when there are some,
/// fewer than twenty, none longer than twenty characters, and not one per
/// row of a non-empty table.
pub open spec fn is_enumeration(values: Seq<String>, total_rows: i64) -> bool {
    &&& values.len() > 0
    &&& values.len() < ENUM_COLOR_DISTINCT_LIMIT
    &&& forall|i: int| 0 <= i < values.len() ==> (#[trigger] values[i])@.len() <= ENUM_VALUE_MAX_CHARS
    &&& !(total_rows > 0 && values.len() == total_rows)
}

/// The values kept as an enumeration: all of them when they make one, else
/// none.
pub fn normalize_enumerated_values(values: Vec<String>, total_rows: i64) -> (r: Vec<String>)
    ensures
        is_enumeration(values@, total_rows) ==> r@ == values@,
        !is_enumeration(values@, total_rows) ==> r@.len() == 0,
{
    if values.len() == 0 || values.len() >= ENUM_COLOR_DISTINCT_LIMIT {
        return Vec::new();
    }
    let mut i: usize = 0;
    while i < values.len()
        invariant
            i <= values@.len(),
            forall|j: int| 0 <= j < i ==> (#[trigger] values@[j])@.len() <= ENUM_VALUE_MAX_CHARS,
        decreases values@.len() - i,
    {
        if values[i].as_str().unicode_len() > ENUM_VALUE_MAX_CHARS {
            return Vec::new();
        }
        i = i + 1;
    }
    if total_rows > 0 && values.len() as i64 == total_rows {
        return Vec::new();
    }
    values
}

/// The tab to activate after closing tab `closed` of those open before,
/// `remaining` being how many stay: the same tab when another one closes
/// (one place left when it was after the closed one), the one before when
/// the active one closes.
pub open spec fn active_after_close(active: Option<usize>, closed: usize, remaining: usize) -> Option<usize> {
    if remaining == 0 {
        None
    } else {
        match active {
            Some(a) => if a == closed {
                let p = if closed >= 1 { closed - 1 } else { 0 };
                Some(if p < remaining - 1 { p as usize } else { (remaining - 1) as usize })
            } else if closed < a {
                Some((a - 1) as usize)
            } else {
                Some(if a < remaining - 1 { a } else { (remaining - 1) as usize })
            },
            None => None,
        }
    }
}

/// The tab to activate after closing tab `closed_idx`.
pub fn next_active_tab_after_close(active_tab: Option<usize>, closed_idx: usize, remaining_tabs: usize) -> (r: Option<usize>)
    ensures
        r == active_after_close(active_tab, closed_idx, remaining_tabs),
        (active_tab matches Some(a) ==> a <= remaining_tabs) ==> (r is Some ==> r->0 < remaining_tabs),
{
    if remaining_tabs == 0 {
        return None;
    }
    match active_tab {
        Some(active_idx) => {
            if active_idx == closed_idx {
                let p = closed_idx.saturating_sub(1);
                Some(if p < remaining_tabs - 1 { p } else { remaining_tabs - 1 })
            } else if closed_idx < active_idx {
                Some(active_idx - 1)
            } else {
                Some(if active_idx < remaining_tabs - 1 { active_idx } else { remaining_tabs - 1 })
            }
        },
        None => None,
    }
}

/// The position of the first tab showing table `name`, if any.
pub open spec fn tab_position(tabs: Seq<TableTab>, name: Seq<char>) -> Option<int>
    decreases tabs.len(),
{
    if tabs.len() == 0 {
        None
    } else {
        match tab_position(tabs.drop_last(), name) {
            Some(i) => Some(i),
            None => if tabs.last().table_name@ == name {
                Some(tabs.len() - 1)
            } else {
                None
            },
        }
    }
}

/// A position found in a prefix is the first position among all tabs.
proof fn lemma_tab_position_prefix(tabs: Seq<TableTab>, name: Seq<char>, n: int)
    requires
        0 <= n <= tabs.len(),
        tab_position(tabs.subrange(0, n), name) is Some,
    ensures
        tab_position(tabs, name) == tab_position(tabs.subrange(0, n), name),
    decreases tabs.len() - n,
{
    if n < tabs.len() {
        assert(tabs.subrange(0, n + 1).drop_last() =~= tabs.subrange(0, n));
        lemma_tab_position_prefix(tabs, name, n + 1);
    } else {
        assert(tabs.subrange(0, n) =~= tabs);
    }
}

/// A found position lies among the tabs and shows `name`.
proof fn lemma_tab_position_found(tabs: Seq<TableTab>, name: Seq<char>)
    ensures
        tab_position(tabs, name) matches Some(i) ==> 0 <= i < tabs.len() && tabs[i].table_name@ == name,
    decreases tabs.len(),
{
    if tabs.len() > 0 {
        lemma_tab_position_found(tabs.drop_last(), name);
    }
}

/// The open tabs and the active one.
pub struct Tabs {
    pub open_tabs: Vec<TableTab>,
    pub active_tab: Option<usize>,
}

impl Tabs {
    /// The active tab, if any, is one of the open tabs.
    pub open spec fn wf(self) -> bool {
        match self.active_tab {
            Some(a) => a < self.open_tabs@.len(),
            None => true,
        }
    }

    /// The table of the active tab.
    pub open spec fn active_table(self) -> Option<Seq<char>> {
        match self.active_tab {
            Some(a) => Some(self.open_tabs@[a as int].table_name@),
            None => None,
        }
    }

    /// Closes tab `idx`, when there is one; answers whether anything
    /// changed. The active tab follows `active_after_close`.
    pub fn close_tab(&mut self, idx: usize) -> (changed: bool)
        requires
            old(self).wf(),
        ensures
            final(self).wf(),
            changed == (idx < old(self).open_tabs@.len()),
            changed ==> final(self).open_tabs@ == old(self).open_tabs@.remove(idx as int)
                && final(self).active_tab == active_after_close(old(self).active_tab, idx, (old(self).open_tabs@.len() - 1) as usize),
            !changed ==> final(self).open_tabs@ == old(self).open_tabs@ && final(self).active_tab == old(self).active_tab,
    {
        if idx < self.open_tabs.len() {
            let next = next_active_tab_after_close(self.active_tab, idx, self.open_tabs.len() - 1);
            self.open_tabs.remove(idx);
            self.active_tab = next;
            true
        } else {
            false
        }
    }

    /// Where the first tab showing table `name` is, if one does.
    fn tab_of(&self, name: &str) -> (r: Option<usize>)
        ensures
            match tab_position(self.open_tabs@, name@) {
                Some(i) => r == Some(i as usize),
                None => r is None,
            },
    {
        let mut i: usize = 0;
        while i < self.open_tabs.len()
            invariant
                i <= self.open_tabs@.len(),
                tab_position(self.open_tabs@.subrange(0, i as int), name@) is None,
            decreases self.open_tabs@.len() - i,
        {
            proof {
                assert(self.open_tabs@.subrange(0, i + 1).drop_last() =~= self.open_tabs@.subrange(0, i as int));
            }
            if same_text(self.open_tabs[i].table_name.as_str(), name) {
                proof {
                    lemma_tab_position_prefix(self.open_tabs@, name@, i + 1);
                }
                return Some(i);
            }
            i = i + 1;
        }
        assert(self.open_tabs@.subrange(0, self.open_tabs@.len() as int) =~= self.open_tabs@);
        None
    }

    /// Shows table `name`: activates the tab that shows it already;
    /// otherwise opens a new tab for it when asked to (or when none is
    /// active), else shows it in the active tab.
    pub fn open_table(&mut self, name: String, new_tab: bool)
        requires
            old(self).wf(),
        ensures
            final(self).wf(),
            final(self).active_table() == Some(name@),
            match tab_position(old(self).open_tabs@, name@) {
                Some(i) => final(self).open_tabs@ == old(self).open_tabs@ && final(self).active_tab == Some(
                    i as usize,
                ),
                None => if new_tab || old(self).active_tab is None {
                    final(self).open_tabs@ == old(self).open_tabs@.push(TableTab { table_name: name })
                        && final(self).active_tab == Some(old(self).open_tabs@.len() as usize)
                } else {
                    final(self).open_tabs@ == old(self).open_tabs@.update(
                        old(self).active_tab->0 as int,
                        TableTab { table_name: name },
                    ) && final(self).active_tab == old(self).active_tab
                },
            },
    {
        proof {
            lemma_tab_position_found(self.open_tabs@, name@);
        }
        let ghost key = name@;
        match self.tab_of(name.as_str()) {
            Some(idx) => {
                proof {
                    let i = tab_position(self.open_tabs@, key)->0;
                    assert(self.open_tabs@.len() == self.open_tabs.len());
                    assert(0 <= i < self.open_tabs@.len());
                }
                self.active_tab = Some(idx);
            },
            None => {
                if new_tab || self.active_tab.is_none() {
                    self.open_tabs.push(TableTab { table_name: name });
                    self.active_tab = Some(self.open_tabs.len() - 1);
                    assert(self.open_tabs@[self.open_tabs@.len() - 1].table_name@ == key);
                } else {
                    let idx = self.active_tab.unwrap();
                    self.open_tabs.set(idx, TableTab { table_name: name });
                    assert(self.open_tabs@[idx as int].table_name@ == key);
                }
            },
        }
    }

    /// Makes tab `idx` active, when there is one.
    pub fn activate_tab(&mut self, idx: usize) -> (changed: bool)
        requires
            old(self).wf(),
        ensures
            final(self).wf(),
            final(self).open_tabs@ == old(self).open_tabs@,
            changed == (idx < old(self).open_tabs@.len()),
            changed ==> final(self).active_tab == Some(idx),
            !changed ==> final(self).active_tab == old(self).active_tab,
    {
        if idx < self.open_tabs.len() {
            self.active_tab = Some(idx);
            true
        } else {
            false
        }
    }

    /// Activates the next tab, wrapping to the first (from the first when
    /// none is active).
    pub fn next_tab(&mut self) -> (changed: bool)
        requires
            old(self).wf(),
        ensures
            final(self).wf(),
            final(self).open_tabs@ == old(self).open_tabs@,
            changed == (old(self).open_tabs@.len() > 0),
            changed ==> final(self).active_tab == Some(
                ((((match old(self).active_tab { Some(a) => a as int, None => 0int }) + 1) % (old(self).open_tabs@.len() as int))
                    as usize),
            ),
            !changed ==> final(self).active_tab == old(self).active_tab,
    {
        if self.open_tabs.len() == 0 {
            return false;
        }
        let current = match self.active_tab {
            Some(a) => a,
            None => 0,
        };
        self.activate_tab((current + 1) % self.open_tabs.len())
    }

    /// Activates the previous tab, wrapping to the last (the last when the
    /// first or none is active).
    pub fn prev_tab(&mut self) -> (changed: bool)
        requires
            old(self).wf(),
        ensures
            final(self).wf(),
            final(self).open_tabs@ == old(self).open_tabs@,
            changed == (old(self).open_tabs@.len() > 0),
            changed ==> final(self).active_tab == Some(
                match old(self).active_tab {
                    Some(a) => if a >= 1 { (a - 1) as usize } else { (old(self).open_tabs@.len() - 1) as usize },
                    None => (old(self).open_tabs@.len() - 1) as usize,
                },
            ),
            !changed ==> final(self).active_tab == old(self).active_tab,
    {
        if self.open_tabs.len() == 0 {
            return false;
        }
        let current = match self.active_tab {
            Some(a) => a,
            None => 0,
        };
        let target = if current >= 1 { current - 1 } else { self.open_tabs.len() - 1 };
        self.activate_tab(target)
    }
}

/// Closing a tab other than the active one keeps the same table active:
/// the tab that `close_tab` activates shows the table that was active
/// before.
pub proof fn lemma_closing_other_tab_keeps_active_table(t: Tabs, idx: usize)
    requires
        t.wf(),
        idx < t.open_tabs@.len(),
        t.active_tab matches Some(a) && a != idx,
    ensures
        ({
            let rest = t.open_tabs@.remove(idx as int);
            match active_after_close(t.active_tab, idx, (t.open_tabs@.len() - 1) as usize) {
                Some(b) => b < rest.len() && Some(rest[b as int].table_name@) == t.active_table(),
                None => false,
            }
        }),
{
    let a = t.active_tab->0;
    let rest = t.open_tabs@.remove(idx as int);
    assert(t.open_tabs@.len() == t.open_tabs.len());
    if idx < a {
        assert(rest[a - 1] == t.open_tabs@[a as int]);
    } else {
        assert(rest[a as int] == t.open_tabs@[a as int]);
    }
}

/// The base64 digit for `i < 64`.
pub open spec fn b64_char(i: int) -> char {
    if i < 26 {
        (0x41 + i) as char
    } else if i < 52 {
        (0x61 + i - 26) as char
    } else if i < 62 {
        (0x30 + i - 52) as char
    } else if i == 62 {
        '+'
    } else {
        '/'
    }
}

/// One to three bytes as four base64 characters, `=`-padded.
pub open spec fn b64_chunk(c: Seq<u8>) -> Seq<char> {
    let b0 = c[0] as int;
    let b1 = if c.len() > 1 { c[1] as int } else { 0int };
    let b2 = if c.len() > 2 { c[2] as int } else { 0int };
    seq![
        b64_char(b0 / 4),
        b64_char((b0 % 4) * 16 + b1 / 16),
        if c.len() > 1 { b64_char((b1 % 16) * 4 + b2 / 64) } else { '=' },
        if c.len() > 2 { b64_char(b2 % 64) } else { '=' },
    ]
}

/// Standard padded base64 of `b`, three bytes at a time.
pub open spec fn base64_text(b: Seq<u8>) -> Seq<char>
    decreases b.len(),
{
    if b.len() == 0 {
        Seq::empty()
    } else {
        let n = if b.len() >= 3 { 3int } else { b.len() as int };
        b64_chunk(b.take(n)) + base64_text(b.skip(n))
    }
}

/// The base64 digit for `i < 64`.
fn b64_digit(i: u8) -> (c: char)
    requires
        i < 64,
    ensures
        c == b64_char(i as int),
{
    if i < 26 {
        (0x41 + i) as char
    } else if i < 52 {
        (0x61 + i - 26) as char
    } else if i < 62 {
        (0x30 + i - 52) as char
    } else if i == 62 {
        '+'
    } else {
        '/'
    }
}

/// Standard padded base64 of `data`.
pub fn base64_encode(data: &[u8]) -> (r: String)
    ensures
        r@ == base64_text(data@),
{
    let mut out = String::new();
    let mut i: usize = 0;
    assert(data@.skip(0) =~= data@);
    assert(out@ + base64_text(data@) =~= base64_text(data@));
    while i < data.len()
        invariant
            i <= data@.len(),
            out@ + base64_text(data@.skip(i as int)) == base64_text(data@),
        decreases data@.len() - i,
    {
        let rest = data.len() - i;
        let n: usize = if rest >= 3 { 3 } else { rest };
        let b0 = data[i];
        let b1: u8 = if n > 1 { data[i + 1] } else { 0 };
        let b2: u8 = if n > 2 { data[i + 2] } else { 0 };
        let ghost tail = data@.skip(i as int);
        let ghost chunk = tail.take(n as int);
        proof {
            assert(chunk[0] == b0);
            if n > 1 {
                assert(chunk[1] == b1);
            }
            if n > 2 {
                assert(chunk[2] == b2);
            }
            assert(tail.skip(n as int) =~= data@.skip(i + n));
        }
        let ghost before = out@;
        push_char(&mut out, b64_digit(b0 / 4));
        push_char(&mut out, b64_digit((b0 % 4) * 16 + b1 / 16));
        if n > 1 {
            push_char(&mut out, b64_digit((b1 % 16) * 4 + b2 / 64));
        } else {
            push_char(&mut out, '=');
        }
        if n > 2 {
            push_char(&mut out, b64_digit(b2 % 64));
        } else {
            push_char(&mut out, '=');
        }
        proof {
            assert(out@ =~= before + b64_chunk(chunk));
            assert(base64_text(tail) == b64_chunk(chunk) + base64_text(tail.skip(n as int)));
        }
        i = i + n;
    }
    assert(data@.skip(data@.len() as int) =~= Seq::<u8>::empty());
    assert(out@ + Seq::<char>::empty() =~= out@);
    out
}

/// The predicate counting the rows before a letter in the sort order: in
/// ascending order nulls and values below the letter (for `#`, nulls
/// only); in descending order values above the letter that do not start
/// with it (for `#`, non-null values not starting with a digit). `k` is the
/// first free parameter number.
pub open spec fn letter_predicate(col: Seq<char>, ascending: bool, letter: char, k: nat) -> Seq<char> {
    let c = quoted(col);
    if ascending {
        if letter == '#' {
            c + " IS NULL"@
        } else {
            "("@ + c + " IS NULL OR "@ + c + " < "@ + placeholder(k) + ")"@
        }
    } else if letter == '#' {
        "("@ + c + " IS NOT NULL AND "@ + c + " NOT GLOB '[0-9]*')"@
    } else {
        "("@ + c + " > "@ + placeholder(k) + " AND "@ + c + " NOT LIKE "@ + placeholder(k + 1) + ")"@
    }
}

/// The parameters the letter predicate adds: the uppercase letter, and in
/// descending order also the letter followed by `%`.
pub open spec fn letter_params(ascending: bool, letter: char, upper: char) -> Seq<ValueModel> {
    if letter == '#' {
        Seq::empty()
    } else if ascending {
        seq![ValueModel::Text(seq![upper])]
    } else {
        seq![ValueModel::Text(seq![upper]), ValueModel::Text(seq![upper, '%'])]
    }
}

/// The count of the rows before `letter`, under the table's filter.
pub open spec fn letter_count_sql(table: Seq<char>, filter_clause: Seq<char>, predicate: Seq<char>) -> Seq<char> {
    "SELECT COUNT(*) FROM "@ + quoted(table) + " WHERE "@ + (if filter_clause.len() == 0 {
        predicate
    } else {
        "("@ + filter_clause + ") AND "@ + predicate
    })
}

/// The query counting the rows of the filtered table that come before
/// `letter` in the sort by `column`, with its parameters; the filter's
/// refusal when it cannot be translated.
pub fn count_rows_before_letter_sql(
    table: &str,
    column: &str,
    ascending: bool,
    letter: char,
    uppercase_letter: char,
    filter: &FilterSet,
) -> (r: Result<(String, Vec<SqlValue>), FilterError>)
    ensures
        match filter_sql(*filter) {
            Ok((w, p)) => r matches Ok((q, v)) && q@ == letter_count_sql(
                table@,
                w,
                letter_predicate(column@, ascending, letter, p.len() + 1),
            ) && values_view(v@) == p + letter_params(ascending, letter, uppercase_letter),
            Err(e) => r matches Err(x) && x@ == e,
        },
{
    let (filter_clause, mut params) = match filter_to_sql(filter) {
        Ok(x) => x,
        Err(e) => {
            return Err(e);
        },
    };
    let ghost p0 = values_view(params@);
    let c = quote_identifier(column);
    let n = params.len();
    let mut predicate = String::new();
    if ascending {
        if letter == '#' {
            push_str(&mut predicate, c.as_str());
            push_str(&mut predicate, " IS NULL");
        } else {
            let mut u = String::new();
            push_char(&mut u, uppercase_letter);
            assert(u@ =~= seq![uppercase_letter]);
            params.push(SqlValue::Text(u));
            push_str(&mut predicate, "(");
            push_str(&mut predicate, c.as_str());
            push_str(&mut predicate, " IS NULL OR ");
            push_str(&mut predicate, c.as_str());
            push_str(&mut predicate, " < ");
            push_char(&mut predicate, '?');
            push_decimal_wide(&mut predicate, (n as u128) + 1);
            push_str(&mut predicate, ")");
        }
    } else if letter == '#' {
        push_str(&mut predicate, "(");
        push_str(&mut predicate, c.as_str());
        push_str(&mut predicate, " IS NOT NULL AND ");
        push_str(&mut predicate, c.as_str());
        push_str(&mut predicate, " NOT GLOB '[0-9]*')");
    } else {
        let mut u = String::new();
        push_char(&mut u, uppercase_letter);
        assert(u@ =~= seq![uppercase_letter]);
        params.push(SqlValue::Text(u));
        let mut pat = String::new();
        push_char(&mut pat, uppercase_letter);
        push_char(&mut pat, '%');
        assert(pat@ =~= seq![uppercase_letter, '%']);
        params.push(SqlValue::Text(pat));
        push_str(&mut predicate, "(");
        push_str(&mut predicate, c.as_str());
        push_str(&mut predicate, " > ");
        push_char(&mut predicate, '?');
        push_decimal_wide(&mut predicate, (n as u128) + 1);
        push_str(&mut predicate, " AND ");
        push_str(&mut predicate, c.as_str());
        push_str(&mut predicate, " NOT LIKE ");
        push_char(&mut predicate, '?');
        push_decimal_wide(&mut predicate, (n as u128) + 2);
        push_str(&mut predicate, ")");
    }
    proof {
        assert(predicate@ =~= letter_predicate(column@, ascending, letter, (n + 1) as nat));
        assert(values_view(params@) =~~= p0 + letter_params(ascending, letter, uppercase_letter));
    }
    let mut q = String::new();
    push_str(&mut q, "SELECT COUNT(*) FROM ");
    push_str(&mut q, quote_identifier(table).as_str());
    push_str(&mut q, " WHERE ");
    if filter_clause.as_str().unicode_len() == 0 {
        push_str(&mut q, predicate.as_str());
    } else {
        push_str(&mut q, "(");
        push_str(&mut q, filter_clause.as_str());
        push_str(&mut q, ") AND ");
        push_str(&mut q, predicate.as_str());
    }
    assert(q@ =~= letter_count_sql(table@, filter_clause@, predicate@));
    Ok((q, params))
}

/// The focused cell can be set to NULL: the database is writable, a table
/// is open, the focused column exists and is nullable, and its loaded value
/// is not already NULL.
pub open spec fn can_set_null(readonly: bool, grid: Option<GridState>) -> bool {
    match grid {
        None => false,
        Some(g) => {
            let f = as_i64(g.focused_row) as i64;
            &&& !readonly
            &&& g.focused_col < g.columns@.len()
            &&& !g.columns@[g.focused_col as int].not_null
            &&& g.window.holds(f)
            &&& g.focused_col < g.window.rows@[g.window.index_of(f)]@.len()
            &&& !(g.window.rows@[g.window.index_of(f)]@[g.focused_col as int] is Null)
        },
    }
}

/// The focused cell, for editing it.
pub struct FocusedCell {
    pub col: Column,
    pub table_name: String,
    pub rowid: i64,
    pub cell_value: SqlValue,
    pub is_fk: bool,
}

/// Why the focused cell cannot be edited.
#[derive(PartialEq, Eq, Structural, Clone, Copy, Debug)]
pub enum CellRefusal {
    GeneratedColumn,
    RowNotEditable,
}

/// The notice shown when the focused cell cannot be edited.
pub open spec fn cell_refusal_text(r: CellRefusal) -> Seq<char> {
    match r {
        CellRefusal::GeneratedColumn => "Generated columns are read-only"@,
        CellRefusal::RowNotEditable => "Row is not loaded or cannot be edited safely"@,
    }
}

impl CellRefusal {
    /// The notice shown for this refusal.
    pub fn message(&self) -> (m: String)
        ensures
            m@ == cell_refusal_text(*self),
    {
        match self {
            CellRefusal::GeneratedColumn => string_of("Generated columns are read-only"),
            CellRefusal::RowNotEditable => string_of("Row is not loaded or cannot be edited safely"),
        }
    }
}

/// What `focused_cell` finds in `g`: nothing, a refusal, or the rowid of
/// the cell to edit.
pub open spec fn focused_cell_spec(g: GridState) -> Option<Result<i64, CellRefusal>> {
    let c = g.focused_col;
    let row = g.focused_row as i64;
    if c >= g.columns@.len() {
        None
    } else if !g.columns@[c as int].writable {
        Some(Err(CellRefusal::GeneratedColumn))
    } else if !g.window.holds(row) || c >= g.window.rows@[g.window.index_of(row)]@.len() {
        None
    } else {
        match g.window.rowid_at(row) {
            None => Some(Err(CellRefusal::RowNotEditable)),
            Some(id) => Some(Ok(id)),
        }
    }
}

/// The value held in the focused cell (meaningful when `focused_cell_spec`
/// finds a rowid).
pub open spec fn focused_value(g: GridState) -> SqlValue {
    let row = g.focused_row as i64;
    g.window.rows@[g.window.index_of(row)]@[g.focused_col as int]
}

/// The focused cell of `g`: nothing when the focused column or the cell's
/// value is missing; a refusal for a generated (read-only) column, or for a
/// row whose rowid is not loaded; otherwise the column, table, rowid, value
/// and whether the column is a foreign key.
pub fn focused_cell(g: &GridState) -> (r: Option<Result<FocusedCell, CellRefusal>>)
    requires
        g.window.offset_safe(g.focused_row as i64),
    ensures
        ({
            let c = g.focused_col;
            let row = g.focused_row as i64;
            if c >= g.columns@.len() {
                r is None
            } else if !g.columns@[c as int].writable {
                r == Some(Err::<FocusedCell, CellRefusal>(CellRefusal::GeneratedColumn))
            } else if !g.window.holds(row) || c >= g.window.rows@[g.window.index_of(row)]@.len() {
                r is None
            } else {
                match g.window.rowid_at(row) {
                    None => r == Some(Err::<FocusedCell, CellRefusal>(CellRefusal::RowNotEditable)),
                    Some(id) => r matches Some(Ok(cell)) && cell.col == g.columns@[c as int]
                        && cell.table_name@ == g.table_name@ && cell.rowid == id
                        && cell.cell_value@ == g.window.rows@[g.window.index_of(row)]@[c as int]@
                        && cell.is_fk == (c < g.fk_cols@.len() && g.fk_cols@[c as int]),
                }
            }
        }),
        match r {
            None => focused_cell_spec(*g) is None,
            Some(Err(e)) => focused_cell_spec(*g) == Some(Err::<i64, CellRefusal>(e)),
            Some(Ok(cell)) => focused_cell_spec(*g) == Some(Ok::<i64, CellRefusal>(cell.rowid))
                && cell.col == g.columns@[g.focused_col as int] && cell.table_name@ == g.table_name@
                && cell.cell_value@ == focused_value(*g)@,
        },
{
    let c = g.focused_col;
    if c >= g.columns.len() {
        return None;
    }
    if !g.columns[c].writable {
        return Some(Err(CellRefusal::GeneratedColumn));
    }
    let row = g.focused_row as i64;
    let cell_value = match g.window.get_row(row) {
        Some(values) => if c < values.len() {
            clone_value(&values[c])
        } else {
            return None;
        },
        None => {
            return None;
        },
    };
    let is_fk = c < g.fk_cols.len() && g.fk_cols[c];
    match g.window.get_rowid(row) {
        Some(rowid) => Some(
            Ok(
                FocusedCell {
                    col: crate::db::write::clone_column(&g.columns[c]),
                    table_name: g.table_name.clone(),
                    rowid,
                    cell_value,
                    is_fk,
                },
            ),
        ),
        None => Some(Err(CellRefusal::RowNotEditable)),
    }
}

/// Whether the focused cell can be set to NULL.
pub fn focused_cell_can_be_set_null(readonly: bool, grid: Option<&GridState>) -> (r: bool)
    requires
        match grid {
            Some(g) => g.window.offset_safe(as_i64(g.focused_row) as i64),
            None => true,
        },
    ensures
        r == can_set_null(readonly, match grid { Some(g) => Some(*g), None => None }),
{
    if readonly {
        return false;
    }
    let g = match grid {
        Some(g) => g,
        None => {
            return false;
        },
    };
    let col_idx = g.focused_col;
    if col_idx >= g.columns.len() {
        return false;
    }
    if g.columns[col_idx].not_null {
        return false;
    }
    match g.window.get_row(g.focused_row as i64) {
        Some(row) => {
            if col_idx < row.len() {
                match &row[col_idx] {
                    SqlValue::Null => false,
                    _ => true,
                }
            } else {
                false
            }
        },
        None => false,
    }
}

/// The text a value counts as among a column's enumerated values: none for
/// NULL and blobs.
pub open spec fn enum_text(v: SqlValue) -> Option<Seq<char>> {
    match v {
        SqlValue::Null => None,
        SqlValue::Blob(_) => None,
        SqlValue::Integer(n) => Some(int_decimal(n as int)),
        SqlValue::Real(r) => Some(r.display@),
        SqlValue::Text(t) => Some(t@),
    }
}

/// The texts of column `col` across `rows` (rows too short to have it are
/// skipped).
pub open spec fn column_texts(rows: Seq<Vec<SqlValue>>, col: int) -> Set<Seq<char>> {
    Set::new(
        |t: Seq<char>|
            exists|i: int| 0 <= i < rows.len() && col < rows[i]@.len() && enum_text(#[trigger] rows[i]@[col]) == Some(t),
    )
}

/// The enumeration test on texts.
pub open spec fn is_enum_texts(s: Seq<Seq<char>>, total_rows: i64) -> bool {
    &&& s.len() > 0
    &&& s.len() < ENUM_COLOR_DISTINCT_LIMIT
    &&& forall|i: int| 0 <= i < s.len() ==> (#[trigger] s[i]).len() <= ENUM_VALUE_MAX_CHARS
    &&& !(total_rows > 0 && s.len() == total_rows)
}

/// The text of a value among a column's enumerated values.
fn enum_text_of(v: &SqlValue) -> (r: Option<String>)
    ensures
        match r {
            Some(t) => enum_text(*v) == Some(t@),
            None => enum_text(*v) is None,
        },
{
    match v {
        SqlValue::Null => None,
        SqlValue::Blob(_) => None,
        SqlValue::Integer(n) => Some(i64_to_decimal(*n)),
        SqlValue::Real(r) => Some(r.display.clone()),
        SqlValue::Text(t) => Some(t.clone()),
    }
}

/// The enumerated values inferred from the loaded rows of column `column`:
/// its distinct texts in order, kept when they make an enumeration.
pub fn inferred_enumerated_values(rows: &[Vec<SqlValue>], column: usize, total_rows: i64) -> (r: Vec<String>)
    ensures
        exists|s: Seq<Seq<char>>| {
            &&& sorted_listing(s, column_texts(rows@, column as int))
            &&& texts_of(r@) == if is_enum_texts(s, total_rows) { s } else { Seq::<Seq<char>>::empty() }
        },
{
    let mut out: Vec<String> = Vec::new();
    let mut i: usize = 0;
    while i < rows.len()
        invariant
            i <= rows@.len(),
            strictly_sorted(texts_of(out@)),
            forall|u: Seq<char>| #[trigger] texts_of(out@).contains(u) <==> exists|k: int|
                0 <= k < i && column < rows@[k]@.len() && enum_text(#[trigger] rows@[k]@[column as int]) == Some(u),
        decreases rows@.len() - i,
    {
        let ghost before = texts_of(out@);
        if column < rows[i].len() {
            match enum_text_of(&rows[i][column]) {
                Some(t) => {
                    let ghost tv = t@;
                    insert_sorted(&mut out, t);
                    proof {
                        assert forall|u: Seq<char>| #[trigger] texts_of(out@).contains(u) <==> exists|k: int|
                            0 <= k < i + 1 && column < rows@[k]@.len() && enum_text(#[trigger] rows@[k]@[column as int]) == Some(u) by {
                            if u == tv {
                                assert(enum_text(rows@[i as int]@[column as int]) == Some(u));
                            }
                            if exists|k: int| 0 <= k < i + 1 && column < rows@[k]@.len() && enum_text(#[trigger] rows@[k]@[column as int]) == Some(u) {
                                let k = choose|k: int| 0 <= k < i + 1 && column < rows@[k]@.len() && enum_text(#[trigger] rows@[k]@[column as int]) == Some(u);
                                if k < i {
                                    assert(before.contains(u));
                                }
                            }
                        }
                    }
                },
                None => {
                    proof {
                        assert forall|u: Seq<char>| #[trigger] texts_of(out@).contains(u) <==> exists|k: int|
                            0 <= k < i + 1 && column < rows@[k]@.len() && enum_text(#[trigger] rows@[k]@[column as int]) == Some(u) by {
                            if exists|k: int| 0 <= k < i + 1 && column < rows@[k]@.len() && enum_text(#[trigger] rows@[k]@[column as int]) == Some(u) {
                                let k = choose|k: int| 0 <= k < i + 1 && column < rows@[k]@.len() && enum_text(#[trigger] rows@[k]@[column as int]) == Some(u);
                                assert(k < i);
                            }
                        }
                    }
                },
            }
        } else {
            proof {
                assert forall|u: Seq<char>| #[trigger] texts_of(out@).contains(u) <==> exists|k: int|
                    0 <= k < i + 1 && column < rows@[k]@.len() && enum_text(#[trigger] rows@[k]@[column as int]) == Some(u) by {
                    if exists|k: int| 0 <= k < i + 1 && column < rows@[k]@.len() && enum_text(#[trigger] rows@[k]@[column as int]) == Some(u) {
                        let k = choose|k: int| 0 <= k < i + 1 && column < rows@[k]@.len() && enum_text(#[trigger] rows@[k]@[column as int]) == Some(u);
                        assert(k < i);
                    }
                }
            }
        }
        i = i + 1;
    }
    let ghost s = texts_of(out@);
    proof {
        assert forall|t: Seq<char>| #[trigger] column_texts(rows@, column as int).contains(t) <==> s.contains(t) by {}
        assert(sorted_listing(s, column_texts(rows@, column as int)));
        assert(is_enumeration(out@, total_rows) == is_enum_texts(s, total_rows)) by {
            assert forall|k: int| 0 <= k < s.len() implies (#[trigger] s[k]) == out@[k]@ by {}
            if is_enumeration(out@, total_rows) {
                assert forall|k: int| 0 <= k < s.len() implies (#[trigger] s[k]).len() <= ENUM_VALUE_MAX_CHARS by {
                    assert(out@[k]@.len() <= ENUM_VALUE_MAX_CHARS);
                }
            }
            if is_enum_texts(s, total_rows) {
                assert forall|k: int| 0 <= k < out@.len() implies (#[trigger] out@[k])@.len() <= ENUM_VALUE_MAX_CHARS by {
                    assert(s[k].len() <= ENUM_VALUE_MAX_CHARS);
                }
            }
        }
    }
    if out.len() >= ENUM_COLOR_DISTINCT_LIMIT {
        assert(!is_enum_texts(s, total_rows));
        let e: Vec<String> = Vec::new();
        assert(texts_of(e@) =~= Seq::<Seq<char>>::empty());
        return e;
    }
    let r = normalize_enumerated_values(out, total_rows);
    proof {
        if is_enum_texts(s, total_rows) {
            assert(texts_of(r@) == s);
        } else {
            assert(texts_of(r@) =~= Seq::<Seq<char>>::empty());
        }
    }
    r
}

} // verus!

