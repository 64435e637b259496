//! The inline text editor of a cell: the value being typed, a cursor in it
//! and a scroll position, and what each key does to them.

use vstd::prelude::*;
use crate::edit_keys::{edit_key, edit_key_action, EditAction, EditorView};
use crate::keys::{KeyCode, KeyInput, ALT, CONTROL, NONE, SHIFT};
use crate::text::{chars_of, push_char};
use crate::value::SqlValue;

verus! {

/// The editor's state: the cell it edits (table, rowid, column and the value
/// it held), the text as characters, the cursor (a character index,
/// `0 ..= len`), whether newlines may be typed, and the first line shown.
pub struct TextEditState {
    pub table: String,
    pub rowid: i64,
    pub col_name: String,
    pub original: SqlValue,
    pub current: Vec<char>,
    pub cursor: usize,
    pub multiline: bool,
    pub scroll: usize,
}

/// What a key did in the editor.
#[derive(PartialEq, Eq, Structural, Clone, Copy, Debug)]
pub enum EditOutcome {
    /// The value is to be written back.
    Commit,
    /// The editor is to be closed without writing.
    Close,
    /// The editor's state was acted on; it is to be drawn again.
    Redraw,
    /// The key does nothing here.
    Ignored,
}

/// Where the line holding position `i` starts: just after the last newline
/// before `i`, or 0.
pub open spec fn line_start(s: Seq<char>, i: int) -> int
    decreases i,
{
    if i <= 0 {
        0
    } else if s[i - 1] == '\n' {
        i
    } else {
        line_start(s, i - 1)
    }
}

/// Where the line holding position `i` ends: at the first newline at or
/// after `i`, or at the end of the text.
pub open spec fn line_end(s: Seq<char>, i: int) -> int
    decreases s.len() - i,
{
    if i >= s.len() {
        s.len() as int
    } else if s[i] == '\n' {
        i
    } else {
        line_end(s, i + 1)
    }
}

/// The smaller of `a` and `b`.
pub open spec fn min_int(a: int, b: int) -> int {
    if a < b {
        a
    } else {
        b
    }
}

/// The cursor one line up: the same column of the line before, or that
/// line's end when it is shorter; unchanged on the first line.
pub open spec fn cursor_up(s: Seq<char>, c: int) -> int {
    let ls = line_start(s, c);
    if ls == 0 {
        c
    } else {
        let ps = line_start(s, ls - 1);
        ps + min_int(c - ls, (ls - 1) - ps)
    }
}

/// The cursor one line down: the same column of the line after, or that
/// line's end when it is shorter; unchanged on the last line.
pub open spec fn cursor_down(s: Seq<char>, c: int) -> int {
    let le = line_end(s, c);
    if le == s.len() {
        c
    } else {
        let ns = le + 1;
        ns + min_int(c - line_start(s, c), line_end(s, ns) - ns)
    }
}

/// The text, cursor, scroll and outcome after editor action `a`.
pub open spec fn apply_text_action(s: Seq<char>, c: int, sc: int, a: EditAction) -> (Seq<char>, int, int, EditOutcome) {
    match a {
        EditAction::CommitEdit => (s, c, sc, EditOutcome::Commit),
        EditAction::ClosePopup => (s, c, sc, EditOutcome::Close),
        EditAction::InsertChar(ch) => (s.insert(c, ch), c + 1, sc, EditOutcome::Redraw),
        EditAction::Indent => (s.insert(c, ' ').insert(c + 1, ' '), c + 2, sc, EditOutcome::Redraw),
        EditAction::DeleteBackward => if c > 0 {
            (s.remove(c - 1), c - 1, sc, EditOutcome::Redraw)
        } else {
            (s, c, sc, EditOutcome::Redraw)
        },
        EditAction::CursorLeft => (s, if c > 0 { c - 1 } else { c }, sc, EditOutcome::Redraw),
        EditAction::CursorRight => (s, if c < s.len() { c + 1 } else { c }, sc, EditOutcome::Redraw),
        EditAction::CursorUp => (s, cursor_up(s, c), sc, EditOutcome::Redraw),
        EditAction::CursorDown => (s, cursor_down(s, c), sc, EditOutcome::Redraw),
        EditAction::ScrollUp(n) => (s, c, if sc >= n { sc - n } else { 0 }, EditOutcome::Redraw),
        EditAction::ScrollDown(n) => (
            s,
            c,
            if sc + n <= usize::MAX { sc + n } else { usize::MAX as int },
            EditOutcome::Redraw,
        ),
        _ => (s, c, sc, EditOutcome::Ignored),
    }
}

/// What key `k` does to an editor with text `s`, cursor `c` and scroll `sc`.
pub open spec fn text_step(s: Seq<char>, c: int, sc: int, multiline: bool, k: KeyInput) -> (Seq<char>, int, int, EditOutcome) {
    apply_text_action(s, c, sc, edit_key(EditorView::TextEditor { multiline }, k))
}

/// Typing a character and then pressing Backspace gives back the text and
/// the cursor as they were.
pub proof fn lemma_backspace_undoes_typing(s: Seq<char>, c: int, sc: int, ch: char)
    requires
        0 <= c <= s.len(),
    ensures
        ({
            let t = apply_text_action(s, c, sc, EditAction::InsertChar(ch));
            apply_text_action(t.0, t.1, t.2, EditAction::DeleteBackward) == (s, c, sc, EditOutcome::Redraw)
        }),
{
    assert(s.insert(c, ch).remove(c) =~= s);
}

proof fn lemma_line_start_bounds(s: Seq<char>, i: int)
    requires
        0 <= i <= s.len(),
    ensures
        0 <= line_start(s, i) <= i,
        line_start(s, i) > 0 ==> s[line_start(s, i) - 1] == '\n',
    decreases i,
{
    if i > 0 && s[i - 1] != '\n' {
        lemma_line_start_bounds(s, i - 1);
    }
}

proof fn lemma_line_end_bounds(s: Seq<char>, i: int)
    requires
        0 <= i <= s.len(),
    ensures
        i <= line_end(s, i) <= s.len(),
        line_end(s, i) < s.len() ==> s[line_end(s, i)] == '\n',
    decreases s.len() - i,
{
    if i < s.len() && s[i] != '\n' {
        lemma_line_end_bounds(s, i + 1);
    }
}

/// The start of the line holding position `i`.
fn line_start_of(s: &Vec<char>, i: usize) -> (r: usize)
    requires
        i <= s@.len(),
    ensures
        r == line_start(s@, i as int),
{
    let mut j = i;
    while j > 0 && s[j - 1] != '\n'
        invariant
            j <= i <= s@.len(),
            line_start(s@, j as int) == line_start(s@, i as int),
        decreases j,
    {
        j = j - 1;
    }
    j
}

/// The end of the line holding position `i`.
fn line_end_of(s: &Vec<char>, i: usize) -> (r: usize)
    requires
        i <= s@.len(),
    ensures
        r == line_end(s@, i as int),
{
    let mut j = i;
    while j < s.len() && s[j] != '\n'
        invariant
            i <= j <= s@.len(),
            line_end(s@, j as int) == line_end(s@, i as int),
        decreases s@.len() - j,
    {
        j = j + 1;
    }
    j
}

impl TextEditState {
    /// `self` edits the same cell as `other`.
    pub open spec fn same_cell(self, other: TextEditState) -> bool {
        &&& self.table == other.table
        &&& self.rowid == other.rowid
        &&& self.col_name == other.col_name
        &&& self.original == other.original
    }

    /// The cursor lies within the text.
    pub open spec fn wf(self) -> bool {
        self.cursor <= self.current@.len()
    }

    /// An editor on `text` for column `col_name` of row `rowid` of `table`,
    /// which held `original`; the cursor at the text's end, scrolled to the
    /// top.
    pub fn new(table: String, rowid: i64, col_name: String, original: SqlValue, text: &str, multiline: bool) -> (r: TextEditState)
        ensures
            r.wf(),
            r.table == table,
            r.rowid == rowid,
            r.col_name == col_name,
            r.original == original,
            r.current@ == text@,
            r.cursor == text@.len(),
            r.multiline == multiline,
            r.scroll == 0,
    {
        let current = chars_of(text);
        let cursor = current.len();
        TextEditState { table, rowid, col_name, original, current, cursor, multiline, scroll: 0 }
    }

    /// The text being edited.
    pub fn text(&self) -> (r: String)
        ensures
            r@ == self.current@,
    {
        let mut r = String::new();
        let mut i: usize = 0;
        while i < self.current.len()
            invariant
                i <= self.current@.len(),
                r@ == self.current@.subrange(0, i as int),
            decreases self.current@.len() - i,
        {
            push_char(&mut r, self.current[i]);
            i = i + 1;
            assert(r@ =~= self.current@.subrange(0, i as int));
        }
        assert(self.current@.subrange(0, i as int) =~= self.current@);
        r
    }

    /// Inserts `ch` at the cursor and moves the cursor past it.
    fn insert_char(&mut self, ch: char)
        requires
            old(self).wf(),
        ensures
            final(self).wf(),
            final(self).current@ == old(self).current@.insert(old(self).cursor as int, ch),
            final(self).cursor == old(self).cursor + 1,
            final(self).multiline == old(self).multiline,
            final(self).scroll == old(self).scroll,
            final(self).same_cell(*old(self)),
    {
        self.current.insert(self.cursor, ch);
        let n = self.current.len();
        assert(self.cursor < n);
        self.cursor = self.cursor + 1;
    }

    /// The cursor one line up.
    fn up(&self) -> (r: usize)
        requires
            self.wf(),
        ensures
            r == cursor_up(self.current@, self.cursor as int),
            r <= self.current@.len(),
    {
        let s = &self.current;
        let c = self.cursor;
        let ls = line_start_of(s, c);
        proof {
            lemma_line_start_bounds(s@, c as int);
        }
        if ls == 0 {
            c
        } else {
            let ps = line_start_of(s, ls - 1);
            proof {
                lemma_line_start_bounds(s@, ls - 1);
            }
            let col = c - ls;
            let plen = (ls - 1) - ps;
            ps + if col < plen { col } else { plen }
        }
    }

    /// The cursor one line down.
    fn down(&self) -> (r: usize)
        requires
            self.wf(),
        ensures
            r == cursor_down(self.current@, self.cursor as int),
            r <= self.current@.len(),
    {
        let s = &self.current;
        let c = self.cursor;
        let le = line_end_of(s, c);
        proof {
            lemma_line_end_bounds(s@, c as int);
            lemma_line_start_bounds(s@, c as int);
        }
        if le == s.len() {
            c
        } else {
            let ns = le + 1;
            let ne = line_end_of(s, ns);
            proof {
                lemma_line_end_bounds(s@, ns as int);
            }
            let col = c - line_start_of(s, c);
            let nlen = ne - ns;
            ns + if col < nlen { col } else { nlen }
        }
    }

    /// Acts on key `k`: types, deletes, moves the cursor or scrolls, or
    /// says that the value is to be committed or the editor closed.
    pub fn edit_step(&mut self, k: KeyInput) -> (r: EditOutcome)
        requires
            old(self).wf(),
        ensures
            final(self).wf(),
            final(self).multiline == old(self).multiline,
            final(self).same_cell(*old(self)),
            (final(self).current@, final(self).cursor as int, final(self).scroll as int, r) == text_step(
                old(self).current@,
                old(self).cursor as int,
                old(self).scroll as int,
                old(self).multiline,
                k,
            ),
    {
        let action = edit_key_action(EditorView::TextEditor { multiline: self.multiline }, k);
        match action {
            EditAction::CommitEdit => EditOutcome::Commit,
            EditAction::ClosePopup => EditOutcome::Close,
            EditAction::InsertChar(ch) => {
                self.insert_char(ch);
                EditOutcome::Redraw
            },
            EditAction::Indent => {
                self.insert_char(' ');
                self.insert_char(' ');
                EditOutcome::Redraw
            },
            EditAction::DeleteBackward => {
                if self.cursor > 0 {
                    self.current.remove(self.cursor - 1);
                    self.cursor = self.cursor - 1;
                }
                EditOutcome::Redraw
            },
            EditAction::CursorLeft => {
                if self.cursor > 0 {
                    self.cursor = self.cursor - 1;
                }
                EditOutcome::Redraw
            },
            EditAction::CursorRight => {
                if self.cursor < self.current.len() {
                    self.cursor = self.cursor + 1;
                }
                EditOutcome::Redraw
            },
            EditAction::CursorUp => {
                self.cursor = self.up();
                EditOutcome::Redraw
            },
            EditAction::CursorDown => {
                self.cursor = self.down();
                EditOutcome::Redraw
            },
            EditAction::ScrollUp(n) => {
                self.scroll = self.scroll.saturating_sub(n);
                EditOutcome::Redraw
            },
            EditAction::ScrollDown(n) => {
                self.scroll = self.scroll.saturating_add(n);
                EditOutcome::Redraw
            },
            _ => EditOutcome::Ignored,
        }
    }
}


/// Right moves the cursor one place while it is before the end and leaves
/// it at the end; Left moves it back one place while it is after the start;
/// so Left then Right, or Right then Left, gives the cursor back. Neither
/// changes the text or the scroll.
pub proof fn lemma_cursor_left_right(s: Seq<char>, c: int, sc: int)
    requires
        0 <= c <= s.len(),
    ensures
        apply_text_action(s, c, sc, EditAction::CursorRight) == (s, if c < s.len() { c + 1 } else { c }, sc, EditOutcome::Redraw),
        apply_text_action(s, c, sc, EditAction::CursorLeft) == (s, if c > 0 { c - 1 } else { c }, sc, EditOutcome::Redraw),
        c > 0 ==> ({
            let l = apply_text_action(s, c, sc, EditAction::CursorLeft);
            apply_text_action(l.0, l.1, l.2, EditAction::CursorRight).1 == c
        }),
        c < s.len() ==> ({
            let r = apply_text_action(s, c, sc, EditAction::CursorRight);
            apply_text_action(r.0, r.1, r.2, EditAction::CursorLeft).1 == c
        }),
{
}

/// The arrow keys without modifiers move the cursor: Right to `c + 1` before
/// the end, Left to `c - 1` after the start, in a single- or multi-line
/// editor alike; a plain or shifted character is inserted at the cursor,
/// which moves past it.
pub proof fn lemma_keys_move_and_type(s: Seq<char>, c: int, sc: int, multiline: bool, ch: char, shifted: bool)
    requires
        0 <= c <= s.len(),
    ensures
        c < s.len() ==> text_step(s, c, sc, multiline, KeyInput { code: KeyCode::Right, modifiers: NONE }) == (
            s,
            c + 1,
            sc,
            EditOutcome::Redraw,
        ),
        c > 0 ==> text_step(s, c, sc, multiline, KeyInput { code: KeyCode::Left, modifiers: NONE }) == (
            s,
            c - 1,
            sc,
            EditOutcome::Redraw,
        ),
        text_step(s, c, sc, multiline, KeyInput { code: KeyCode::Char(ch), modifiers: if shifted { SHIFT } else { NONE } })
            == (s.insert(c, ch), c + 1, sc, EditOutcome::Redraw),
{
}


/// Backspace removes the character before the cursor, which moves back one
/// place; at the start it changes nothing. Enter (plain or with Shift)
/// commits and Esc closes, both leaving the text as it is; Ctrl+Enter does
/// nothing; Alt+Enter starts a new line and Tab indents by two spaces in a
/// multi-line editor, and do nothing in a single-line one.
pub proof fn lemma_editing_keys(s: Seq<char>, c: int, sc: int, multiline: bool)
    requires
        0 <= c <= s.len(),
    ensures
        text_step(s, c, sc, multiline, KeyInput { code: KeyCode::Backspace, modifiers: NONE }) == if c > 0 {
            (s.remove(c - 1), c - 1, sc, EditOutcome::Redraw)
        } else {
            (s, c, sc, EditOutcome::Redraw)
        },
        text_step(s, c, sc, multiline, KeyInput { code: KeyCode::Enter, modifiers: NONE }) == (s, c, sc, EditOutcome::Commit),
        text_step(s, c, sc, multiline, KeyInput { code: KeyCode::Enter, modifiers: SHIFT }) == (s, c, sc, EditOutcome::Commit),
        text_step(s, c, sc, multiline, KeyInput { code: KeyCode::Esc, modifiers: NONE }) == (s, c, sc, EditOutcome::Close),
        text_step(s, c, sc, multiline, KeyInput { code: KeyCode::Enter, modifiers: CONTROL }) == (s, c, sc, EditOutcome::Ignored),
        text_step(s, c, sc, multiline, KeyInput { code: KeyCode::Enter, modifiers: ALT }) == if multiline {
            (s.insert(c, '\n'), c + 1, sc, EditOutcome::Redraw)
        } else {
            (s, c, sc, EditOutcome::Ignored)
        },
        text_step(s, c, sc, multiline, KeyInput { code: KeyCode::Tab, modifiers: NONE }) == if multiline {
            (s.insert(c, ' ').insert(c + 1, ' '), c + 2, sc, EditOutcome::Redraw)
        } else {
            (s, c, sc, EditOutcome::Ignored)
        },
{
}

/// Positions after a newline (or the start) up to `i` with no newline
/// between them share their line's start.
proof fn lemma_line_start_of_line(s: Seq<char>, j: int, i: int)
    requires
        0 <= j <= i <= s.len(),
        j == 0 || s[j - 1] == '\n',
        forall|k: int| j <= k < i ==> s[k] != '\n',
    ensures
        line_start(s, i) == j,
    decreases i,
{
    if i > j {
        lemma_line_start_of_line(s, j, i - 1);
    }
}

/// From `i` on, with no newline before `e`, the line ends at `e` when `e`
/// holds a newline or is the end of the text.
proof fn lemma_line_end_of_line(s: Seq<char>, i: int, e: int)
    requires
        0 <= i <= e <= s.len(),
        e == s.len() || s[e] == '\n',
        forall|k: int| i <= k < e ==> s[k] != '\n',
    ensures
        line_end(s, i) == e,
    decreases e - i,
{
    if i < e {
        lemma_line_end_of_line(s, i + 1, e);
    }
}

/// On a text of two lines `a` and `b`, Up from column `k` of `b` goes to
/// column `k` of `a` (its end when `a` is shorter), and Down from column `k`
/// of `a` goes to column `k` of `b` (its end when `b` is shorter).
pub proof fn lemma_up_down_keep_the_column(a: Seq<char>, b: Seq<char>, k: int)
    requires
        forall|i: int| 0 <= i < a.len() ==> a[i] != '\n',
        forall|i: int| 0 <= i < b.len() ==> b[i] != '\n',
        0 <= k,
    ensures
        ({
            let s = a + seq!['\n'] + b;
            &&& k <= b.len() ==> cursor_up(s, a.len() + 1 + k) == if k < a.len() { k } else { a.len() as int }
            &&& k <= a.len() ==> cursor_down(s, k) == a.len() + 1 + if k < b.len() { k } else { b.len() as int }
        }),
{
    let s = a + seq!['\n'] + b;
    let n = a.len() as int;
    assert(s[n] == '\n');
    assert forall|i: int| 0 <= i < n implies s[i] != '\n' by {
        assert(s[i] == a[i]);
    }
    assert forall|i: int| n + 1 <= i < s.len() implies s[i] != '\n' by {
        assert(s[i] == b[i - n - 1]);
    }
    if k <= b.len() {
        lemma_line_start_of_line(s, n + 1, n + 1 + k);
        lemma_line_start_of_line(s, 0, n);
    }
    if k <= n {
        lemma_line_end_of_line(s, k, n);
        lemma_line_start_of_line(s, 0, k);
        lemma_line_end_of_line(s, n + 1, s.len() as int);
    }
}

} // verus!
