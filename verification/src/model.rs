//! The editor as a mathematical value, and each operation as a function from
//! one such value to the next. The contracts of the executable editor are
//! stated over these functions, and the laws of the editor are proved of them.

use crate::document::{
    fits, joined_at, lemma_total_chars_insert, lemma_total_chars_remove, lemma_total_chars_update,
    split_at, total_chars, with_char, without_char, MAX_LINES, MAX_LINE_LEN,
};
use crate::util::{Coordinates, EditorMode, Key, RenderDirective};
use vstd::prelude::*;

verus! {

/// The row behind which a window that starts at `start` ends: `height` lines
/// further down, or at the last row a coordinate can name.
pub open spec fn window_end(start: int, height: int) -> int {
    if start + height <= u16::MAX {
        start + height
    } else {
        u16::MAX as int
    }
}

/// Where a window of `height` lines that started at `start` has to start so
/// that it shows the 1-based row `row`: as it was when the row is already
/// inside, otherwise moved just far enough.
pub open spec fn window_start_for(start: int, height: int, row: int) -> int {
    if row - 1 < start {
        row - 1
    } else if row - 1 >= start + height {
        row - height
    } else {
        start
    }
}

/// `value` brought into `[low, high]`.
pub open spec fn clamped(value: int, low: int, high: int) -> int {
    if value < low {
        low
    } else if value > high {
        high
    } else {
        value
    }
}

/// The text of each string, in order.
pub open spec fn string_texts(strings: Seq<String>) -> Seq<Seq<char>> {
    Seq::new(strings.len(), |i: int| strings[i]@)
}

/// The lines an editor starts on: those given, or one empty line where
/// none are given, be it no list or a list without lines.
pub open spec fn given_lines(lines: Option<Seq<Seq<char>>>) -> Seq<Seq<char>> {
    match lines {
        Some(lines) => if lines.len() > 0 {
            lines
        } else {
            seq![Seq::<char>::empty()]
        },
        None => seq![Seq::<char>::empty()],
    }
}

/// What an editor holds.
pub struct EditorView {
    /// The text of each line of the document.
    pub lines: Seq<Seq<char>>,
    /// The running character count.
    pub total_length: nat,
    /// The cursor in the document: 1-based column and row.
    pub buffer_position: Coordinates,
    /// The cursor on the terminal: 1-based column and row.
    pub screen_position: Coordinates,
    /// The visible lines: `x` is the index of the first, `y` the index
    /// behind the last.
    pub window: Coordinates,
    /// Columns and rows of the terminal.
    pub terminal_size: Coordinates,
    pub mode: EditorMode,
    /// The buffer position saved when insert mode was left.
    pub last_cur_pos: Coordinates,
}

impl EditorView {
    /// The editor as it starts on `lines` in a terminal of `width` columns
    /// and `height` rows: in Command mode, the cursor on the first character
    /// of the document, the window at the top.
    pub open spec fn initial(lines: Seq<Seq<char>>, width: u16, height: u16) -> EditorView {
        EditorView {
            lines,
            total_length: total_chars(lines),
            buffer_position: Coordinates { x: 1, y: 1 },
            screen_position: Coordinates { x: 1, y: 1 },
            window: Coordinates { x: 0, y: window_end(0, height as int) as u16 },
            terminal_size: Coordinates { x: width, y: height },
            mode: EditorMode::Command,
            last_cur_pos: Coordinates { x: 1, y: 1 },
        }
    }

    /// The index behind the last visible line that the document has.
    pub open spec fn visible_end(self) -> int {
        if self.window.y <= self.lines.len() {
            self.window.y as int
        } else {
            self.lines.len() as int
        }
    }

    /// The lines of the document that the window shows.
    pub open spec fn visible(self) -> Seq<Seq<char>> {
        self.lines.subrange(self.window.x as int, self.visible_end())
    }

    /// The cursor's row in the document, counted from 1.
    pub open spec fn row(self) -> int {
        self.buffer_position.y as int
    }

    /// The cursor's column in its line, counted from 1.
    pub open spec fn col(self) -> int {
        self.buffer_position.x as int
    }

    /// The line the cursor is on.
    pub open spec fn line(self) -> Seq<char> {
        self.lines[self.row() - 1]
    }

    /// The column right behind the last character of the 1-based row `row`.
    pub open spec fn end_col(self, row: int) -> int {
        self.lines[row - 1].len() as int + 1
    }

    /// The number of rows of the terminal.
    pub open spec fn height(self) -> int {
        self.terminal_size.y as int
    }

    /// The cursor is on a line of the document, on one of its characters or
    /// right behind the last.
    pub open spec fn cursor_in_document(self) -> bool {
        &&& 1 <= self.row() <= self.lines.len()
        &&& 1 <= self.col() <= self.end_col(self.row())
    }

    /// The window is as many lines high as the terminal.
    pub open spec fn window_shaped(self) -> bool {
        &&& self.height() >= 1
        &&& self.window.y == window_end(self.window.x as int, self.height())
    }

    /// The cursor's line is one of the visible lines.
    pub open spec fn cursor_in_window(self) -> bool {
        self.window.x <= self.row() - 1 < self.window.y
    }

    /// The screen position is the buffer position seen through the window.
    pub open spec fn screen_in_step(self) -> bool {
        self.screen_position == (Coordinates {
            x: self.buffer_position.x,
            y: (self.row() - self.window.x) as u16,
        })
    }

    /// Everything that holds of an editor between two operations.
    pub open spec fn wf(self) -> bool {
        &&& fits(self.lines)
        &&& self.total_length == total_chars(self.lines)
        &&& self.cursor_in_document()
        &&& self.window_shaped()
        &&& self.cursor_in_window()
        &&& self.screen_in_step()
    }

    /// The window moved one line down.
    pub open spec fn scrolled_down(self) -> EditorView {
        EditorView {
            window: Coordinates {
                x: (self.window.x + 1) as u16,
                y: window_end(self.window.x + 1, self.height()) as u16,
            },
            ..self
        }
    }

    /// The window moved one line up.
    pub open spec fn scrolled_up(self) -> EditorView {
        EditorView {
            window: Coordinates {
                x: (self.window.x - 1) as u16,
                y: window_end(self.window.x - 1, self.height()) as u16,
            },
            ..self
        }
    }

    /// The cursor put at column `x`, row `y`, the window moved to show that
    /// row, and the screen position brought in step.
    pub open spec fn moved_to(self, x: int, y: int) -> EditorView {
        let start = window_start_for(self.window.x as int, self.height(), y);
        EditorView {
            buffer_position: Coordinates { x: x as u16, y: y as u16 },
            window: Coordinates { x: start as u16, y: window_end(start, self.height()) as u16 },
            screen_position: Coordinates { x: x as u16, y: (y - start) as u16 },
            ..self
        }
    }

    /// What is painted after the cursor went from `self` to `after`: the
    /// window if it moved, else the status line if the cursor moved.
    pub open spec fn move_directive(self, after: EditorView) -> Option<RenderDirective> {
        if after.window != self.window {
            Some(RenderDirective::RedrawViewport(after.window.x, after.window.y))
        } else if after.buffer_position != self.buffer_position {
            Some(RenderDirective::RedrawStatus)
        } else {
            None
        }
    }

    /// Typing `c`: it goes in front of the cursor's column and the cursor
    /// moves one column right. A line that is full stays as it is.
    pub open spec fn after_char(self, c: char) -> EditorView {
        if self.line().len() < MAX_LINE_LEN {
            (EditorView {
                lines: with_char(self.lines, self.row() - 1, self.col() - 1, c),
                total_length: self.total_length + 1,
                ..self
            }).moved_to(self.col() + 1, self.row())
        } else {
            self
        }
    }

    /// What is painted after a character: its line, if it took the character.
    pub open spec fn char_directive(self) -> Option<RenderDirective> {
        if self.line().len() < MAX_LINE_LEN {
            Some(RenderDirective::RedrawLine(self.buffer_position.y))
        } else {
            None
        }
    }

    /// Enter: the line is cut at the cursor, and the cursor goes to the
    /// start of the new line below. A document that is full stays as it is.
    pub open spec fn after_newline(self) -> EditorView {
        if self.lines.len() < MAX_LINES {
            (EditorView {
                lines: split_at(self.lines, self.row() - 1, self.col() - 1),
                ..self
            }).moved_to(1, self.row() + 1)
        } else {
            self
        }
    }

    /// What is painted after Enter: the window, if the line was cut.
    pub open spec fn newline_directive(self) -> Option<RenderDirective> {
        if self.lines.len() < MAX_LINES {
            let after = self.after_newline();
            Some(RenderDirective::RedrawViewport(after.window.x, after.window.y))
        } else {
            None
        }
    }

    /// Whether Backspace at the start of a line can join that line onto the
    /// one above: there is one, and the two together are no longer than a
    /// line may be.
    pub open spec fn can_join(self) -> bool {
        &&& self.row() >= 2
        &&& self.lines[self.row() - 2].len() + self.line().len() <= MAX_LINE_LEN
    }

    /// Backspace. At the start of the document nothing happens. At the start
    /// of a later line, the line is joined onto the one above, and the
    /// cursor goes to where that one ended; an empty line simply goes away.
    /// Elsewhere the character in front of the cursor is taken out and the
    /// cursor moves one column left; a line of one character becomes empty.
    pub open spec fn after_delete(self) -> EditorView {
        if self.col() <= 1 {
            if self.can_join() {
                (EditorView { lines: joined_at(self.lines, self.row() - 1), ..self }).moved_to(
                    self.end_col(self.row() - 1),
                    self.row() - 1,
                )
            } else {
                self
            }
        } else {
            (EditorView {
                lines: without_char(self.lines, self.row() - 1, self.col() - 2),
                total_length: (self.total_length - 1) as nat,
                ..self
            }).moved_to(self.col() - 1, self.row())
        }
    }

    /// What is painted after Backspace: the window where lines were joined,
    /// the line where a character went, nothing where nothing changed.
    pub open spec fn delete_directive(self) -> Option<RenderDirective> {
        if self.col() <= 1 {
            if self.can_join() {
                let after = self.after_delete();
                Some(RenderDirective::RedrawViewport(after.window.x, after.window.y))
            } else {
                None
            }
        } else {
            Some(RenderDirective::RedrawLine(self.buffer_position.y))
        }
    }

    /// Left: one column back, unless the cursor is at column 1.
    pub open spec fn after_left(self) -> EditorView {
        if self.col() > 1 {
            self.moved_to(self.col() - 1, self.row())
        } else {
            self
        }
    }

    /// Right: one column on, but never past the column behind the last
    /// character.
    pub open spec fn after_right(self) -> EditorView {
        if self.col() <= self.line().len() {
            self.moved_to(self.col() + 1, self.row())
        } else {
            self
        }
    }

    /// Up: to the end of the line above, if there is one.
    pub open spec fn after_up(self) -> EditorView {
        if self.row() >= 2 {
            self.moved_to(self.end_col(self.row() - 1), self.row() - 1)
        } else {
            self
        }
    }

    /// Down: to the end of the line below, if there is one.
    pub open spec fn after_down(self) -> EditorView {
        if self.row() < self.lines.len() {
            self.moved_to(self.end_col(self.row() + 1), self.row() + 1)
        } else {
            self
        }
    }

    /// Home: to column 1 of the same row.
    pub open spec fn after_home(self) -> EditorView {
        self.moved_to(1, self.row())
    }

    /// Escape: the buffer position is saved and the mode is Command.
    pub open spec fn after_esc(self) -> EditorView {
        EditorView { last_cur_pos: self.buffer_position, mode: EditorMode::Command, ..self }
    }

    /// The directive of Escape: the visible cursor goes to the first column
    /// of the terminal's last row, which is kept for the command line.
    pub open spec fn esc_directive(self) -> Option<RenderDirective> {
        Some(RenderDirective::PlaceCursor(1, self.terminal_size.y))
    }

    /// The row that the saved position restores: its own where the document
    /// has such a row, else the nearest.
    pub open spec fn restored_row(self) -> int {
        clamped(self.last_cur_pos.y as int, 1, self.lines.len() as int)
    }

    /// The column that the saved position restores in the restored row.
    pub open spec fn restored_col(self) -> int {
        clamped(self.last_cur_pos.x as int, 1, self.end_col(self.restored_row()))
    }

    /// From Command mode into Insert mode: the cursor goes back to the saved
    /// position. In Insert mode nothing happens.
    pub open spec fn after_enter_insert(self) -> EditorView {
        if self.mode == EditorMode::Command {
            (EditorView { mode: EditorMode::Insert, ..self }).moved_to(
                self.restored_col(),
                self.restored_row(),
            )
        } else {
            self
        }
    }

    /// What is painted on entering Insert mode: the window if it moved, else
    /// the cursor at its screen position.
    pub open spec fn enter_insert_directive(self) -> Option<RenderDirective> {
        if self.mode == EditorMode::Command {
            let after = self.after_enter_insert();
            if after.window != self.window {
                Some(RenderDirective::RedrawViewport(after.window.x, after.window.y))
            } else {
                Some(RenderDirective::PlaceCursor(after.screen_position.x, after.screen_position.y))
            }
        } else {
            None
        }
    }

    /// One key in the editor's hands. In Command mode keys belong to the
    /// command line, and the editor ignores them.
    pub open spec fn step(self, key: Key) -> EditorView {
        if self.mode == EditorMode::Command {
            self
        } else {
            match key {
                Key::Char(c) => if c == '\n' {
                    self.after_newline()
                } else {
                    self.after_char(c)
                },
                Key::Enter => self.after_newline(),
                Key::Backspace => self.after_delete(),
                Key::Escape => self.after_esc(),
                Key::ArrowLeft => self.after_left(),
                Key::ArrowRight => self.after_right(),
                Key::ArrowUp => self.after_up(),
                Key::ArrowDown => self.after_down(),
                Key::Home => self.after_home(),
                Key::Other => self,
            }
        }
    }

    /// What is painted after `key`.
    pub open spec fn step_directive(self, key: Key) -> Option<RenderDirective> {
        if self.mode == EditorMode::Command {
            None
        } else {
            match key {
                Key::Char(c) => if c == '\n' {
                    self.newline_directive()
                } else {
                    self.char_directive()
                },
                Key::Enter => self.newline_directive(),
                Key::Backspace => self.delete_directive(),
                Key::Escape => self.esc_directive(),
                Key::ArrowLeft => self.move_directive(self.after_left()),
                Key::ArrowRight => self.move_directive(self.after_right()),
                Key::ArrowUp => self.move_directive(self.after_up()),
                Key::ArrowDown => self.move_directive(self.after_down()),
                Key::Home => self.move_directive(self.after_home()),
                Key::Other => None,
            }
        }
    }

    /// The characters of `text` typed one after the other.
    pub open spec fn typed(self, text: Seq<char>) -> EditorView
        decreases text.len(),
    {
        if text.len() == 0 {
            self
        } else {
            self.typed(text.drop_last()).after_char(text.last())
        }
    }

    /// How many of `n` typed characters the cursor's line takes: all of
    /// them while it has room, else as many as fill it.
    pub open spec fn taken(self, n: nat) -> nat {
        if self.line().len() + n <= MAX_LINE_LEN {
            n
        } else {
            (MAX_LINE_LEN - self.line().len()) as nat
        }
    }

    /// Backspace pressed `n` times.
    pub open spec fn deleted(self, n: nat) -> EditorView
        decreases n,
    {
        if n == 0 {
            self
        } else {
            self.after_delete().deleted((n - 1) as nat)
        }
    }
}

/// A cursor that goes to its own row or to a neighbouring one scrolls the
/// window by one line at most, and then in the direction it went.
pub proof fn lemma_move_scrolls_once(s: EditorView, x: int, y: int)
    requires
        s.wf(),
        s.row() - 1 <= y <= s.row() + 1,
        1 <= y <= s.lines.len(),
    ensures
        s.moved_to(x, y).window == s.window
            || (y == s.row() + 1 && s.moved_to(x, y).window == s.scrolled_down().window)
            || (y == s.row() - 1 && s.moved_to(x, y).window == s.scrolled_up().window),
{
}

/// An operation leaves an editor that is in order in order: the count is
/// the number of characters in the lines, the cursor is on a line of the
/// document and in a column of that line or right behind it, the cursor's
/// line is visible and the screen position follows from the two.
pub proof fn lemma_step_keeps_wf(s: EditorView, key: Key)
    requires
        s.wf(),
    ensures
        s.step(key).wf(),
{
    if s.mode != EditorMode::Command {
        match key {
            Key::Char(c) => {
                if c == '\n' {
                    lemma_newline_keeps_wf(s);
                } else {
                    lemma_char_keeps_wf(s, c);
                }
            },
            Key::Enter => lemma_newline_keeps_wf(s),
            Key::Backspace => lemma_delete_keeps_wf(s),
            _ => {},
        }
    }
}

/// A typed character leaves an editor that is in order in order.
pub proof fn lemma_char_keeps_wf(s: EditorView, c: char)
    requires
        s.wf(),
    ensures
        s.after_char(c).wf(),
{
    if s.line().len() < MAX_LINE_LEN {
        lemma_total_chars_update(s.lines, s.row() - 1, s.line().insert(s.col() - 1, c));
    }
}

/// Enter leaves an editor that is in order in order.
pub proof fn lemma_newline_keeps_wf(s: EditorView)
    requires
        s.wf(),
    ensures
        s.after_newline().wf(),
{
    if s.lines.len() < MAX_LINES {
        let left = s.line().subrange(0, s.col() - 1);
        let rest = s.line().subrange(s.col() - 1, s.line().len() as int);
        lemma_total_chars_update(s.lines, s.row() - 1, left);
        lemma_total_chars_insert(s.lines.update(s.row() - 1, left), s.row(), rest);
    }
}

/// Backspace leaves an editor that is in order in order.
pub proof fn lemma_delete_keeps_wf(s: EditorView)
    requires
        s.wf(),
    ensures
        s.after_delete().wf(),
{
    if s.col() <= 1 {
        if s.can_join() {
            let both = s.lines[s.row() - 2] + s.line();
            lemma_total_chars_update(s.lines, s.row() - 2, both);
            lemma_total_chars_remove(s.lines.update(s.row() - 2, both), s.row() - 1);
        }
    } else {
        lemma_total_chars_update(s.lines, s.row() - 1, s.line().remove(s.col() - 2));
    }
}

/// Backspace on an empty line below the first takes the line out and puts
/// the cursor behind the end of the line above.
pub proof fn lemma_delete_on_empty_line(s: EditorView)
    requires
        s.wf(),
        s.row() >= 2,
        s.line().len() == 0,
    ensures
        s.after_delete().lines == s.lines.remove(s.row() - 1),
        s.after_delete().total_length == s.total_length,
        s.after_delete().col() == s.lines[s.row() - 2].len() + 1,
        s.after_delete().row() == s.row() - 1,
{
    assert(s.lines[s.row() - 2] + s.line() =~= s.lines[s.row() - 2]);
    assert(s.lines.update(s.row() - 2, s.lines[s.row() - 2]) =~= s.lines);
}

/// Backspace behind the only character of a line leaves the line empty and
/// the cursor at column 1.
pub proof fn lemma_delete_last_char_of_line(s: EditorView)
    requires
        s.wf(),
        s.line().len() == 1,
        s.col() == 2,
    ensures
        s.after_delete().lines == s.lines.update(s.row() - 1, Seq::<char>::empty()),
        s.after_delete().total_length == s.total_length - 1,
        s.after_delete().col() == 1,
        s.after_delete().row() == s.row(),
{
    assert(s.line().remove(0) =~= Seq::<char>::empty());
    lemma_total_chars_update(s.lines, s.row() - 1, Seq::<char>::empty());
}

/// Enter behind the last character of the last line adds an empty line at
/// the end of the document.
pub proof fn lemma_newline_at_end(s: EditorView)
    requires
        s.wf(),
        s.lines.len() < MAX_LINES,
        s.row() == s.lines.len(),
        s.col() == s.line().len() + 1,
    ensures
        s.after_newline().lines == s.lines.push(Seq::<char>::empty()),
        s.after_newline().total_length == s.total_length,
        s.after_newline().col() == 1,
        s.after_newline().row() == s.row() + 1,
{
    let text = s.line();
    assert(text.subrange(0, text.len() as int) =~= text);
    assert(text.subrange(text.len() as int, text.len() as int) =~= Seq::<char>::empty());
    assert(s.lines.update(s.row() - 1, text) =~= s.lines);
    assert(s.lines.insert(s.row(), Seq::<char>::empty()) =~= s.lines.push(Seq::<char>::empty()));
}

/// Entering insert mode leaves an editor that is in order in order, wherever
/// the saved position points.
pub proof fn lemma_enter_insert_keeps_wf(s: EditorView)
    requires
        s.wf(),
    ensures
        s.after_enter_insert().wf(),
{
}

/// Backspace undoes a typed character: the editor is as it was before the
/// character, provided the line had room for it.
pub proof fn lemma_char_then_delete(s: EditorView, c: char)
    requires
        s.wf(),
        s.line().len() < MAX_LINE_LEN,
    ensures
        s.after_char(c).after_delete() == s,
{
    let t = s.after_char(c);
    assert(t.lines[s.row() - 1].remove(s.col() - 1) =~= s.line());
    assert(without_char(t.lines, s.row() - 1, s.col() - 1) =~= s.lines);
}

/// Typing lengthens the cursor's line by what was typed, as long as the
/// line has room, and leaves the editor in order.
pub proof fn lemma_typed(s: EditorView, text: Seq<char>)
    requires
        s.wf(),
        s.line().len() + text.len() <= MAX_LINE_LEN,
    ensures
        s.typed(text).wf(),
        s.typed(text).row() == s.row(),
        s.typed(text).line().len() == s.line().len() + text.len(),
    decreases text.len(),
{
    if text.len() > 0 {
        lemma_typed(s, text.drop_last());
        lemma_char_keeps_wf(s.typed(text.drop_last()), text.last());
    }
}

/// Any characters typed and then as many Backspaces give the editor as it
/// was: the same lines, the same count, the same cursor. The line must have
/// room for the characters.
pub proof fn lemma_typed_then_deleted(s: EditorView, text: Seq<char>)
    requires
        s.wf(),
        s.line().len() + text.len() <= MAX_LINE_LEN,
    ensures
        s.typed(text).deleted(text.len()) == s,
    decreases text.len(),
{
    if text.len() > 0 {
        let before = s.typed(text.drop_last());
        lemma_typed(s, text.drop_last());
        lemma_char_then_delete(before, text.last());
        lemma_typed_then_deleted(s, text.drop_last());
    }
}

/// Of a typed text the cursor's line takes the characters it has room for,
/// from the first on; the others change nothing.
pub proof fn lemma_typed_takes_what_fits(s: EditorView, text: Seq<char>)
    requires
        s.wf(),
    ensures
        s.typed(text) == s.typed(text.take(s.taken(text.len()) as int)),
    decreases text.len(),
{
    let room = s.taken(text.len());
    if s.line().len() + text.len() <= MAX_LINE_LEN {
        assert(text.take(room as int) =~= text);
    } else {
        let shorter = text.drop_last();
        lemma_typed_takes_what_fits(s, shorter);
        assert(s.taken(shorter.len()) == room);
        assert(shorter.take(room as int) =~= text.take(room as int));
        lemma_typed(s, text.take(room as int));
    }
}

/// Any characters typed, and then a Backspace for each character that the
/// line took, give the editor as it was. While the line has room that is a
/// Backspace for each character typed.
pub proof fn lemma_typed_then_deleted_what_was_taken(s: EditorView, text: Seq<char>)
    requires
        s.wf(),
    ensures
        s.typed(text).deleted(s.taken(text.len())) == s,
        s.line().len() + text.len() <= MAX_LINE_LEN ==> s.typed(text).deleted(text.len()) == s,
{
    lemma_typed_takes_what_fits(s, text);
    lemma_typed_then_deleted(s, text.take(s.taken(text.len()) as int));
    if s.line().len() + text.len() <= MAX_LINE_LEN {
        lemma_typed_then_deleted(s, text);
    }
}

/// A character typed on a line with room adds one to the count, and the
/// count is again the number of characters in the lines.
pub proof fn lemma_char_adds_one(s: EditorView, c: char)
    requires
        s.wf(),
        s.line().len() < MAX_LINE_LEN,
    ensures
        s.after_char(c).total_length == s.total_length + 1,
        s.after_char(c).total_length == total_chars(s.after_char(c).lines),
        s.after_char(c).lines == with_char(s.lines, s.row() - 1, s.col() - 1, c),
        s.after_char(c).col() == s.col() + 1,
        s.after_char(c).row() == s.row(),
{
    lemma_char_keeps_wf(s, c);
}

/// Enter in a document with room adds one line, and the cursor is on the
/// first column of the line below, which the document then has.
pub proof fn lemma_newline_adds_line(s: EditorView)
    requires
        s.wf(),
        s.lines.len() < MAX_LINES,
    ensures
        s.after_newline().lines.len() == s.lines.len() + 1,
        s.after_newline().total_length == s.total_length,
        s.after_newline().row() == s.row() + 1,
        s.after_newline().row() <= s.after_newline().lines.len(),
        s.after_newline().col() == 1,
        s.after_newline().col() <= s.after_newline().end_col(s.after_newline().row()),
{
    lemma_newline_keeps_wf(s);
}

/// Backspace at the start of a line followed by Enter gives back the two
/// lines and the cursor, provided the joined line is not too long.
pub proof fn lemma_join_then_newline(s: EditorView)
    requires
        s.wf(),
        s.col() == 1,
        s.can_join(),
    ensures
        s.after_delete().after_newline().lines == s.lines,
        s.after_delete().after_newline().total_length == s.total_length,
        s.after_delete().after_newline().buffer_position == s.buffer_position,
{
    crate::document::lemma_join_then_split(s.lines, s.row() - 1);
}

} // verus!
