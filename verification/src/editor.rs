//! The editor: a document, a cursor in buffer and screen coordinates, a
//! window over the lines, and the mode. Each operation changes the editor as
//! the function of the same name in `model` says and returns what has to be
//! painted.

use crate::document::{
    fits, lemma_total_chars_empty_line, texts, Document, MAX_LINES, MAX_LINE_LEN,
};
use crate::model::{given_lines, string_texts, window_end, EditorView};
use crate::util::{
    set_buffer_pos, set_screen_pos, Coordinates, EditorMode, Key, Position, RenderDirective,
    StatusCodes,
};
use ropey::Rope;
use vstd::prelude::*;

verus! {

/// The editor. Its fields are its own; `EditorView` says what it holds.
pub struct Editor {
    doc: Document,
    buffer_position: Coordinates,
    terminal_size: Coordinates,
    mode: EditorMode,
    last_cur_pos: Coordinates,
    window: Coordinates,
    screen_position: Coordinates,
}

impl View for Editor {
    type V = EditorView;

    closed spec fn view(&self) -> EditorView {
        EditorView {
            lines: self.doc@,
            total_length: self.doc.counted(),
            buffer_position: self.buffer_position,
            screen_position: self.screen_position,
            window: self.window,
            terminal_size: self.terminal_size,
            mode: self.mode,
            last_cur_pos: self.last_cur_pos,
        }
    }
}

impl Position for Editor {
    type Rest = EditorView;

    open spec fn buffer_position(&self) -> Coordinates {
        self@.buffer_position
    }

    open spec fn screen_position(&self) -> Coordinates {
        self@.screen_position
    }

    open spec fn rest(&self) -> EditorView {
        EditorView {
            buffer_position: Coordinates { x: 0, y: 0 },
            screen_position: Coordinates { x: 0, y: 0 },
            ..self@
        }
    }

    fn set_buffer_x(&mut self, x: u16) {
        self.buffer_position.x = x;
    }

    fn set_buffer_y(&mut self, y: u16) {
        self.buffer_position.y = y;
    }

    fn set_screen_x(&mut self, x: u16) {
        self.screen_position.x = x;
    }

    fn set_screen_y(&mut self, y: u16) {
        self.screen_position.y = y;
    }
}

/// The text of each of the ropes, where there are any.
pub open spec fn rope_texts(ropes: Option<Vec<Rope>>) -> Option<Seq<Seq<char>>> {
    match ropes {
        Some(lines) => Some(texts(lines@)),
        None => None,
    }
}

/// The index behind the last line of a window of `height` lines from `start`.
fn end_of_window(start: u16, height: u16) -> (end: u16)
    ensures
        end == window_end(start as int, height as int),
{
    let sum: u32 = start as u32 + height as u32;
    if sum > 65535 {
        u16::MAX
    } else {
        sum as u16
    }
}

impl Editor {
    /// The editor is in order: see `EditorView::wf`.
    pub open spec fn wf(&self) -> bool {
        self@.wf()
    }

    fn from_document(doc: Document, width: u16, height: u16) -> (editor: Editor)
        requires
            doc.wf(),
            height >= 1,
        ensures
            editor.wf(),
            editor@ == EditorView::initial(doc@, width, height),
    {
        Editor {
            doc,
            buffer_position: Coordinates { x: 1, y: 1 },
            terminal_size: Coordinates { x: width, y: height },
            mode: EditorMode::Command,
            last_cur_pos: Coordinates { x: 1, y: 1 },
            window: Coordinates { x: 0, y: end_of_window(0, height) },
            screen_position: Coordinates { x: 1, y: 1 },
        }
    }

    /// An editor on the given lines, or on one empty line where there are
    /// none (no list, or a list without lines), for a terminal of `width`
    /// columns and `height` rows.
    pub fn new(ropes: Option<Vec<Rope>>, width: u16, height: u16) -> (editor: Editor)
        requires
            height >= 1,
            fits(given_lines(rope_texts(ropes))),
        ensures
            editor.wf(),
            editor@ == EditorView::initial(given_lines(rope_texts(ropes)), width, height),
            editor@.lines.len() >= 1,
            given_lines(rope_texts(ropes)) == seq![Seq::<char>::empty()] ==> editor@.total_length
                == 0,
    {
        let doc = match ropes {
            Some(lines) => if lines.len() == 0 {
                Document::new()
            } else {
                Document::from_lines(lines).unwrap()
            },
            None => Document::new(),
        };
        proof {
            lemma_total_chars_empty_line();
        }
        Editor::from_document(doc, width, height)
    }

    /// As `new`, for lines and a terminal of any size: `None` where the
    /// terminal has no row or the lines are not a document.
    pub fn try_new(ropes: Option<Vec<Rope>>, width: u16, height: u16) -> (made: Option<Editor>)
        ensures
            made is Some <==> height >= 1 && fits(given_lines(rope_texts(ropes))),
            made matches Some(editor) ==> editor.wf() && editor@ == EditorView::initial(
                given_lines(rope_texts(ropes)),
                width,
                height,
) && (given_lines(rope_texts(ropes)) == seq![Seq::<char>::empty()]
                ==> editor@.total_length == 0),
    {
        if height == 0 {
            return None;
        }
        let doc = match ropes {
            Some(lines) => if lines.len() == 0 {
                Document::new()
            } else {
                match Document::from_lines(lines) {
                    Some(doc) => doc,
                    None => {
                        return None;
                    },
                }
            },
            None => Document::new(),
        };
        proof {
            lemma_total_chars_empty_line();
        }
        Some(Editor::from_document(doc, width, height))
    }

    /// Whether the editor is in order: a check at run time for callers that
    /// Verus does not see.
    pub fn in_order(&self) -> (ok: bool)
        ensures
            ok == self.wf(),
    {
        if !self.doc.in_order() || self.terminal_size.y == 0 {
            return false;
        }
        let count: usize = self.doc.line_count();
        let x: usize = self.buffer_position.x as usize;
        let y: usize = self.buffer_position.y as usize;
        if y < 1 || y > count || x < 1 || x > self.doc.line_len(y - 1) + 1 {
            return false;
        }
        let start: u16 = self.window.x;
        let row: u16 = self.buffer_position.y - 1;
        self.window.y == end_of_window(start, self.terminal_size.y) && start <= row && row
            < self.window.y && self.screen_position.x == self.buffer_position.x
            && self.screen_position.y == self.buffer_position.y - start
    }

    /// Sets the position that entering insert mode restores.
    pub fn set_last_pos(&mut self, x: u16, y: u16)
        ensures
            final(self)@ == (EditorView { last_cur_pos: Coordinates { x, y }, ..old(self)@ }),
    {
        self.last_cur_pos.x = x;
        self.last_cur_pos.y = y;
    }

    /// The position that entering insert mode restores.
    pub fn last_pos(&self) -> (pos: Coordinates)
        ensures
            pos == self@.last_cur_pos,
    {
        self.last_cur_pos
    }

    pub fn get_current_buffer_position_y(&self) -> (y: u16)
        ensures
            y == self@.buffer_position.y,
    {
        self.buffer_position.y
    }

    pub fn get_current_buffer_position_x(&self) -> (x: u16)
        ensures
            x == self@.buffer_position.x,
    {
        self.buffer_position.x
    }

    pub fn get_current_buffer_position_y_usize(&self) -> (y: usize)
        ensures
            y == self@.buffer_position.y,
    {
        self.buffer_position.y as usize
    }

    pub fn get_current_buffer_position_x_usize(&self) -> (x: usize)
        ensures
            x == self@.buffer_position.x,
    {
        self.buffer_position.x as usize
    }

    pub fn get_current_screen_position_x(&self) -> (x: u16)
        ensures
            x == self@.screen_position.x,
    {
        self.screen_position.x
    }

    pub fn get_current_screen_position_y(&self) -> (y: u16)
        ensures
            y == self@.screen_position.y,
    {
        self.screen_position.y
    }

    /// The visible lines: `x` is the index of the first, `y` the index
    /// behind the last.
    pub fn window(&self) -> (window: Coordinates)
        ensures
            window == self@.window,
    {
        self.window
    }

    pub fn terminal_size(&self) -> (size: Coordinates)
        ensures
            size == self@.terminal_size,
    {
        self.terminal_size
    }

    pub fn mode(&self) -> (mode: EditorMode)
        ensures
            mode == self@.mode,
    {
        self.mode
    }

    pub fn set_mode(&mut self, mode: EditorMode)
        ensures
            final(self)@ == (EditorView { mode, ..old(self)@ }),
    {
        self.mode = mode;
    }

    /// The document being edited.
    pub fn document(&self) -> (doc: &Document)
        ensures
            doc@ == self@.lines,
            doc.counted() == self@.total_length,
    {
        &self.doc
    }

    /// The number of characters in the document.
    pub fn total_length(&self) -> (n: u32)
        ensures
            n == self@.total_length,
    {
        self.doc.total_length()
    }

    /// Moves the window one line down. The cursor's line has to lie below
    /// the first visible line, so that it is not left behind above the
    /// window; if it was no further than one line below the window, it is
    /// visible afterwards.
    pub fn scroll_down(&mut self)
        requires
            old(self)@.window_shaped(),
            old(self)@.window.x + 1 <= old(self)@.row() - 1,
        ensures
            final(self)@ == old(self)@.scrolled_down(),
            final(self)@.window_shaped(),
            old(self)@.row() - 1 <= old(self)@.window.x + old(self)@.height()
                ==> final(self)@.cursor_in_window(),
    {
        let start: u16 = self.window.x + 1;
        self.window.x = start;
        self.window.y = end_of_window(start, self.terminal_size.y);
    }

    /// Moves the window one line up. There has to be a line above the
    /// window, and the cursor's line has to lie above the last visible line,
    /// so that it is not left behind below the window; if it was no further
    /// than one line above the window, it is visible afterwards.
    pub fn scroll_up(&mut self)
        requires
            old(self)@.window_shaped(),
            old(self)@.window.x >= 1,
            old(self)@.row() - 1 < old(self)@.window.x + old(self)@.height() - 1,
        ensures
            final(self)@ == old(self)@.scrolled_up(),
            final(self)@.window_shaped(),
            old(self)@.row() - 1 >= old(self)@.window.x - 1 ==> final(self)@.cursor_in_window(),
    {
        let start: u16 = self.window.x - 1;
        self.window.x = start;
        self.window.y = end_of_window(start, self.terminal_size.y);
    }

    /// Scrolls until the cursor's line is visible: not at all where it is,
    /// once where the cursor went one line past an edge of the window.
    fn reveal_cursor(&mut self)
        requires
            old(self)@.window_shaped(),
            old(self)@.row() >= 1,
        ensures
            final(self)@ == (EditorView {
                window: old(self)@.moved_to(old(self)@.col(), old(self)@.row()).window,
                ..old(self)@
            }),
            final(self)@.window_shaped(),
            final(self)@.cursor_in_window(),
    {
        let ghost before = self@;
        let line: u16 = self.buffer_position.y - 1;
        while line < self.window.x
            invariant
                before.window_shaped(),
                self@.window_shaped(),
                self@ == (EditorView { window: self@.window, ..before }),
                line == before.row() - 1,
                self@.window.x <= before.window.x,
                line < before.window.x ==> line <= self@.window.x,
                line >= before.window.x ==> self@.window.x == before.window.x,
            decreases self@.window.x,
        {
            self.scroll_up();
        }
        while line as u32 >= self.window.x as u32 + self.terminal_size.y as u32
            invariant
                before.window_shaped(),
                self@.window_shaped(),
                self@ == (EditorView { window: self@.window, ..before }),
                line == before.row() - 1,
                line < before.window.x ==> self@.window.x == line,
                line >= before.window.x ==> before.window.x <= self@.window.x <= line,
                line >= before.window.x + before.height() ==> self@.window.x + before.height() <= line
                    + 1,
                before.window.x <= line < before.window.x + before.height() ==> self@.window.x
                    == before.window.x,
            decreases line - self@.window.x,
        {
            self.scroll_down();
        }
    }

    /// Puts the cursor at column `x`, row `y` of the document, scrolls so
    /// that the row is visible, and brings the screen position in step.
    fn move_cursor(&mut self, x: u16, y: u16)
        requires
            fits(old(self)@.lines),
            old(self)@.total_length == crate::document::total_chars(old(self)@.lines),
            old(self)@.window_shaped(),
            1 <= y <= old(self)@.lines.len(),
            1 <= x <= old(self)@.end_col(y as int),
        ensures
            final(self)@ == old(self)@.moved_to(x as int, y as int),
            final(self).wf(),
    {
        set_buffer_pos(self, x, y);
        self.reveal_cursor();
        let start: u16 = self.window.x;
        set_screen_pos(self, x, y - start);
    }

    /// A character typed: see `EditorView::after_char`.
    pub fn handle_char(&mut self, c: char) -> (directive: Option<RenderDirective>)
        requires
            old(self).wf(),
        ensures
            final(self).wf(),
            final(self)@ == old(self)@.after_char(c),
            directive == old(self)@.char_directive(),
    {
        let x: usize = self.get_current_buffer_position_x_usize();
        let y: usize = self.get_current_buffer_position_y_usize();
        if self.doc.line_len(y - 1) >= MAX_LINE_LEN {
            return None;
        }
        self.doc.insert_char(y - 1, x - 1, c);
        self.move_cursor((x + 1) as u16, y as u16);
        Some(RenderDirective::RedrawLine(y as u16))
    }

    /// Enter: see `EditorView::after_newline`.
    pub fn handle_newline(&mut self) -> (directive: Option<RenderDirective>)
        requires
            old(self).wf(),
        ensures
            final(self).wf(),
            final(self)@ == old(self)@.after_newline(),
            directive == old(self)@.newline_directive(),
    {
        let x: usize = self.get_current_buffer_position_x_usize();
        let y: usize = self.get_current_buffer_position_y_usize();
        let count: usize = self.doc.line_count();
        if count >= MAX_LINES {
            return None;
        }
        if y == count && x - 1 == self.doc.line_len(y - 1) {
            self.doc.push_line();
            proof {
                let lines = old(self)@.lines;
                let text = lines[y - 1];
                assert(text.subrange(0, text.len() as int) =~= text);
                assert(text.subrange(text.len() as int, text.len() as int) =~= Seq::<char>::empty());
                assert(lines.update(y - 1, text) =~= lines);
                assert(lines.insert(y as int, Seq::<char>::empty()) =~= lines.push(
                    Seq::<char>::empty(),
                ));
            }
        } else {
            self.doc.split_line(y - 1, x - 1);
        }
        self.move_cursor(1, (y + 1) as u16);
        Some(RenderDirective::RedrawViewport(self.window.x, self.window.y))
    }

    /// Backspace: see `EditorView::after_delete`.
    pub fn handle_delete(&mut self) -> (directive: Option<RenderDirective>)
        requires
            old(self).wf(),
        ensures
            final(self).wf(),
            final(self)@ == old(self)@.after_delete(),
            directive == old(self)@.delete_directive(),
    {
        let x: usize = self.get_current_buffer_position_x_usize();
        let y: usize = self.get_current_buffer_position_y_usize();
        if x <= 1 {
            if y <= 1 {
                return None;
            }
            let above: usize = self.doc.line_len(y - 2);
            let len: usize = self.doc.line_len(y - 1);
            if above + len > MAX_LINE_LEN {
                return None;
            }
            if len == 0 {
                self.doc.remove_line(y - 1);
                proof {
                    let lines = old(self)@.lines;
                    assert(lines[y - 2] + lines[y - 1] =~= lines[y - 2]);
                    assert(lines.update(y - 2, lines[y - 2]) =~= lines);
                }
            } else {
                self.doc.join_line(y - 1);
            }
            self.move_cursor((above + 1) as u16, (y - 1) as u16);
            Some(RenderDirective::RedrawViewport(self.window.x, self.window.y))
        } else {
            self.doc.remove_char(y - 1, x - 2);
            self.move_cursor((x - 1) as u16, y as u16);
            Some(RenderDirective::RedrawLine(y as u16))
        }
    }

    /// What is painted after a move from `before`.
    fn directive_of_move(&self, Ghost(before): Ghost<EditorView>, window: Coordinates, position: Coordinates) -> (directive: Option<RenderDirective>)
        requires
            window == before.window,
            position == before.buffer_position,
        ensures
            directive == before.move_directive(self@),
    {
        if self.window.x != window.x || self.window.y != window.y {
            Some(RenderDirective::RedrawViewport(self.window.x, self.window.y))
        } else if self.buffer_position.x != position.x || self.buffer_position.y != position.y {
            Some(RenderDirective::RedrawStatus)
        } else {
            None
        }
    }

    /// Arrow down: see `EditorView::after_down`.
    pub fn handle_down(&mut self) -> (directive: Option<RenderDirective>)
        requires
            old(self).wf(),
        ensures
            final(self).wf(),
            final(self)@ == old(self)@.after_down(),
            directive == old(self)@.move_directive(old(self)@.after_down()),
    {
        let window = self.window;
        let position = self.buffer_position;
        let y: usize = self.get_current_buffer_position_y_usize();
        if y < self.doc.line_count() {
            let below: usize = self.doc.line_len(y);
            self.move_cursor((below + 1) as u16, (y + 1) as u16);
        }
        self.directive_of_move(Ghost(old(self)@), window, position)
    }

    /// Arrow up: see `EditorView::after_up`.
    pub fn handle_up(&mut self) -> (directive: Option<RenderDirective>)
        requires
            old(self).wf(),
        ensures
            final(self).wf(),
            final(self)@ == old(self)@.after_up(),
            directive == old(self)@.move_directive(old(self)@.after_up()),
    {
        let window = self.window;
        let position = self.buffer_position;
        let y: usize = self.get_current_buffer_position_y_usize();
        if y >= 2 {
            let above: usize = self.doc.line_len(y - 2);
            self.move_cursor((above + 1) as u16, (y - 1) as u16);
        }
        self.directive_of_move(Ghost(old(self)@), window, position)
    }

    /// Arrow right: see `EditorView::after_right`.
    pub fn handle_right(&mut self) -> (directive: Option<RenderDirective>)
        requires
            old(self).wf(),
        ensures
            final(self).wf(),
            final(self)@ == old(self)@.after_right(),
            directive == old(self)@.move_directive(old(self)@.after_right()),
    {
        let window = self.window;
        let position = self.buffer_position;
        let x: usize = self.get_current_buffer_position_x_usize();
        let y: usize = self.get_current_buffer_position_y_usize();
        if self.doc.line_len(y - 1) >= x {
            self.move_cursor((x + 1) as u16, y as u16);
        }
        self.directive_of_move(Ghost(old(self)@), window, position)
    }

    /// Arrow left: see `EditorView::after_left`.
    pub fn handle_left(&mut self) -> (directive: Option<RenderDirective>)
        requires
            old(self).wf(),
        ensures
            final(self).wf(),
            final(self)@ == old(self)@.after_left(),
            directive == old(self)@.move_directive(old(self)@.after_left()),
    {
        let window = self.window;
        let position = self.buffer_position;
        let x: u16 = self.get_current_buffer_position_x();
        let y: u16 = self.get_current_buffer_position_y();
        if x > 1 {
            self.move_cursor(x - 1, y);
        }
        self.directive_of_move(Ghost(old(self)@), window, position)
    }

    /// Home: see `EditorView::after_home`.
    pub fn handle_home(&mut self) -> (directive: Option<RenderDirective>)
        requires
            old(self).wf(),
        ensures
            final(self).wf(),
            final(self)@ == old(self)@.after_home(),
            directive == old(self)@.move_directive(old(self)@.after_home()),
    {
        let window = self.window;
        let position = self.buffer_position;
        let y: u16 = self.get_current_buffer_position_y();
        self.move_cursor(1, y);
        self.directive_of_move(Ghost(old(self)@), window, position)
    }

    /// Escape: see `EditorView::after_esc`.
    pub fn handle_esc(&mut self) -> (directive: Option<RenderDirective>)
        requires
            old(self).wf(),
        ensures
            final(self).wf(),
            final(self)@ == old(self)@.after_esc(),
            directive == old(self)@.esc_directive(),
    {
        self.set_last_pos(
            self.get_current_buffer_position_x(),
            self.get_current_buffer_position_y(),
        );
        self.set_mode(EditorMode::Command);
        Some(RenderDirective::PlaceCursor(1, self.terminal_size.y))
    }

    /// From Command mode into Insert mode: see
    /// `EditorView::after_enter_insert`.
    pub fn enter_insert_mode(&mut self) -> (directive: Option<RenderDirective>)
        requires
            old(self).wf(),
        ensures
            final(self).wf(),
            final(self)@ == old(self)@.after_enter_insert(),
            directive == old(self)@.enter_insert_directive(),
    {
        match self.mode {
            EditorMode::Insert => None,
            EditorMode::Command => {
                let window = self.window;
                let count: usize = self.doc.line_count();
                let y: usize = if self.last_cur_pos.y == 0 {
                    1
                } else if self.last_cur_pos.y as usize > count {
                    count
                } else {
                    self.last_cur_pos.y as usize
                };
                let end: usize = self.doc.line_len(y - 1) + 1;
                let x: usize = if self.last_cur_pos.x == 0 {
                    1
                } else if self.last_cur_pos.x as usize > end {
                    end
                } else {
                    self.last_cur_pos.x as usize
                };
                self.set_mode(EditorMode::Insert);
                self.move_cursor(x as u16, y as u16);
                if self.window.x != window.x || self.window.y != window.y {
                    Some(RenderDirective::RedrawViewport(self.window.x, self.window.y))
                } else {
                    Some(RenderDirective::PlaceCursor(self.screen_position.x, self.screen_position.y))
                }
            },
        }
    }

    /// The request to leave the editor. It is granted in either mode, and
    /// the editor stays as it is: leaving is the caller's to do.
    pub fn request_exit(&self) -> (status: StatusCodes)
        ensures
            status == StatusCodes::Exit,
    {
        StatusCodes::Exit
    }

    /// The text of the lines with indices in `[from, to)`.
    fn texts_between(&self, from: usize, to: usize) -> (out: Vec<String>)
        requires
            from <= to <= self@.lines.len(),
        ensures
            string_texts(out@) == self@.lines.subrange(from as int, to as int),
    {
        let mut out: Vec<String> = Vec::new();
        let mut i: usize = from;
        while i < to
            invariant
                from <= i <= to <= self@.lines.len(),
                string_texts(out@) == self@.lines.subrange(from as int, i as int),
            decreases to - i,
        {
            let text = self.doc.line_text(i);
            let ghost earlier = out@;
            out.push(text);
            assert(string_texts(out@) =~= string_texts(earlier).push(text@));
            assert(self@.lines.subrange(from as int, i + 1) =~= self@.lines.subrange(
                from as int,
                i as int,
            ).push(self@.lines[i as int]));
            i = i + 1;
        }
        assert(string_texts(out@) =~= self@.lines.subrange(from as int, to as int));
        out
    }

    /// What a repaint of the window shows: the text of each visible line of
    /// the document, from the top.
    pub fn render_all_lines(&self) -> (out: Vec<String>)
        requires
            self.wf(),
        ensures
            string_texts(out@) == self@.visible(),
    {
        let start: usize = self.window.x as usize;
        let count: usize = self.doc.line_count();
        let end: usize = if self.window.y as usize >= count {
            count
        } else {
            self.window.y as usize
        };
        self.texts_between(start, end)
    }

    /// The text of each line of the document from index `index` on.
    pub fn render_all_lines_from(&self, index: usize) -> (out: Vec<String>)
        requires
            index <= self@.lines.len(),
        ensures
            string_texts(out@) == self@.lines.subrange(index as int, self@.lines.len() as int),
    {
        self.texts_between(index, self.doc.line_count())
    }

    /// The text of the line the cursor is on.
    pub fn render_current_line(&self) -> (text: String)
        requires
            self.wf(),
        ensures
            text@ == self@.line(),
    {
        self.doc.line_text((self.buffer_position.y - 1) as usize)
    }

    /// One key in Insert mode: see `EditorView::step`. In Command mode the
    /// editor ignores keys.
    pub fn handle_key(&mut self, key: Key) -> (directive: Option<RenderDirective>)
        requires
            old(self).wf(),
        ensures
            final(self).wf(),
            final(self)@ == old(self)@.step(key),
            directive == old(self)@.step_directive(key),
    {
        match self.mode {
            EditorMode::Command => None,
            EditorMode::Insert => match key {
                Key::Char(c) => if c == '\n' {
                    self.handle_newline()
                } else {
                    self.handle_char(c)
                },
                Key::Enter => self.handle_newline(),
                Key::Backspace => self.handle_delete(),
                Key::Escape => self.handle_esc(),
                Key::ArrowLeft => self.handle_left(),
                Key::ArrowRight => self.handle_right(),
                Key::ArrowUp => self.handle_up(),
                Key::ArrowDown => self.handle_down(),
                Key::Home => self.handle_home(),
                Key::Other => None,
            },
        }
    }
}

} // verus!
