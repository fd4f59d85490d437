//! The command line: the text typed in Command mode, and what Enter makes
//! of it. `:i` enters Insert mode, `:q` leaves the editor, whatever its mode.

use crate::editor::Editor;
use crate::model::EditorView;
use crate::util::{set_buffer_pos, Coordinates, Key, Position, StatusCodes};
use vstd::prelude::*;
use vstd::string::StrSliceExecFns;

verus! {

/// The command that asks to leave the editor.
pub open spec fn quit_command() -> Seq<char> {
    seq![':', 'q']
}

/// The command that enters Insert mode.
pub open spec fn insert_command() -> Seq<char> {
    seq![':', 'i']
}

/// What a command line holds.
pub struct CommandLineView {
    /// The command typed so far.
    pub buffer: Seq<char>,
    /// The cursor of the command line.
    pub cur_pos: Coordinates,
    /// The screen position, which only the setters of `Position` touch.
    pub screen_pos: Coordinates,
    /// The terminal row of the command line.
    pub y: u16,
}

impl CommandLineView {
    /// A character typed: it is appended and the cursor moves one column
    /// on, in the command line's row. In the last column a coordinate can
    /// name, nothing is taken.
    pub open spec fn after_char(self, c: char) -> CommandLineView {
        if self.cur_pos.x < u16::MAX {
            CommandLineView {
                buffer: self.buffer.push(c),
                cur_pos: Coordinates { x: (self.cur_pos.x + 1) as u16, y: self.y },
                ..self
            }
        } else {
            self
        }
    }

    /// Backspace: behind column 1 the last character, if there is one, goes
    /// and the cursor moves one column back.
    pub open spec fn after_delete(self) -> CommandLineView {
        if self.cur_pos.x > 1 {
            CommandLineView {
                buffer: if self.buffer.len() > 0 {
                    self.buffer.drop_last()
                } else {
                    self.buffer
                },
                cur_pos: Coordinates { x: (self.cur_pos.x - 1) as u16, y: self.cur_pos.y },
                ..self
            }
        } else {
            self
        }
    }

    /// What Enter reports: `Exit` for the quit command, `Insert` for the
    /// insert command, `NoOp` for anything else. The whole text counts.
    pub open spec fn newline_status(self) -> StatusCodes {
        if self.buffer == quit_command() {
            StatusCodes::Exit
        } else if self.buffer == insert_command() {
            StatusCodes::Insert
        } else {
            StatusCodes::NoOp
        }
    }

    /// The command line after Enter: the insert command is used up and the
    /// cursor goes to the position that the editor had saved; anything else
    /// stays as typed.
    pub open spec fn after_newline(self, editor: EditorView) -> CommandLineView {
        if self.buffer == insert_command() {
            CommandLineView { buffer: Seq::empty(), cur_pos: editor.last_cur_pos, ..self }
        } else {
            self
        }
    }

    /// The editor after Enter on this command line.
    pub open spec fn editor_after_newline(self, editor: EditorView) -> EditorView {
        if self.buffer == insert_command() {
            editor.after_enter_insert()
        } else {
            editor
        }
    }

    /// Whether `key` is Enter.
    pub open spec fn is_enter(key: Key) -> bool {
        key == Key::Enter || key == Key::Char('\n')
    }

    /// The command line after `key`.
    pub open spec fn step(self, editor: EditorView, key: Key) -> CommandLineView {
        if Self::is_enter(key) {
            self.after_newline(editor)
        } else {
            match key {
                Key::Char(c) => self.after_char(c),
                Key::Backspace => self.after_delete(),
                _ => self,
            }
        }
    }
}

/// The command line. `CommandLineView` says what it holds.
pub struct CommandLine {
    buffer: String,
    cur_pos: Coordinates,
    screen_pos: Coordinates,
    y: u16,
}

impl View for CommandLine {
    type V = CommandLineView;

    closed spec fn view(&self) -> CommandLineView {
        CommandLineView {
            buffer: self.buffer@,
            cur_pos: self.cur_pos,
            screen_pos: self.screen_pos,
            y: self.y,
        }
    }
}

impl Position for CommandLine {
    type Rest = (Seq<char>, u16);

    open spec fn buffer_position(&self) -> Coordinates {
        self@.cur_pos
    }

    open spec fn screen_position(&self) -> Coordinates {
        self@.screen_pos
    }

    open spec fn rest(&self) -> (Seq<char>, u16) {
        (self@.buffer, self@.y)
    }

    fn set_buffer_x(&mut self, x: u16) {
        self.cur_pos.x = x;
    }

    fn set_buffer_y(&mut self, y: u16) {
        self.cur_pos.y = y;
    }

    fn set_screen_x(&mut self, x: u16) {
        self.screen_pos.x = x;
    }

    fn set_screen_y(&mut self, y: u16) {
        self.screen_pos.y = y;
    }
}

/// Whether `text` is a colon followed by `letter`.
fn is_command(text: &String, letter: char) -> (yes: bool)
    ensures
        yes == (text@ == seq![':', letter]),
{
    let s = text.as_str();
    if s.unicode_len() != 2 {
        return false;
    }
    let yes = s.get_char(0) == ':' && s.get_char(1) == letter;
    assert(yes ==> text@ =~= seq![':', letter]);
    yes
}

impl CommandLine {
    /// An empty command line in row `height`, the last of the terminal.
    pub fn new(height: u16) -> (line: CommandLine)
        ensures
            line@ == (CommandLineView {
                buffer: Seq::empty(),
                cur_pos: Coordinates { x: 1, y: height },
                screen_pos: Coordinates { x: 1, y: height },
                y: height,
            }),
    {
        CommandLine {
            buffer: String::new(),
            cur_pos: Coordinates { x: 1, y: height },
            screen_pos: Coordinates { x: 1, y: height },
            y: height,
        }
    }

    /// The command typed so far.
    pub fn buffer(&self) -> (text: &String)
        ensures
            text@ == self@.buffer,
    {
        &self.buffer
    }

    /// The cursor of the command line.
    pub fn cur_pos(&self) -> (pos: Coordinates)
        ensures
            pos == self@.cur_pos,
    {
        self.cur_pos
    }

    /// The terminal row of the command line.
    pub fn row(&self) -> (y: u16)
        ensures
            y == self@.y,
    {
        self.y
    }

    /// Enter: see `CommandLineView::after_newline`, `newline_status` and
    /// `editor_after_newline`.
    pub fn handle_newline(&mut self, editor: &mut Editor) -> (status: StatusCodes)
        requires
            old(editor).wf(),
        ensures
            final(editor).wf(),
            status == old(self)@.newline_status(),
            final(self)@ == old(self)@.after_newline(old(editor)@),
            final(editor)@ == old(self)@.editor_after_newline(old(editor)@),
    {
        if is_command(&self.buffer, 'q') {
            assert(quit_command() != insert_command()) by {
                assert(quit_command()[1] == 'q');
                assert(insert_command()[1] == 'i');
            }
            editor.request_exit()
        } else if is_command(&self.buffer, 'i') {
            let _ = editor.enter_insert_mode();
            self.buffer.clear();
            let last = editor.last_pos();
            set_buffer_pos(self, last.x, last.y);
            StatusCodes::Insert
        } else {
            StatusCodes::NoOp
        }
    }

    /// A character typed: see `CommandLineView::after_char`.
    pub fn handle_char(&mut self, c: char)
        ensures
            final(self)@ == old(self)@.after_char(c),
    {
        let x: u16 = self.cur_pos.x;
        if x < u16::MAX {
            let y: u16 = self.y;
            set_buffer_pos(self, x + 1, y);
            self.buffer.push(c);
        }
    }

    /// Backspace: see `CommandLineView::after_delete`.
    pub fn handle_delete(&mut self)
        ensures
            final(self)@ == old(self)@.after_delete(),
    {
        if self.cur_pos.x > 1 {
            let _ = self.buffer.pop();
            let x: u16 = self.cur_pos.x;
            let y: u16 = self.cur_pos.y;
            set_buffer_pos(self, x - 1, y);
        }
    }

    /// One key in Command mode: see `CommandLineView::step`. Only Enter
    /// reaches the editor and can report anything but `NoOp`.
    pub fn handle_key(&mut self, editor: &mut Editor, key: Key) -> (status: StatusCodes)
        requires
            old(editor).wf(),
        ensures
            final(editor).wf(),
            final(self)@ == old(self)@.step(old(editor)@, key),
            final(editor)@ == (if CommandLineView::is_enter(key) {
                old(self)@.editor_after_newline(old(editor)@)
            } else {
                old(editor)@
            }),
            status == (if CommandLineView::is_enter(key) {
                old(self)@.newline_status()
            } else {
                StatusCodes::NoOp
            }),
    {
        match key {
            Key::Enter => self.handle_newline(editor),
            Key::Char(c) => if c == '\n' {
                self.handle_newline(editor)
            } else {
                self.handle_char(c);
                StatusCodes::NoOp
            },
            Key::Backspace => {
                self.handle_delete();
                StatusCodes::NoOp
            },
            _ => StatusCodes::NoOp,
        }
    }
}

} // verus!
