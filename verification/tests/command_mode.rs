use rim::command_line::CommandLine;
use rim::editor::Editor;
use rim::util::{
    set_buffer_pos, set_screen_pos, Coordinates, EditorMode, Key, StatusCodes,
};
use ropey::Rope;

fn typed(line: &mut CommandLine, text: &str) {
    for c in text.chars() {
        line.handle_char(c);
    }
}

#[test]
fn a_new_command_line_is_empty_in_its_row() {
    let line = CommandLine::new(24);
    assert_eq!(line.buffer(), "");
    assert_eq!(line.cur_pos(), Coordinates { x: 1, y: 24 });
    assert_eq!(line.row(), 24);
}

#[test]
fn characters_are_appended_and_the_cursor_follows() {
    let mut line = CommandLine::new(24);
    typed(&mut line, ":wq");
    assert_eq!(line.buffer(), ":wq");
    assert_eq!(line.cur_pos(), Coordinates { x: 4, y: 24 });
}

#[test]
fn backspace_takes_the_last_character() {
    let mut line = CommandLine::new(24);
    typed(&mut line, ":q");
    line.handle_delete();
    assert_eq!(line.buffer(), ":");
    assert_eq!(line.cur_pos(), Coordinates { x: 2, y: 24 });
    line.handle_delete();
    line.handle_delete();
    assert_eq!(line.buffer(), "");
    assert_eq!(line.cur_pos(), Coordinates { x: 1, y: 24 });
}

#[test]
fn the_last_column_takes_no_character() {
    let mut line = CommandLine::new(24);
    set_buffer_pos(&mut line, u16::MAX, 24);
    line.handle_char('x');
    assert_eq!(line.buffer(), "");
    assert_eq!(line.cur_pos(), Coordinates { x: u16::MAX, y: 24 });
}

#[test]
fn quit_is_granted_in_either_mode() {
    let mut editor = Editor::new(None, 80, 24);
    let mut line = CommandLine::new(24);
    typed(&mut line, ":q");
    assert_eq!(line.handle_newline(&mut editor), StatusCodes::Exit);
    assert_eq!(line.buffer(), ":q");
    assert_eq!(editor.mode(), EditorMode::Command);
    assert_eq!(editor.request_exit(), StatusCodes::Exit);
    editor.enter_insert_mode();
    assert_eq!(editor.request_exit(), StatusCodes::Exit);
    assert_eq!(line.handle_newline(&mut editor), StatusCodes::Exit);
    assert_eq!(line.handle_key(&mut editor, rim::util::Key::Enter), StatusCodes::Exit);
    assert_eq!(editor.mode(), EditorMode::Insert);
    assert!(editor.in_order());
}

#[test]
fn insert_enters_insert_mode_and_clears_the_command() {
    let mut editor = Editor::new(Some(vec![Rope::from_str("abc")]), 80, 24);
    editor.set_last_pos(3, 1);
    let mut line = CommandLine::new(24);
    typed(&mut line, ":i");
    assert_eq!(line.handle_key(&mut editor, Key::Char('\n')), StatusCodes::Insert);
    assert_eq!(line.buffer(), "");
    assert_eq!(line.cur_pos(), Coordinates { x: 3, y: 1 });
    assert_eq!(editor.mode(), EditorMode::Insert);
    assert_eq!(editor.get_current_buffer_position_x(), 3);
    assert_eq!(editor.get_current_buffer_position_y(), 1);
}

#[test]
fn anything_else_is_no_command() {
    let mut editor = Editor::new(None, 80, 24);
    let mut line = CommandLine::new(24);
    for text in [":", ":x", ":qq", "q", ":I", " :q"] {
        let mut other = CommandLine::new(24);
        typed(&mut other, text);
        assert_eq!(other.handle_newline(&mut editor), StatusCodes::NoOp);
        assert_eq!(other.buffer(), text);
    }
    assert_eq!(line.handle_key(&mut editor, Key::Enter), StatusCodes::NoOp);
    assert_eq!(line.handle_key(&mut editor, Key::ArrowLeft), StatusCodes::NoOp);
    assert_eq!(line.handle_key(&mut editor, Key::Char(':')), StatusCodes::NoOp);
    assert_eq!(line.handle_key(&mut editor, Key::Char('q')), StatusCodes::NoOp);
    assert_eq!(line.handle_key(&mut editor, Key::Backspace), StatusCodes::NoOp);
    assert_eq!(line.buffer(), ":");
    assert_eq!(editor.mode(), EditorMode::Command);
}

#[test]
fn the_setters_set_one_position_each() {
    let mut editor = Editor::new(None, 80, 24);
    set_buffer_pos(&mut editor, 7, 9);
    assert_eq!(editor.get_current_buffer_position_x(), 7);
    assert_eq!(editor.get_current_buffer_position_y(), 9);
    assert_eq!(editor.get_current_screen_position_x(), 1);
    assert_eq!(editor.get_current_screen_position_y(), 1);
    set_screen_pos(&mut editor, 3, 4);
    assert_eq!(editor.get_current_screen_position_x(), 3);
    assert_eq!(editor.get_current_screen_position_y(), 4);
    assert_eq!(editor.get_current_buffer_position_x(), 7);
    assert_eq!(editor.get_current_buffer_position_y(), 9);
    let mut line = CommandLine::new(24);
    set_screen_pos(&mut line, 5, 6);
    assert_eq!(line.cur_pos(), Coordinates { x: 1, y: 24 });
    set_buffer_pos(&mut line, 2, 3);
    assert_eq!(line.cur_pos(), Coordinates { x: 2, y: 3 });
}

#[test]
fn set_mode_only_sets_the_mode() {
    let mut editor = Editor::new(Some(vec![Rope::from_str("abc")]), 80, 24);
    editor.set_mode(EditorMode::Insert);
    assert_eq!(editor.mode(), EditorMode::Insert);
    assert_eq!(editor.get_current_buffer_position_x(), 1);
    editor.set_mode(EditorMode::Command);
    assert_eq!(editor.mode(), EditorMode::Command);
}
