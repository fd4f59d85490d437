use rim::editor::Editor;
use rim::util::{Coordinates, EditorMode, Key, RenderDirective};
use ropey::Rope;

fn editor_on(lines: &[&str], height: u16) -> Editor {
    let ropes: Vec<Rope> = lines.iter().map(|line| Rope::from_str(line)).collect();
    Editor::new(Some(ropes), 80, height)
}

/// An editor in Insert mode on `lines`, the cursor at column `x`, row `y`.
fn editing_at(lines: &[&str], height: u16, x: u16, y: u16) -> Editor {
    let mut editor = editor_on(lines, height);
    editor.set_last_pos(x, y);
    editor.enter_insert_mode();
    assert_eq!(cursor(&editor), Coordinates { x, y });
    editor
}

fn cursor(editor: &Editor) -> Coordinates {
    Coordinates {
        x: editor.get_current_buffer_position_x(),
        y: editor.get_current_buffer_position_y(),
    }
}

fn text(editor: &Editor) -> Vec<String> {
    editor.render_all_lines_from(0)
}

fn char_sum(editor: &Editor) -> u32 {
    text(editor).iter().map(|line| line.chars().count() as u32).sum()
}

#[test]
fn typing_into_an_empty_document() {
    let mut editor = Editor::new(None, 80, 24);
    editor.enter_insert_mode();
    assert_eq!(editor.handle_key(Key::Char('h')), Some(RenderDirective::RedrawLine(1)));
    assert_eq!(editor.handle_key(Key::Char('i')), Some(RenderDirective::RedrawLine(1)));
    assert_eq!(text(&editor), vec!["hi".to_string()]);
    assert_eq!(cursor(&editor), Coordinates { x: 3, y: 1 });
    assert_eq!(editor.total_length(), 2);
}

#[test]
fn enter_at_the_end_of_the_last_line() {
    let mut editor = editing_at(&["ab"], 24, 3, 1);
    assert_eq!(editor.handle_key(Key::Enter), Some(RenderDirective::RedrawViewport(0, 24)));
    assert_eq!(text(&editor), vec!["ab".to_string(), String::new()]);
    assert_eq!(cursor(&editor), Coordinates { x: 1, y: 2 });
    assert_eq!(editor.total_length(), 2);
}

#[test]
fn backspace_at_the_start_of_a_line_joins() {
    let mut editor = editing_at(&["ab", "cd"], 24, 1, 2);
    assert_eq!(editor.handle_key(Key::Backspace), Some(RenderDirective::RedrawViewport(0, 24)));
    assert_eq!(text(&editor), vec!["abcd".to_string()]);
    assert_eq!(cursor(&editor), Coordinates { x: 3, y: 1 });
    assert_eq!(editor.total_length(), 4);
}

#[test]
fn backspace_empties_a_line_of_one_character() {
    let mut editor = editing_at(&["a"], 24, 2, 1);
    assert_eq!(editor.handle_key(Key::Backspace), Some(RenderDirective::RedrawLine(1)));
    assert_eq!(text(&editor), vec![String::new()]);
    assert_eq!(cursor(&editor), Coordinates { x: 1, y: 1 });
    assert_eq!(editor.total_length(), 0);
}

#[test]
fn moving_down_scrolls_the_window() {
    let lines: Vec<String> = (0..40).map(|i| format!("line {}", i)).collect();
    let borrowed: Vec<&str> = lines.iter().map(|line| line.as_str()).collect();
    let mut editor = editing_at(&borrowed, 20, 1, 1);
    for step in 1..=25u16 {
        let directive = editor.handle_key(Key::ArrowDown);
        assert!(editor.in_order());
        let row = editor.get_current_buffer_position_y();
        let window = editor.window();
        assert_eq!(row, step + 1);
        assert!(window.x <= row - 1 && row - 1 < window.x + 20);
        let start = if row > 20 { row - 20 } else { 0 };
        assert_eq!(window, Coordinates { x: start, y: start + 20 });
        assert_eq!(editor.get_current_screen_position_y(), row - start);
        if row > 20 {
            assert_eq!(directive, Some(RenderDirective::RedrawViewport(start, start + 20)));
        } else {
            assert_eq!(directive, Some(RenderDirective::RedrawStatus));
        }
    }
    assert_eq!(editor.window(), Coordinates { x: 6, y: 26 });
    assert_eq!(editor.render_all_lines().len(), 20);
    assert_eq!(editor.render_all_lines()[0], "line 6");
}

#[test]
fn moving_up_scrolls_the_window_back() {
    let lines: Vec<String> = (0..40).map(|i| format!("{}", i)).collect();
    let borrowed: Vec<&str> = lines.iter().map(|line| line.as_str()).collect();
    let mut editor = editing_at(&borrowed, 20, 1, 30);
    assert_eq!(editor.window(), Coordinates { x: 10, y: 30 });
    for _ in 0..19 {
        assert_eq!(editor.handle_up(), Some(RenderDirective::RedrawStatus));
    }
    assert_eq!(cursor(&editor), Coordinates { x: 3, y: 11 });
    assert_eq!(editor.handle_up(), Some(RenderDirective::RedrawViewport(9, 29)));
    assert_eq!(cursor(&editor), Coordinates { x: 2, y: 10 });
    assert_eq!(editor.get_current_screen_position_y(), 1);
}

#[test]
fn typed_characters_and_as_many_backspaces_cancel() {
    let mut editor = editing_at(&["one", "two", "three"], 24, 2, 2);
    let before = text(&editor);
    let total = editor.total_length();
    for c in "hello, world".chars() {
        editor.handle_char(c);
    }
    assert_eq!(text(&editor)[1], "thello, worldwo");
    assert_eq!(editor.total_length(), total + 12);
    for _ in 0..12 {
        editor.handle_delete();
    }
    assert_eq!(text(&editor), before);
    assert_eq!(editor.total_length(), total);
    assert_eq!(cursor(&editor), Coordinates { x: 2, y: 2 });
}

#[test]
fn the_count_is_the_sum_of_the_line_lengths() {
    let mut editor = editing_at(&["ab", "", "cde"], 24, 2, 1);
    assert_eq!(editor.total_length(), 5);
    let keys = [
        Key::Char('x'),
        Key::Enter,
        Key::Char('y'),
        Key::ArrowDown,
        Key::Backspace,
        Key::Backspace,
        Key::ArrowDown,
        Key::Home,
        Key::Backspace,
        Key::Char('\n'),
        Key::ArrowUp,
        Key::ArrowLeft,
        Key::Backspace,
        Key::ArrowRight,
        Key::Other,
    ];
    for key in keys {
        editor.handle_key(key);
        assert!(editor.in_order());
        assert_eq!(editor.total_length(), char_sum(&editor));
        let at = cursor(&editor);
        let lines = text(&editor);
        assert!(1 <= at.y && at.y as usize <= lines.len());
        let len = lines[at.y as usize - 1].chars().count();
        assert!(1 <= at.x && at.x as usize <= len + 1);
    }
}

#[test]
fn join_and_split_again_gives_the_two_lines() {
    let mut editor = editing_at(&["first", "second", "third"], 24, 1, 2);
    editor.handle_delete();
    assert_eq!(text(&editor), vec!["firstsecond".to_string(), "third".to_string()]);
    assert_eq!(cursor(&editor), Coordinates { x: 6, y: 1 });
    editor.handle_newline();
    assert_eq!(
        text(&editor),
        vec!["first".to_string(), "second".to_string(), "third".to_string()]
    );
    assert_eq!(cursor(&editor), Coordinates { x: 1, y: 2 });
}

#[test]
fn enter_in_the_middle_of_a_line_splits_it() {
    let mut editor = editing_at(&["hello", "world"], 24, 3, 1);
    editor.handle_newline();
    assert_eq!(
        text(&editor),
        vec!["he".to_string(), "llo".to_string(), "world".to_string()]
    );
    assert_eq!(cursor(&editor), Coordinates { x: 1, y: 2 });
    assert_eq!(editor.total_length(), 10);
}

#[test]
fn typing_in_the_middle_of_a_line() {
    let mut editor = editing_at(&["ac"], 24, 2, 1);
    assert_eq!(editor.handle_char('b'), Some(RenderDirective::RedrawLine(1)));
    assert_eq!(text(&editor), vec!["abc".to_string()]);
    assert_eq!(cursor(&editor), Coordinates { x: 3, y: 1 });
    assert_eq!(editor.render_current_line(), "abc");
}

#[test]
fn backspace_in_the_middle_of_a_line() {
    let mut editor = editing_at(&["abcd"], 24, 3, 1);
    assert_eq!(editor.handle_delete(), Some(RenderDirective::RedrawLine(1)));
    assert_eq!(text(&editor), vec!["acd".to_string()]);
    assert_eq!(cursor(&editor), Coordinates { x: 2, y: 1 });
}

#[test]
fn backspace_at_the_start_of_the_document_does_nothing() {
    let mut editor = editing_at(&["ab"], 24, 1, 1);
    assert_eq!(editor.handle_delete(), None);
    assert_eq!(text(&editor), vec!["ab".to_string()]);
    assert_eq!(cursor(&editor), Coordinates { x: 1, y: 1 });
}

#[test]
fn backspace_on_an_empty_line_removes_it() {
    let mut editor = editing_at(&["ab", "", "cd"], 24, 1, 2);
    editor.handle_delete();
    assert_eq!(text(&editor), vec!["ab".to_string(), "cd".to_string()]);
    assert_eq!(cursor(&editor), Coordinates { x: 3, y: 1 });
    assert_eq!(editor.total_length(), 4);
}

#[test]
fn left_and_right_stop_at_the_ends_of_the_line() {
    let mut editor = editing_at(&["ab"], 24, 1, 1);
    assert_eq!(editor.handle_left(), None);
    assert_eq!(cursor(&editor), Coordinates { x: 1, y: 1 });
    assert_eq!(editor.handle_right(), Some(RenderDirective::RedrawStatus));
    assert_eq!(editor.handle_right(), Some(RenderDirective::RedrawStatus));
    assert_eq!(cursor(&editor), Coordinates { x: 3, y: 1 });
    assert_eq!(editor.handle_right(), None);
    assert_eq!(cursor(&editor), Coordinates { x: 3, y: 1 });
    assert_eq!(editor.handle_left(), Some(RenderDirective::RedrawStatus));
    assert_eq!(cursor(&editor), Coordinates { x: 2, y: 1 });
    assert_eq!(editor.get_current_screen_position_x(), 2);
}

#[test]
fn up_and_down_go_to_the_end_of_the_line() {
    let mut editor = editing_at(&["abcd", "x", "yz"], 24, 1, 2);
    editor.handle_up();
    assert_eq!(cursor(&editor), Coordinates { x: 5, y: 1 });
    assert_eq!(editor.handle_up(), None);
    assert_eq!(cursor(&editor), Coordinates { x: 5, y: 1 });
    editor.handle_down();
    assert_eq!(cursor(&editor), Coordinates { x: 2, y: 2 });
    editor.handle_down();
    assert_eq!(cursor(&editor), Coordinates { x: 3, y: 3 });
    assert_eq!(editor.handle_down(), None);
    assert_eq!(cursor(&editor), Coordinates { x: 3, y: 3 });
}

#[test]
fn home_goes_to_the_first_column() {
    let mut editor = editing_at(&["ab", "cdef"], 24, 4, 2);
    assert_eq!(editor.handle_home(), Some(RenderDirective::RedrawStatus));
    assert_eq!(cursor(&editor), Coordinates { x: 1, y: 2 });
    assert_eq!(editor.handle_home(), None);
}

#[test]
fn escape_saves_the_cursor_and_insert_restores_it() {
    let mut editor = editing_at(&["ab", "cdef"], 24, 3, 2);
    assert_eq!(editor.handle_key(Key::Escape), Some(RenderDirective::PlaceCursor(1, 24)));
    assert_eq!(editor.mode(), EditorMode::Command);
    assert_eq!(editor.last_pos(), Coordinates { x: 3, y: 2 });
    assert_eq!(editor.handle_key(Key::Char('x')), None);
    assert_eq!(text(&editor), vec!["ab".to_string(), "cdef".to_string()]);
    assert_eq!(editor.enter_insert_mode(), Some(RenderDirective::PlaceCursor(3, 2)));
    assert_eq!(editor.mode(), EditorMode::Insert);
    assert_eq!(cursor(&editor), Coordinates { x: 3, y: 2 });
    assert_eq!(editor.enter_insert_mode(), None);
}

#[test]
fn a_saved_position_outside_the_document_is_clamped() {
    let mut editor = editor_on(&["ab", "cdef"], 24);
    editor.set_last_pos(40, 9);
    editor.enter_insert_mode();
    assert_eq!(cursor(&editor), Coordinates { x: 5, y: 2 });
    editor.handle_esc();
    editor.set_last_pos(0, 0);
    editor.enter_insert_mode();
    assert_eq!(cursor(&editor), Coordinates { x: 1, y: 1 });
}

#[test]
fn a_new_editor_starts_in_command_mode_at_the_top() {
    let editor = Editor::new(None, 80, 24);
    assert_eq!(editor.mode(), EditorMode::Command);
    assert_eq!(cursor(&editor), Coordinates { x: 1, y: 1 });
    assert_eq!(editor.window(), Coordinates { x: 0, y: 24 });
    assert_eq!(editor.terminal_size(), Coordinates { x: 80, y: 24 });
    assert_eq!(editor.last_pos(), Coordinates { x: 1, y: 1 });
    assert_eq!(editor.total_length(), 0);
    assert_eq!(text(&editor), vec![String::new()]);
    assert_eq!(editor.get_current_buffer_position_x_usize(), 1);
    assert_eq!(editor.get_current_buffer_position_y_usize(), 1);
    assert_eq!(editor.get_current_screen_position_x(), 1);
    assert_eq!(editor.get_current_screen_position_y(), 1);
}

#[test]
fn the_count_of_loaded_lines_is_in_characters() {
    let editor = editor_on(&["héllo", "wörld!"], 24);
    assert_eq!(editor.total_length(), 11);
    assert_eq!(editor.document().line_len(0), 5);
    assert_eq!(editor.document().line_count(), 2);
}

#[test]
fn try_new_refuses_what_is_no_document() {
    assert!(Editor::try_new(None, 80, 0).is_none());
    assert!(Editor::try_new(Some(Vec::new()), 80, 0).is_none());
    let long: String = "x".repeat(65535);
    assert!(Editor::try_new(Some(vec![Rope::from_str(&long)]), 80, 24).is_none());
    let full: String = "x".repeat(65534);
    let editor = Editor::try_new(Some(vec![Rope::from_str(&full)]), 80, 24);
    assert!(editor.is_some());
    assert_eq!(editor.unwrap().total_length(), 65534);
}

#[test]
fn a_full_line_takes_no_more_characters() {
    let full: String = "x".repeat(65534);
    let mut editor = editing_at(&[&full, "y"], 24, 1, 1);
    assert_eq!(editor.handle_char('z'), None);
    assert_eq!(editor.total_length(), 65535);
    assert_eq!(cursor(&editor), Coordinates { x: 1, y: 1 });
    editor.handle_down();
    editor.handle_home();
    assert_eq!(editor.handle_delete(), None);
    assert_eq!(editor.document().line_count(), 2);
}

#[test]
fn a_full_document_takes_no_more_lines() {
    let ropes: Vec<Rope> = (0..65535).map(|_| Rope::new()).collect();
    let mut editor = Editor::new(Some(ropes), 80, 24);
    editor.enter_insert_mode();
    assert_eq!(editor.handle_newline(), None);
    assert_eq!(editor.document().line_count(), 65535);
    editor.set_last_pos(1, 65535);
    editor.handle_esc();
    editor.set_last_pos(1, 65535);
    assert_eq!(
        editor.enter_insert_mode(),
        Some(RenderDirective::RedrawViewport(65511, 65535))
    );
    assert_eq!(cursor(&editor), Coordinates { x: 1, y: 65535 });
    assert_eq!(editor.get_current_screen_position_y(), 24);
}

#[test]
fn scrolling_by_hand_moves_the_window_one_line() {
    let lines: Vec<String> = (0..10).map(|i| format!("{}", i)).collect();
    let borrowed: Vec<&str> = lines.iter().map(|line| line.as_str()).collect();
    let mut editor = editing_at(&borrowed, 4, 1, 3);
    assert_eq!(editor.window(), Coordinates { x: 0, y: 4 });
    editor.scroll_down();
    assert_eq!(editor.window(), Coordinates { x: 1, y: 5 });
    editor.scroll_up();
    assert_eq!(editor.window(), Coordinates { x: 0, y: 4 });
    assert_eq!(
        editor.render_all_lines(),
        vec!["0".to_string(), "1".to_string(), "2".to_string(), "3".to_string()]
    );
}

#[test]
fn the_window_shows_no_more_lines_than_there_are() {
    let editor = editor_on(&["a", "b"], 24);
    assert_eq!(editor.render_all_lines(), vec!["a".to_string(), "b".to_string()]);
    assert_eq!(editor.render_all_lines_from(1), vec!["b".to_string()]);
    assert!(editor.render_all_lines_from(2).is_empty());
}

#[test]
fn in_order_tells_a_cursor_outside_the_document() {
    let mut editor = editing_at(&["ab", "cd"], 24, 2, 2);
    assert!(editor.in_order());
    rim::util::set_buffer_pos(&mut editor, 2, 3);
    assert!(!editor.in_order());
    rim::util::set_buffer_pos(&mut editor, 4, 2);
    assert!(!editor.in_order());
    rim::util::set_buffer_pos(&mut editor, 3, 2);
    assert!(!editor.in_order());
    rim::util::set_screen_pos(&mut editor, 3, 2);
    assert!(editor.in_order());
    rim::util::set_screen_pos(&mut editor, 3, 1);
    assert!(!editor.in_order());
}

#[test]
fn in_order_tells_a_cursor_outside_the_window() {
    let lines: Vec<String> = (0..10).map(|i| format!("{}", i)).collect();
    let borrowed: Vec<&str> = lines.iter().map(|line| line.as_str()).collect();
    let mut editor = editing_at(&borrowed, 4, 1, 3);
    editor.scroll_down();
    rim::util::set_screen_pos(&mut editor, 1, 2);
    assert!(editor.in_order());
    editor.scroll_down();
    rim::util::set_screen_pos(&mut editor, 1, 1);
    assert!(editor.in_order());
    rim::util::set_buffer_pos(&mut editor, 1, 2);
    rim::util::set_screen_pos(&mut editor, 1, 0);
    assert!(!editor.in_order());
}

#[test]
fn a_list_without_lines_gives_one_empty_line() {
    let editor = Editor::new(Some(Vec::new()), 80, 24);
    assert!(editor.in_order());
    assert_eq!(text(&editor), vec![String::new()]);
    assert_eq!(editor.document().line_count(), 1);
    assert_eq!(editor.total_length(), 0);
    assert_eq!(cursor(&editor), Coordinates { x: 1, y: 1 });
    let mut tried = Editor::try_new(Some(Vec::new()), 80, 24).unwrap();
    assert_eq!(text(&tried), vec![String::new()]);
    tried.enter_insert_mode();
    tried.handle_char('a');
    assert_eq!(text(&tried), vec!["a".to_string()]);
    assert_eq!(tried.total_length(), 1);
}

#[test]
fn a_line_takes_only_the_characters_it_has_room_for() {
    let nearly: String = "x".repeat(65532);
    let mut editor = editing_at(&[&nearly, "y"], 24, 1, 1);
    let before = text(&editor);
    assert_eq!(editor.handle_char('a'), Some(RenderDirective::RedrawLine(1)));
    assert_eq!(editor.handle_char('b'), Some(RenderDirective::RedrawLine(1)));
    assert_eq!(editor.handle_char('c'), None);
    assert_eq!(editor.handle_char('d'), None);
    assert_eq!(editor.total_length(), 65535);
    assert_eq!(cursor(&editor), Coordinates { x: 3, y: 1 });
    assert!(editor.in_order());
    editor.handle_delete();
    editor.handle_delete();
    assert_eq!(text(&editor), before);
    assert_eq!(editor.total_length(), 65533);
    assert_eq!(cursor(&editor), Coordinates { x: 1, y: 1 });
}
