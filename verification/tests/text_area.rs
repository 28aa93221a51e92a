use wstui::columns::{get_line_pos_of_column, LinePosition};
use wstui::text_area::{Action, CursorPosition, TextArea};
use wstui::ui::Rect;
use wstui::utf8::get_byte_index_from_char_index;

fn typed(text: &str) -> TextArea {
    let mut area = TextArea::new();
    for c in text.chars() {
        if c == '\n' {
            area.update(Action::NewLine);
        } else {
            area.update(Action::NewChar(c));
        }
    }
    area
}

fn run(area: &mut TextArea, actions: &[Action]) {
    for action in actions {
        area.update(*action);
    }
}

fn at(col: usize, row: usize) -> CursorPosition {
    CursorPosition { col, row }
}

#[test]
fn new_area_is_one_blank_line() {
    let area = TextArea::new();
    assert_eq!(area.nlines(), 1);
    assert_eq!(area.content(), "");
    assert_eq!(area.cursor, at(0, 0));
    assert_eq!(area.cursor, CursorPosition::default());
    assert_eq!(TextArea::default().content(), "");
}

#[test]
fn typed_text_is_content() {
    let area = typed("hello\nworld\n");
    assert_eq!(area.content(), "hello\nworld\n");
    assert_eq!(area.nlines(), 3);
    assert_eq!(area.cursor, at(0, 2));
}

#[test]
fn backspaces_undo_typing() {
    let mut area = typed("ab\ncd");
    run(&mut area, &[Action::MoveUp, Action::MoveLeft]);
    let (content, cursor) = (area.content(), area.cursor);
    for c in "x\ny語".chars() {
        let action = if c == '\n' { Action::NewLine } else { Action::NewChar(c) };
        area.update(action);
    }
    assert_eq!(area.content(), "ax\ny語b\ncd");
    run(&mut area, &[Action::Backspace; 4]);
    assert_eq!(area.content(), content);
    assert_eq!(area.cursor, cursor);
}

#[test]
fn insert_in_the_middle_of_multibyte_text() {
    let mut area = typed("äöü");
    run(&mut area, &[Action::MoveLeft, Action::MoveLeft, Action::NewChar('x')]);
    assert_eq!(area.content(), "äxöü");
    assert_eq!(area.cursor, at(2, 0));
}

#[test]
fn backspace_in_the_middle_of_multibyte_text() {
    let mut area = typed("äöü");
    run(&mut area, &[Action::MoveLeft, Action::Backspace]);
    assert_eq!(area.content(), "äü");
    assert_eq!(area.cursor, at(1, 0));
}

#[test]
fn backspace_at_the_start_does_nothing() {
    let mut area = typed("ab");
    run(&mut area, &[Action::MoveHome, Action::Backspace]);
    assert_eq!(area.content(), "ab");
    assert_eq!(area.cursor, at(0, 0));
}

#[test]
fn backspace_joins_lines() {
    let mut area = typed("one\ntwo");
    run(&mut area, &[Action::MoveHome, Action::Backspace]);
    assert_eq!(area.content(), "onetwo");
    assert_eq!(area.nlines(), 1);
    assert_eq!(area.cursor, at(3, 0));
    area.update(Action::NewChar('-'));
    assert_eq!(area.content(), "one-two");
}

#[test]
fn new_line_splits_a_line() {
    let mut area = typed("日本語");
    run(&mut area, &[Action::MoveLeft, Action::NewLine]);
    assert_eq!(area.content(), "日本\n語");
    assert_eq!(area.cursor, at(0, 1));
}

#[test]
fn new_line_in_the_middle_of_lines() {
    let mut area = typed("ab\ncd");
    run(&mut area, &[Action::MoveUp, Action::MoveLeft, Action::NewLine]);
    assert_eq!(area.content(), "a\nb\ncd");
    assert_eq!(area.cursor, at(0, 1));
}

#[test]
fn clear_starts_anew() {
    let mut area = typed("ab\ncd");
    area.update(Action::Clear);
    assert_eq!(area.content(), "");
    assert_eq!(area.nlines(), 1);
    assert_eq!(area.cursor, at(0, 0));
}

#[test]
fn clear_twice_is_clear_once() {
    let mut area = typed("ab\ncd");
    area.cursor = at(9, 9);
    area.clear();
    assert_eq!(area.content(), "");
    assert_eq!(area.cursor, at(0, 0));
    area.clear();
    assert_eq!(area.content(), "");
    assert_eq!(area.cursor, at(0, 0));
    assert!(area.is_consistent());
}

#[test]
fn movement_tells_whether_it_succeeded() {
    let mut area = typed("a語\nb");
    assert!(!area.move_down());
    assert!(!area.move_right());
    assert!(area.move_left());
    assert!(!area.move_left());
    assert!(area.move_up());
    assert!(!area.move_up());
    area.move_to_end_of_line();
    assert_eq!(area.cursor, at(3, 0));
    assert!(!area.move_right());
    area.move_to_start_of_line();
    assert_eq!(area.cursor, at(0, 0));
    assert!(!area.move_left());
    assert!(area.move_right());
    assert!(area.move_down());
    assert_eq!(area.cursor, at(1, 1));
}

#[test]
fn columns_count_display_widths() {
    let mut area = typed("a語e\u{301}\u{7}");
    // One column, two, one, none for the accent and none for the bell.
    assert_eq!(area.cursor, at(4, 0));
    area.update(Action::MoveLeft);
    assert_eq!(area.cursor, at(4, 0));
    area.update(Action::MoveLeft);
    assert_eq!(area.cursor, at(4, 0));
    area.update(Action::MoveLeft);
    assert_eq!(area.cursor, at(3, 0));
    area.update(Action::MoveLeft);
    assert_eq!(area.cursor, at(1, 0));
    area.update(Action::MoveLeft);
    assert_eq!(area.cursor, at(0, 0));
    area.update(Action::MoveLeft);
    assert_eq!(area.cursor, at(0, 0));
    area.update(Action::MoveEnd);
    assert_eq!(area.cursor, at(4, 0));
    area.update(Action::MoveRight);
    assert_eq!(area.cursor, at(4, 0));
    area.update(Action::MoveHome);
    area.update(Action::MoveRight);
    area.update(Action::MoveRight);
    assert_eq!(area.cursor, at(3, 0));
}

#[test]
fn end_of_line_stays() {
    let mut area = typed("a語é\nb");
    run(&mut area, &[Action::MoveUp, Action::MoveEnd]);
    assert_eq!(area.cursor, at(4, 0));
    area.update(Action::MoveEnd);
    assert_eq!(area.cursor, at(4, 0));
    area.update(Action::MoveRight);
    assert_eq!(area.cursor, at(4, 0));
    area.update(Action::NewChar('!'));
    assert_eq!(area.content(), "a語é!\nb");
}

#[test]
fn column_is_index_in_ascii_text() {
    let mut area = typed("ascii only ~");
    assert_eq!(area.cursor, at(12, 0));
    run(&mut area, &[Action::MoveLeft, Action::MoveLeft, Action::NewChar('!')]);
    assert_eq!(area.content(), "ascii only! ~");
    assert_eq!(area.cursor, at(11, 0));
}

#[test]
fn left_and_right_undo_each_other() {
    let mut area = typed("x語y");
    run(&mut area, &[Action::MoveLeft]);
    let cursor = area.cursor;
    run(&mut area, &[Action::MoveLeft, Action::MoveRight]);
    assert_eq!(area.cursor, cursor);
    run(&mut area, &[Action::MoveRight, Action::MoveLeft]);
    assert_eq!(area.cursor, cursor);
    assert_eq!(area.content(), "x語y");
}

#[test]
fn vertical_movement_keeps_the_column() {
    let mut area = typed("abcdef\nabcdef");
    run(&mut area, &[Action::MoveLeft, Action::MoveLeft, Action::MoveUp]);
    assert_eq!(area.cursor, at(4, 0));
    area.update(Action::MoveUp);
    assert_eq!(area.cursor, at(4, 0));
    run(&mut area, &[Action::MoveDown, Action::NewChar('!')]);
    assert_eq!(area.content(), "abcdef\nabcd!ef");
    area.update(Action::MoveDown);
    assert_eq!(area.cursor, at(5, 1));
}

#[test]
fn vertical_movement_stops_at_the_first_column_of_a_wide_character() {
    let mut area = typed("語語\nabc");
    area.update(Action::MoveUp);
    assert_eq!(area.cursor, at(2, 0));
    area.update(Action::NewChar('|'));
    assert_eq!(area.content(), "語|語\nabc");
}

#[test]
fn vertical_movement_to_a_short_line_goes_to_its_end() {
    let mut area = typed("ab\nabcdef\nxy");
    run(&mut area, &[Action::MoveUp, Action::MoveEnd, Action::MoveUp]);
    assert_eq!(area.cursor, at(2, 0));
    run(&mut area, &[Action::MoveDown, Action::MoveEnd, Action::MoveDown, Action::NewChar('!')]);
    assert_eq!(area.content(), "ab\nabcdef\nxy!");
}

#[test]
fn end_of_a_short_line_is_a_character_index() {
    let mut area = typed("éé\nabcdef");
    area.update(Action::MoveUp);
    assert_eq!(area.cursor, at(2, 0));
    area.update(Action::MoveLeft);
    assert_eq!(area.cursor, at(1, 0));
    area.update(Action::Backspace);
    assert_eq!(area.content(), "é\nabcdef");
    run(&mut area, &[Action::MoveDown, Action::MoveEnd, Action::MoveUp, Action::Backspace]);
    assert_eq!(area.content(), "\nabcdef");
}

#[test]
fn movement_keeps_text() {
    let mut area = typed("a\n語\n\nbc");
    let moves = [
        Action::MoveUp,
        Action::MoveLeft,
        Action::MoveUp,
        Action::MoveRight,
        Action::MoveUp,
        Action::MoveHome,
        Action::MoveDown,
        Action::MoveEnd,
        Action::MoveDown,
    ];
    for action in moves {
        area.update(action);
        assert_eq!(area.content(), "a\n語\n\nbc");
        assert!(area.is_consistent());
    }
}

#[test]
fn inconsistent_cursor_is_refused() {
    let mut area = typed("ab\ncd");
    assert!(area.try_update(Action::NewChar('!')));
    assert_eq!(area.content(), "ab\ncd!");
    area.cursor.row = 2;
    assert!(!area.try_update(Action::Backspace));
    area.cursor = at(7, 1);
    assert!(!area.is_consistent());
    assert!(!area.try_update(Action::Clear));
    assert_eq!(area.content(), "ab\ncd!");
    area.cursor = at(2, 0);
    assert!(!area.is_consistent());
    area.cursor = at(3, 1);
    assert!(area.is_consistent());
    assert_eq!(area.cursor_position(), at(3, 1));
}

#[test]
fn render_frames_the_content() {
    let frame = Rect { x: 0, y: 0, width: 10, height: 4 };
    let panel = typed("a\nb").render(&frame);
    assert_eq!(panel.title, "Input");
    assert_eq!(panel.text, "a\nb");
}

#[test]
fn position_of_a_column() {
    let place = |col, char_index| Some(LinePosition { col, char_index });
    assert_eq!(get_line_pos_of_column("abc", 0), place(0, 0));
    assert_eq!(get_line_pos_of_column("abc", 2), place(2, 2));
    assert_eq!(get_line_pos_of_column("abc", 3), None);
    assert_eq!(get_line_pos_of_column("", 0), None);
    assert_eq!(get_line_pos_of_column("a語b", 1), place(1, 1));
    assert_eq!(get_line_pos_of_column("a語b", 2), place(1, 1));
    assert_eq!(get_line_pos_of_column("a語b", 3), place(3, 2));
    assert_eq!(get_line_pos_of_column("e\u{301}x", 1), place(1, 2));
    assert_eq!(get_line_pos_of_column("\u{301}", 0), None);
}

#[test]
fn byte_index_of_a_character() {
    assert_eq!(get_byte_index_from_char_index("aé語😀!", 0), 0);
    assert_eq!(get_byte_index_from_char_index("aé語😀!", 1), 1);
    assert_eq!(get_byte_index_from_char_index("aé語😀!", 2), 3);
    assert_eq!(get_byte_index_from_char_index("aé語😀!", 3), 6);
    assert_eq!(get_byte_index_from_char_index("aé語😀!", 4), 10);
    assert_eq!(get_byte_index_from_char_index("aé語😀!", 5), 11);
    assert_eq!(get_byte_index_from_char_index("aé語😀!", 99), 11);
}
