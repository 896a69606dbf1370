use fred::decimal::{count_digits, decimal_chars, digit_to_char};
use fred::editor::{Editor, EditorMode, KeyState};
use fred::line::Line;
use fred::mapper::{buffer_to_screen, gutter_width, screen_to_buffer};

fn text(line: &Line) -> String {
    line.line_chars.iter().collect()
}

#[test]
fn line_from_text_keeps_the_characters() {
    let line = Line::from_text("héllo\tw");
    assert_eq!(line.line_chars, vec!['h', 'é', 'l', 'l', 'o', '\t', 'w']);
    assert_eq!(line.len(), 7);
    assert_eq!(Line::new().len(), 0);
    assert_eq!(Line::from_text("").len(), 0);
}

#[test]
fn insert_puts_the_character_at_the_index() {
    let mut line = Line::from_text("bb");
    line.insert_char_at_cursor(1, 'X');
    assert_eq!(text(&line), "bXb");
    line.insert_char_at_cursor(0, 'A');
    assert_eq!(text(&line), "AbXb");
    line.insert_char_at_cursor(4, 'Z');
    assert_eq!(text(&line), "AbXbZ");
}

#[test]
fn insert_past_the_end_appends() {
    let mut line = Line::from_text("ab");
    line.insert_char_at_cursor(7, 'c');
    assert_eq!(text(&line), "abc");
    let mut empty = Line::new();
    empty.insert_char_at_cursor(usize::MAX, 'x');
    assert_eq!(text(&empty), "x");
}

#[test]
fn remove_takes_the_character_before_the_column() {
    let mut line = Line::from_text("abc");
    line.remove_char_at(2);
    assert_eq!(text(&line), "ac");
    line.remove_char_at(1);
    assert_eq!(text(&line), "c");
    line.remove_char_at(1);
    assert_eq!(text(&line), "");
}

#[test]
fn remove_at_column_zero_does_nothing() {
    let mut line = Line::from_text("abc");
    line.remove_char_at(0);
    assert_eq!(text(&line), "abc");
    let mut empty = Line::new();
    empty.remove_char_at(0);
    empty.remove_char_at(3);
    assert_eq!(text(&empty), "");
}

#[test]
fn remove_past_the_end_takes_the_last_character() {
    let mut line = Line::from_text("abc");
    line.remove_char_at(9);
    assert_eq!(text(&line), "ab");
}

#[test]
fn insert_then_remove_restores_the_line() {
    for k in 0..6 {
        let mut line = Line::from_text("abc");
        line.insert_char_at_cursor(k, 'X');
        assert_eq!(line.len(), 4);
        line.remove_char_at(k + 1);
        assert_eq!(text(&line), "abc");
    }
}

#[test]
fn decimal_notation() {
    assert_eq!(decimal_chars(0), vec!['0']);
    assert_eq!(decimal_chars(7), vec!['7']);
    assert_eq!(decimal_chars(10), vec!['1', '0']);
    assert_eq!(decimal_chars(12345).iter().collect::<String>(), "12345");
    assert_eq!(decimal_chars(9_876_543_210).iter().collect::<String>(), "9876543210");
    assert_eq!(
        decimal_chars(u128::MAX).iter().collect::<String>(),
        "340282366920938463463374607431768211455"
    );
    assert_eq!(digit_to_char(0), '0');
    assert_eq!(digit_to_char(5), '5');
    assert_eq!(digit_to_char(9), '9');
}

#[test]
fn digit_counts() {
    assert_eq!(count_digits(0), 1);
    assert_eq!(count_digits(9), 1);
    assert_eq!(count_digits(10), 2);
    assert_eq!(count_digits(99), 2);
    assert_eq!(count_digits(100), 3);
    assert_eq!(count_digits(123_456), 6);
    assert_eq!(count_digits(usize::MAX), usize::MAX.to_string().len());
}

#[test]
fn gutter_is_one_wider_than_the_line_count() {
    assert_eq!(gutter_width(0), 2);
    assert_eq!(gutter_width(3), 2);
    assert_eq!(gutter_width(9), 2);
    assert_eq!(gutter_width(10), 3);
    assert_eq!(gutter_width(999), 4);
    assert_eq!(gutter_width(1000), 5);
}

#[test]
fn screen_positions_map_to_buffer_positions() {
    assert_eq!(screen_to_buffer(2, 0, (0, 4), 2), (0, 0));
    assert_eq!(screen_to_buffer(5, 3, (0, 4), 2), (3, 3));
    assert_eq!(screen_to_buffer(7, 2, (10, 14), 3), (12, 4));
    assert_eq!(screen_to_buffer(1, 2, (10, 14), 3), (12, 0));
}

#[test]
fn buffer_positions_map_to_screen_positions() {
    assert_eq!(buffer_to_screen(0, 0, (0, 4), 2), (2, 0));
    assert_eq!(buffer_to_screen(3, 3, (0, 4), 2), (5, 3));
    assert_eq!(buffer_to_screen(12, 4, (10, 14), 3), (7, 2));
    assert_eq!(buffer_to_screen(4, 1, (10, 14), 3), (4, 0));
}

#[test]
fn mapping_there_and_back() {
    let viewport = (10, 14);
    for line in 10..14 {
        for column in 0..5 {
            let (col, row) = buffer_to_screen(line, column, viewport, 3);
            assert_eq!(screen_to_buffer(col, row, viewport, 3), (line, column));
        }
    }
    for row in 0..4 {
        for col in 3..9 {
            let (line, column) = screen_to_buffer(col, row, viewport, 3);
            assert_eq!(buffer_to_screen(line, column, viewport, 3), (col, row));
        }
    }
}

#[test]
fn a_new_editor_is_empty_and_consistent() {
    let editor = Editor::new((80, 24));
    assert_eq!(editor.lines.len(), 0);
    assert_eq!(editor.status, "Normal");
    assert_eq!(editor.mode, EditorMode::Normal);
    assert_eq!(editor.v_draw_region, (0, 23));
    assert_eq!(editor.h_draw_region, (0, 80));
    assert_eq!(editor.draw_line, 1);
    assert!(matches!(editor.key_state, KeyState::Inactive));
    assert!(editor.line_num_buf.is_empty());
    assert_eq!(editor.term_size, (80, 24));
    assert_eq!(editor.cursor_column, 0);
    assert!(editor.is_well_formed());
    assert_eq!(editor.cursor_line(), 0);
    assert_eq!(editor.cursor_line_len(), 0);
    assert_eq!(editor.cursor_position(), (2, 0));
}

#[test]
fn a_terminal_too_low_counts_as_two_rows() {
    for rows in 0..3 {
        let editor = Editor::new((10, rows));
        assert_eq!(editor.term_size, (10, 2));
        assert_eq!(editor.v_draw_region, (0, 1));
        assert!(editor.is_well_formed());
    }
    let editor = Editor::new((0, 0));
    assert_eq!(editor.h_draw_region, (0, 0));
    assert_eq!(editor.term_size, (0, 2));
}

#[test]
fn loading_appends_one_line_per_row() {
    let mut editor = Editor::new((80, 24));
    editor.read_from_file(vec!["first".to_string(), String::new(), "third row".to_string()]);
    assert_eq!(editor.lines.len(), 3);
    assert_eq!(text(&editor.lines[0]), "first");
    assert_eq!(text(&editor.lines[1]), "");
    assert_eq!(text(&editor.lines[2]), "third row");
    assert_eq!(editor.line_num_buf, vec!['3']);
    assert_eq!(editor.get_line_num_buff_size(), 1);
    assert_eq!(editor.v_draw_region, (0, 23));
    assert!(editor.is_well_formed());

    editor.read_from_file((0..9).map(|i| i.to_string()).collect());
    assert_eq!(editor.lines.len(), 12);
    assert_eq!(text(&editor.lines[0]), "first");
    assert_eq!(text(&editor.lines[3]), "0");
    assert_eq!(text(&editor.lines[11]), "8");
    assert_eq!(editor.line_num_buf, vec!['1', '2']);
    assert_eq!(editor.get_line_num_buff_size(), 2);
    assert_eq!(editor.ln_pad(), 3);
    assert!(editor.is_well_formed());
}

#[test]
fn loading_nothing_leaves_the_buffer_empty() {
    let mut editor = Editor::new((80, 24));
    editor.read_from_file(Vec::new());
    assert_eq!(editor.lines.len(), 0);
    assert_eq!(editor.line_num_buf, vec!['0']);
    assert_eq!(editor.ln_pad(), 2);
    assert!(editor.is_well_formed());
}

#[test]
fn line_number_digits_follow_the_given_number() {
    let mut editor = Editor::new((80, 24));
    assert_eq!(editor.get_line_num_buff_size(), 0);
    editor.update_line_num_buff(1234);
    assert_eq!(editor.line_num_buf, vec!['1', '2', '3', '4']);
    assert_eq!(editor.get_line_num_buff_size(), 4);
}

#[test]
fn the_cursor_line_can_be_edited_in_place() {
    let mut editor = Editor::new((80, 24));
    editor.read_from_file(vec!["one".to_string(), "two".to_string()]);
    assert_eq!(text(editor.get_line_from_cursor()), "one");
    editor.get_line_from_cursor().insert_char_at_cursor(3, '!');
    assert_eq!(text(&editor.lines[0]), "one!");
    assert_eq!(text(&editor.lines[1]), "two");
    editor.move_down();
    assert_eq!(text(editor.get_line_from_cursor()), "two");
}

#[test]
fn a_cursor_outside_the_buffer_finds_the_nearest_line() {
    let mut editor = Editor::new((80, 24));
    editor.read_from_file(vec!["one".to_string(), "two".to_string(), "three".to_string()]);

    editor.draw_line = 0;
    assert_eq!(text(editor.get_line_from_cursor()), "one");
    editor.draw_line = 3;
    assert_eq!(text(editor.get_line_from_cursor()), "three");
    editor.draw_line = 4;
    assert_eq!(text(editor.get_line_from_cursor()), "three");
    editor.draw_line = usize::MAX;
    assert_eq!(text(editor.get_line_from_cursor()), "three");

    editor.v_draw_region = (2, 25);
    editor.draw_line = 0;
    assert_eq!(text(editor.get_line_from_cursor()), "two");
    editor.draw_line = 1;
    assert_eq!(text(editor.get_line_from_cursor()), "three");
    editor.v_draw_region = (7, 30);
    editor.draw_line = 0;
    assert_eq!(text(editor.get_line_from_cursor()), "three");
    editor.v_draw_region = (usize::MAX, usize::MAX);
    editor.draw_line = usize::MAX;
    assert_eq!(text(editor.get_line_from_cursor()), "three");
    editor.get_line_from_cursor().insert_char_at_cursor(0, '>');
    assert_eq!(text(&editor.lines[2]), ">three");
    assert_eq!(text(&editor.lines[0]), "one");
}

#[test]
fn mode_setters_change_only_the_mode() {
    let mut editor = Editor::new((80, 24));
    editor.set_insert_mode();
    assert_eq!(editor.mode, EditorMode::Insert);
    editor.set_visual_mode();
    assert_eq!(editor.mode, EditorMode::Visual);
    editor.set_normal_mode();
    assert_eq!(editor.mode, EditorMode::Normal);
    assert_eq!(editor.v_draw_region, (0, 23));
    assert_eq!(editor.draw_line, 1);
    assert!(editor.is_well_formed());
}

#[test]
fn inconsistent_states_are_recognised() {
    let mut editor = Editor::new((80, 5));
    editor.read_from_file(vec!["a".to_string(), "bb".to_string()]);
    assert!(editor.is_well_formed());

    editor.draw_line = 0;
    assert!(!editor.is_well_formed());
    editor.draw_line = 5;
    assert!(!editor.is_well_formed());
    editor.draw_line = 3;
    assert!(!editor.is_well_formed());
    editor.draw_line = 2;
    assert!(editor.is_well_formed());

    editor.cursor_column = 3;
    assert!(!editor.is_well_formed());
    editor.cursor_column = 2;
    assert!(editor.is_well_formed());

    editor.v_draw_region = (0, 5);
    assert!(!editor.is_well_formed());
    editor.v_draw_region = (0, 1);
    assert!(!editor.is_well_formed());
    editor.v_draw_region = (3, 2);
    assert!(!editor.is_well_formed());
    editor.v_draw_region = (0, 2);
    assert!(editor.is_well_formed());

    editor.term_size = (80, 1);
    assert!(!editor.is_well_formed());
}
