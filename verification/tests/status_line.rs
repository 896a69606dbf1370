use fred::dispatch::{InputEvent, KeyCode};
use fred::editor::{Editor, KeyState};

fn key(c: char) -> InputEvent {
    InputEvent::Key { code: KeyCode::Char(c), control: false }
}

fn three_lines(width: usize) -> Editor {
    let mut editor = Editor::new((width, 5));
    editor.read_from_file(vec!["a".to_string(), "bb".to_string(), "ccc".to_string()]);
    editor
}

#[test]
fn status_in_normal_mode() {
    let editor = three_lines(120);
    let expected = format!(
        "{}{}",
        " NORMAL | Line: 1/3 | v_draw: (0, 4) h_draw: (0, 120) | DrawLine: 1 | TermSize: (120, 5) | KeyState: INACTIVE",
        " ".repeat(11)
    );
    assert_eq!(editor.get_status_message(), expected);
    assert_eq!(editor.get_status_message().chars().count(), 120);
}

#[test]
fn status_in_insert_mode() {
    let mut editor = three_lines(120);
    editor.handle_input(key('i'));
    let expected = format!(
        "{}{}",
        " INSERT | Line: 1/3 | v_draw: (0, 4) h_draw (0, 120)| DrawLine: 1 | TermSize: (120, 5) | KeyState: INACTIVE",
        " ".repeat(13)
    );
    assert_eq!(editor.get_status_message(), expected);
}

#[test]
fn status_in_visual_mode_with_a_pending_key() {
    let mut editor = three_lines(120);
    editor.handle_input(key('v'));
    editor.handle_input(key('j'));
    editor.handle_input(key('g'));
    let expected = format!(
        "{}{}",
        " VISUAL | Line: 2/3 | v_draw: (0, 4) h_draw (0, 120) | DrawLine: 2 | TermSize: (120, 5) | KeyState: WAITING - g",
        " ".repeat(9)
    );
    assert_eq!(editor.get_status_message(), expected);
}

#[test]
fn status_counts_lines_from_one_in_a_scrolled_viewport() {
    let mut editor = Editor::new((120, 5));
    let rows: Vec<String> = (0..20).map(|i| format!("line {}", i)).collect();
    editor.read_from_file(rows);
    for _ in 0..10 {
        editor.handle_input(key('j'));
    }
    assert_eq!(editor.v_draw_region, (7, 11));
    assert_eq!(editor.draw_line, 4);
    assert_eq!(editor.cursor_line(), 10);
    let expected = format!(
        "{}{}",
        " NORMAL | Line: 11/20 | v_draw: (7, 11) h_draw: (0, 120) | DrawLine: 4 | TermSize: (120, 5) | KeyState: INACTIVE",
        " ".repeat(8)
    );
    assert_eq!(editor.get_status_message(), expected);
}

#[test]
fn status_wider_than_the_terminal_is_not_padded() {
    let editor = Editor::new((80, 24));
    assert_eq!(
        editor.get_status_message(),
        " NORMAL | Line: 1/0 | v_draw: (0, 23) h_draw: (0, 80) | DrawLine: 1 | TermSize: (80, 24) | KeyState: INACTIVE"
    );
}

#[test]
fn status_is_remembered_after_a_vertical_move() {
    let mut editor = three_lines(120);
    assert_eq!(editor.status, "Normal");
    editor.handle_input(key('j'));
    assert_eq!(editor.status, editor.get_status_message());
    assert!(editor.status.starts_with(" NORMAL | Line: 2/3 | v_draw: (0, 4) "));
    let remembered = editor.status.clone();
    editor.handle_input(key('i'));
    assert_eq!(editor.status, remembered);
    editor.update_status();
    assert!(editor.status.starts_with(" INSERT | Line: 2/3 "));
}

#[test]
fn key_state_text_names_the_pending_key() {
    let mut editor = Editor::new((80, 24));
    assert_eq!(editor.get_key_state_text(), "INACTIVE");
    editor.update_key_state(KeyState::Waiting('g'));
    assert_eq!(editor.get_key_state_text(), "WAITING - g");
    editor.update_key_state(KeyState::Waiting(':'));
    assert_eq!(editor.get_key_state_text(), "WAITING - :");
    editor.update_key_state(KeyState::_WaitingForCommand("wq".to_string()));
    assert_eq!(editor.get_key_state_text(), "INACTIVE");
}

#[test]
fn padding_fills_up_to_the_width() {
    let editor = Editor::new((80, 24));
    assert_eq!(editor.status_padding(3, 10), "       ");
    assert_eq!(editor.status_padding(9, 10), " ");
    assert_eq!(editor.status_padding(10, 10), "");
}

#[test]
fn padding_of_an_empty_or_overlong_text_is_empty() {
    let editor = Editor::new((80, 24));
    assert_eq!(editor.status_padding(0, 10), "");
    assert_eq!(editor.status_padding(11, 10), "");
    assert_eq!(editor.status_padding(usize::MAX, 0), "");
}

#[test]
fn padding_counts_characters_not_bytes() {
    let mut editor = Editor::new((120, 5));
    editor.update_key_state(KeyState::Waiting('é'));
    let message = editor.get_status_message();
    assert_eq!(message.chars().count(), 120);
    assert!(message.contains("KeyState: WAITING - é"));
}
