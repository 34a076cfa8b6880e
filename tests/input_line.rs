use irc_tui::tui::commands::{arguments, split_command};
use irc_tui::tui::widgets::chat::split_lines_with_max_len;
use irc_tui::tui::widgets::prompt::{KeyCode, KeyEvent, Prompt};

fn key(code: KeyCode) -> KeyEvent {
    KeyEvent { code, control: false }
}

fn ctrl(code: KeyCode) -> KeyEvent {
    KeyEvent { code, control: true }
}

fn typed(p: &Prompt) -> String {
    p.buffer().iter().collect()
}

fn type_text(p: &mut Prompt, s: &str) {
    for ch in s.chars() {
        assert_eq!(p.key_press(key(KeyCode::Char(ch))), None);
    }
}

#[test]
fn enter_hands_out_the_line() {
    let mut p = Prompt::new(80, 24);
    type_text(&mut p, "hello");
    assert_eq!(p.key_press(key(KeyCode::Enter)), Some("hello".to_string()));
    assert_eq!(typed(&p), "");
    assert_eq!(p.cursor(), 0);
}

#[test]
fn arrows_home_end_and_editing_keys() {
    let mut p = Prompt::new(80, 24);
    type_text(&mut p, "abc");
    p.key_press(key(KeyCode::Left));
    p.key_press(key(KeyCode::Backspace));
    assert_eq!(typed(&p), "ac");
    assert_eq!(p.cursor(), 1);
    p.key_press(key(KeyCode::Delete));
    assert_eq!(typed(&p), "a");
    p.key_press(key(KeyCode::Home));
    assert_eq!(p.cursor(), 0);
    p.key_press(key(KeyCode::Left));
    assert_eq!(p.cursor(), 0);
    p.key_press(key(KeyCode::End));
    assert_eq!(p.cursor(), 1);
    p.key_press(key(KeyCode::Up));
    assert_eq!(typed(&p), "a");
    p.key_press(key(KeyCode::Right));
    assert_eq!(p.cursor(), 2);
    p.sync_cursor();
    assert_eq!(p.cursor(), 1);
}

#[test]
fn control_arrows_move_by_words() {
    let mut p = Prompt::new(80, 24);
    type_text(&mut p, "one two  three");
    p.key_press(ctrl(KeyCode::Left));
    assert_eq!(p.cursor(), 9);
    p.key_press(ctrl(KeyCode::Left));
    assert_eq!(p.cursor(), 4);
    p.key_press(ctrl(KeyCode::Right));
    assert_eq!(p.cursor(), 8);
}

#[test]
fn control_delete_removes_a_word() {
    let mut p = Prompt::new(80, 24);
    type_text(&mut p, "one two");
    p.key_press(key(KeyCode::Home));
    p.key_press(ctrl(KeyCode::Delete));
    assert_eq!(typed(&p), " two");
    assert_eq!(p.cursor(), 0);
}

#[test]
fn prompt_redraw_and_cursor_column() {
    let mut p = Prompt::new(80, 24);
    assert_eq!(p.redraw(), Some(0));
    assert_eq!(p.redraw(), None);
    type_text(&mut p, "ab");
    assert_eq!(p.redraw(), Some(0));
    p.key_press(key(KeyCode::Backspace));
    assert_eq!(p.redraw(), Some(2));
    let label = p.text().len();
    let x = p.pos().x as usize;
    assert_eq!(p.cursor_column(), Some((1 + x + label + 1) as u16));
    assert_eq!(p.cursor_column(), None);
}

#[test]
fn commands_are_split_into_name_and_argument() {
    assert_eq!(split_command("/join rust"), Some(("join".to_string(), "rust".to_string())));
    assert_eq!(split_command("/quit"), Some(("quit".to_string(), String::new())));
    assert_eq!(split_command("/connect a  b"), Some(("connect".to_string(), "a  b".to_string())));
    assert_eq!(split_command("hello"), None);
    assert_eq!(split_command(""), None);
}

#[test]
fn arguments_skip_empty_parts() {
    assert_eq!(arguments("  a  b "), vec!["a".to_string(), "b".to_string()]);
    assert!(arguments("").is_empty());
    assert!(arguments("   ").is_empty());
    assert_eq!(arguments("x"), vec!["x".to_string()]);
}

#[test]
fn lines_are_wrapped_and_padded() {
    assert_eq!(
        split_lines_with_max_len("the quick brown fox", 10),
        vec!["the quick ".to_string(), "brown fox ".to_string()]
    );
    assert_eq!(split_lines_with_max_len("   ", 5), Vec::<String>::new());
    assert_eq!(
        split_lines_with_max_len("averyverylongword x", 4),
        vec!["averyverylongword".to_string(), "x   ".to_string()]
    );
}
