use reqtui::input_line::{InputLineState, InputMode, InputResult};
use reqtui::keys::{Key, KeyInput, Modifier};

fn buf(s: &str) -> InputLineState {
    InputLineState::new(s.chars().collect())
}

fn text(b: &InputLineState) -> String {
    b.value().iter().collect()
}

fn plain(code: Key) -> KeyInput {
    KeyInput { code, mods: Modifier::Plain }
}

fn ctrl(c: char) -> KeyInput {
    KeyInput { code: Key::Char(c), mods: Modifier::Control }
}

#[test]
fn insert_at_end() {
    let mut b = buf("");
    assert!(matches!(b.insert_char('h'), InputResult::Changed));
    assert!(matches!(b.insert_char('i'), InputResult::Changed));
    assert_eq!(text(&b), "hi");
    assert_eq!(b.cursor_offset(), 0);
}

#[test]
fn insert_in_middle() {
    let mut b = buf("ac");
    b.move_left();
    assert_eq!(b.cursor_offset(), 1);
    b.insert_char('b');
    assert_eq!(text(&b), "abc");
    assert_eq!(b.cursor_offset(), 1);
}

#[test]
fn delete_backward_removes_left_of_cursor() {
    let mut b = buf("abc");
    assert!(matches!(b.delete_backward(), InputResult::Changed));
    assert_eq!(text(&b), "ab");
    let mut b = buf("abc");
    b.move_left();
    b.delete_backward();
    assert_eq!(text(&b), "ac");
    assert_eq!(b.cursor_offset(), 1);
}

#[test]
fn delete_backward_on_empty_is_noop() {
    let mut b = buf("");
    assert!(matches!(b.delete_backward(), InputResult::NOOP));
    assert_eq!(text(&b), "");
    assert_eq!(b.cursor_offset(), 0);
}

#[test]
fn delete_backward_at_start_is_noop() {
    let mut b = buf("ab");
    b.move_home();
    assert!(matches!(b.delete_backward(), InputResult::NOOP));
    assert_eq!(text(&b), "ab");
}

#[test]
fn delete_forward_at_offset_zero_is_noop() {
    let mut b = buf("abc");
    assert_eq!(b.cursor_offset(), 0);
    assert!(matches!(b.delete_forward(), InputResult::NOOP));
    assert_eq!(text(&b), "abc");
}

#[test]
fn delete_forward_removes_right_of_cursor() {
    let mut b = buf("abc");
    b.move_left();
    assert!(matches!(b.delete_forward(), InputResult::Changed));
    assert_eq!(text(&b), "ab");
    assert_eq!(b.cursor_offset(), 0);
}

#[test]
fn moves_clamp_at_both_ends() {
    let mut b = buf("ab");
    assert!(matches!(b.move_right(), InputResult::NOOP));
    b.move_left();
    b.move_left();
    assert_eq!(b.cursor_offset(), 2);
    assert!(matches!(b.move_left(), InputResult::NOOP));
    assert_eq!(b.cursor_offset(), 2);
    assert!(matches!(b.move_right(), InputResult::Changed));
    assert_eq!(b.cursor_offset(), 1);
}

#[test]
fn home_and_end_set_cursor() {
    let mut b = buf("abcd");
    b.move_home();
    assert_eq!(b.cursor_offset(), 4);
    b.move_end();
    assert_eq!(b.cursor_offset(), 0);
}

#[test]
fn kill_to_start_removes_left_of_cursor() {
    let mut b = buf("hello world");
    for _ in 0..5 {
        b.move_left();
    }
    b.kill_to_start();
    assert_eq!(text(&b), "world");
    assert_eq!(b.cursor_offset(), 5);
}

#[test]
fn kill_to_end_removes_right_of_cursor() {
    let mut b = buf("hello world");
    for _ in 0..6 {
        b.move_left();
    }
    b.kill_to_end();
    assert_eq!(text(&b), "hello");
    assert_eq!(b.cursor_offset(), 0);
}

#[test]
fn kill_start_then_kill_end_always_empties() {
    for (s, lefts) in [("hello world", 3), ("", 0), ("a", 1), ("xy z", 0)] {
        let mut b = buf(s);
        for _ in 0..lefts {
            b.move_left();
        }
        b.kill_to_start();
        b.kill_to_end();
        assert_eq!(text(&b), "");
        assert_eq!(b.cursor_offset(), 0);
    }
}

#[test]
fn word_backward_delete_to_previous_space() {
    let mut b = buf("foo bar baz");
    b.delete_word_backward();
    assert_eq!(text(&b), "foo bar ");
    b.delete_word_backward();
    assert_eq!(text(&b), "foo ");
}

#[test]
fn word_backward_delete_skips_trailing_spaces() {
    let mut b = buf("foo bar   ");
    b.delete_word_backward();
    assert_eq!(text(&b), "foo ");
}

#[test]
fn word_backward_delete_without_space_clears_to_start() {
    let mut b = buf("hello");
    b.delete_word_backward();
    assert_eq!(text(&b), "");
}

#[test]
fn word_backward_delete_keeps_text_right_of_cursor() {
    let mut b = buf("foo bar baz");
    for _ in 0..4 {
        b.move_left();
    }
    b.delete_word_backward();
    assert_eq!(text(&b), "foo  baz");
}

#[test]
fn cancel_restores_baseline_after_edits() {
    let mut b = buf("stable");
    b.insert_char('x');
    b.delete_backward();
    b.insert_char('y');
    b.kill_to_start();
    assert_ne!(text(&b), "stable");
    assert!(matches!(b.cancel(), InputResult::Canceled));
    assert_eq!(text(&b), "stable");
    assert!(matches!(b.input_mode(), InputMode::Normal));
}

#[test]
fn cancel_restores_value_at_last_accept() {
    let mut b = buf("");
    b.insert_char('a');
    b.insert_char('b');
    assert!(matches!(b.accept(), InputResult::Accepted));
    b.insert_char('c');
    b.insert_char('d');
    b.cancel();
    assert_eq!(text(&b), "ab");
}

#[test]
fn cursor_invariant_holds_through_any_sequence() {
    let mut b = buf("");
    let keys = [
        plain(Key::Char('a')),
        plain(Key::Char(' ')),
        plain(Key::Char('b')),
        plain(Key::Left),
        plain(Key::Left),
        ctrl('w'),
        plain(Key::Backspace),
        plain(Key::Delete),
        ctrl('a'),
        plain(Key::Char('x')),
        ctrl('k'),
        ctrl('u'),
        plain(Key::Home),
        plain(Key::Char('z')),
        plain(Key::End),
        plain(Key::Enter),
        plain(Key::Esc),
    ];
    for k in keys {
        b.handle_key(k);
        assert!(b.cursor_offset() <= b.value().len());
    }
}

#[test]
fn handle_key_maps_control_bindings() {
    let mut b = buf("one two");
    b.handle_key(ctrl('w'));
    assert_eq!(text(&b), "one ");
    b.handle_key(ctrl('a'));
    assert_eq!(b.cursor_offset(), 4);
    b.handle_key(ctrl('e'));
    assert_eq!(b.cursor_offset(), 0);
    b.handle_key(ctrl('b'));
    assert_eq!(b.cursor_offset(), 1);
    b.handle_key(ctrl('f'));
    assert_eq!(b.cursor_offset(), 0);
    b.handle_key(ctrl('h'));
    assert_eq!(text(&b), "one");
}

#[test]
fn handle_key_inserts_shifted_chars() {
    let mut b = buf("");
    b.handle_key(KeyInput { code: Key::Char('A'), mods: Modifier::Shift });
    assert_eq!(text(&b), "A");
}

#[test]
fn handle_key_swallows_unmapped_keys() {
    let mut b = buf("abc");
    assert!(matches!(
        b.handle_key(KeyInput { code: Key::Tab, mods: Modifier::Plain }),
        InputResult::NOOP
    ));
    assert!(matches!(
        b.handle_key(KeyInput { code: Key::Right, mods: Modifier::Control }),
        InputResult::NOOP
    ));
    assert_eq!(text(&b), "abc");
}

#[test]
fn word_left_moves_cursor_to_boundary() {
    let mut b = buf("foo bar");
    b.handle_key(KeyInput { code: Key::Left, mods: Modifier::Control });
    assert_eq!(b.cursor_offset(), 4);
    b.handle_key(KeyInput { code: Key::Char('b'), mods: Modifier::Alt });
    assert_eq!(b.cursor_offset(), 7);
}

#[test]
fn clear_keeps_baseline() {
    let mut b = buf("keep");
    b.clear();
    assert_eq!(text(&b), "");
    b.cancel();
    assert_eq!(text(&b), "keep");
}
