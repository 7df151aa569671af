use taskrs::event::{Event, KeyCode, KeyEvent, KeyEventKind};
use taskrs::input::UserInput;
use taskrs::view::{AppState, FocusStatus, Focusable, FocusableView, Rect, Resettable, ViewWithCursorControl};

fn key(code: KeyCode) -> Event {
    Event::key_press(code)
}

fn typed(s: &str) -> (UserInput, AppState) {
    let mut st = AppState::new();
    let mut u = UserInput::new("path");
    for c in s.chars() {
        u.handle_event_if_focused(&key(KeyCode::Char(c)), &mut st).unwrap();
    }
    (u, st)
}

#[test]
fn new_field_is_empty_and_focused() {
    let u = UserInput::new("title");
    assert_eq!(u.content(), "");
    assert!(u.is_focused());
    assert_eq!(u.title(), "title");
    assert_eq!(u.cursor(), 0);
}

#[test]
fn typing_inserts_at_caret() {
    let (mut u, mut st) = typed("abc");
    assert_eq!(u.content(), "abc");
    u.handle_event_if_focused(&key(KeyCode::Left), &mut st).unwrap();
    u.handle_event_if_focused(&key(KeyCode::Char('x')), &mut st).unwrap();
    assert_eq!(u.content(), "abxc");
    assert_eq!(u.cursor(), 3);
}

#[test]
fn backspace_home_end() {
    let (mut u, mut st) = typed("abcd");
    u.handle_event_if_focused(&key(KeyCode::Backspace), &mut st).unwrap();
    assert_eq!(u.content(), "abc");
    u.handle_event_if_focused(&key(KeyCode::Home), &mut st).unwrap();
    u.handle_event_if_focused(&key(KeyCode::Backspace), &mut st).unwrap();
    assert_eq!(u.content(), "abc");
    u.handle_event_if_focused(&key(KeyCode::Right), &mut st).unwrap();
    u.handle_event_if_focused(&key(KeyCode::Backspace), &mut st).unwrap();
    assert_eq!(u.content(), "bc");
    u.handle_event_if_focused(&key(KeyCode::End), &mut st).unwrap();
    assert_eq!(u.cursor(), 2);
    u.handle_event_if_focused(&key(KeyCode::Right), &mut st).unwrap();
    assert_eq!(u.cursor(), 2);
}

#[test]
fn control_chars_and_releases_are_ignored() {
    let (mut u, mut st) = typed("a");
    let ctrl = Event::Key(KeyEvent { code: KeyCode::Char('c'), kind: KeyEventKind::Press, ctrl: true });
    let release = Event::Key(KeyEvent { code: KeyCode::Char('d'), kind: KeyEventKind::Release, ctrl: false });
    u.handle_event_if_focused(&ctrl, &mut st).unwrap();
    u.handle_event_if_focused(&release, &mut st).unwrap();
    u.handle_event_if_focused(&Event::Other, &mut st).unwrap();
    assert_eq!(u.content(), "a");
}

#[test]
fn unfocused_field_ignores_keys_and_shows_no_caret() {
    let (mut u, mut st) = typed("a");
    u.unfocus();
    u.handle_event_if_focused(&key(KeyCode::Char('b')), &mut st).unwrap();
    assert_eq!(u.content(), "a");
    assert_eq!(u.cursor_position(Rect::new(0, 0, 10, 3)), None);
}

#[test]
fn caret_sits_inside_the_border() {
    let (u, _) = typed("hey");
    assert_eq!(u.cursor_position(Rect::new(4, 2, 20, 3)), Some((8, 3)));
    assert_eq!(u.cursor_position(Rect::new(u16::MAX - 2, 0, 2, 3)), None);
}

#[test]
fn reset_empties_the_field() {
    let (mut u, _) = typed("old");
    u.reset().unwrap();
    assert_eq!(u.content(), "");
    assert_eq!(u.cursor(), 0);
}

#[test]
fn non_ascii_text_is_kept() {
    let (u, _) = typed("été→");
    assert_eq!(u.content(), "été→");
    assert_eq!(u.cursor(), 4);
}
