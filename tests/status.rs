use taskrs::event::{AppStatus, Event, KeyCode, KeyEvent, KeyEventKind};

#[test]
fn quit_key_ends_the_run() {
    let q = Event::key_press(KeyCode::Char('q'));
    assert_eq!(AppStatus::Running.after(&q), AppStatus::Exiting);
    assert_eq!(AppStatus::Running.after(&Event::key_press(KeyCode::Char('w'))), AppStatus::Running);
    assert_eq!(AppStatus::Exiting.after(&Event::Other), AppStatus::Exiting);
    let release = Event::Key(KeyEvent { code: KeyCode::Char('q'), kind: KeyEventKind::Release, ctrl: false });
    assert_eq!(AppStatus::Running.after(&release), AppStatus::Running);
}

#[test]
fn pressed_key_reads_presses_only() {
    assert_eq!(Event::key_press(KeyCode::Enter).pressed_key(), Some(KeyCode::Enter));
    let repeat = Event::Key(KeyEvent { code: KeyCode::Enter, kind: KeyEventKind::Repeat, ctrl: false });
    assert_eq!(repeat.pressed_key(), None);
    assert_eq!(Event::Other.pressed_key(), None);
}
