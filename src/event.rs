use vstd::prelude::*;

verus! {

/// The logical key of a key event.
#[derive(Clone, Copy, Debug, PartialEq, Eq, Structural)]
pub enum KeyCode {
    Char(char),
    Enter,
    Esc,
    Backspace,
    Left,
    Right,
    Up,
    Down,
    Home,
    End,
    /// Any key the widgets do not react to.
    Other,
}

/// Whether a key went down, is held, or went up.
#[derive(Clone, Copy, Debug, PartialEq, Eq, Structural)]
pub enum KeyEventKind {
    Press,
    Repeat,
    Release,
}

/// One key event with the only modifier the widgets read.
#[derive(Clone, Copy, Debug, PartialEq, Eq, Structural)]
pub struct KeyEvent {
    pub code: KeyCode,
    pub kind: KeyEventKind,
    pub ctrl: bool,
}

/// An input event as the widget tree sees it.
#[derive(Clone, Copy, Debug, PartialEq, Eq, Structural)]
pub enum Event {
    Key(KeyEvent),
    /// Anything that is not a key event (resize, mouse, focus of the terminal).
    Other,
}

/// The key of a press event; `None` for releases, repeats and non-key events.
pub open spec fn pressed(e: Event) -> Option<KeyCode> {
    match e {
        Event::Key(k) => if k.kind == KeyEventKind::Press {
            Some(k.code)
        } else {
            None
        },
        Event::Other => None,
    }
}

/// Whether `e` is a press of `code`.
pub open spec fn is_press_of(e: Event, code: KeyCode) -> bool {
    pressed(e) == Some(code)
}

impl KeyEvent {
    /// A press of `code` without modifiers.
    pub fn press(code: KeyCode) -> (r: KeyEvent)
        ensures
            r.code == code,
            r.kind == KeyEventKind::Press,
            !r.ctrl,
    {
        KeyEvent { code, kind: KeyEventKind::Press, ctrl: false }
    }
}

impl Event {
    /// A key press event of `code` without modifiers.
    pub fn key_press(code: KeyCode) -> (r: Event)
        ensures
            pressed(r) == Some(code),
            r == Event::Key(KeyEvent { code, kind: KeyEventKind::Press, ctrl: false }),
    {
        Event::Key(KeyEvent::press(code))
    }

    /// The key of a press event, if this is one.
    pub fn pressed_key(&self) -> (r: Option<KeyCode>)
        ensures
            r == pressed(*self),
    {
        match self {
            Event::Key(k) => match k.kind {
                KeyEventKind::Press => Some(k.code),
                _ => None,
            },
            Event::Other => None,
        }
    }
}

/// Whether the application keeps running.
#[derive(Clone, Copy, Debug, PartialEq, Eq, Structural)]
pub enum AppStatus {
    Running,
    Exiting,
}

/// The key that ends the application.
pub const QUIT_KEY: char = 'q';

impl AppStatus {
    /// The status after `e`: a press of the quit key ends the run, and an
    /// ended run stays ended.
    pub fn after(self, e: &Event) -> (r: AppStatus)
        ensures
            r == (if self == AppStatus::Exiting || pressed(*e) == Some(KeyCode::Char(QUIT_KEY)) {
                AppStatus::Exiting
            } else {
                AppStatus::Running
            }),
    {
        match self {
            AppStatus::Exiting => AppStatus::Exiting,
            AppStatus::Running => match e.pressed_key() {
                Some(KeyCode::Char(c)) => if c == QUIT_KEY {
                    AppStatus::Exiting
                } else {
                    AppStatus::Running
                },
                _ => AppStatus::Running,
            },
        }
    }
}

} // verus!
