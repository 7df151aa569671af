use vstd::prelude::*;
use crate::event::{Event, KeyCode, KeyEvent, KeyEventKind};
use crate::view::{
    AppState, FocusStatus, Focusable, FocusableView, Rect, Resettable, View, ViewError,
    ViewWithCursorControl,
};
use vstd::view::View as _;

verus! {

/// The text and caret index after the key event `k` on a field holding
/// `text` with the caret at `cur`.
pub open spec fn edited(text: Seq<char>, cur: int, k: KeyEvent) -> (Seq<char>, int) {
    if k.kind != KeyEventKind::Press {
        (text, cur)
    } else {
        match k.code {
            KeyCode::Char(c) => if k.ctrl || text.len() + 2 >= usize::MAX {
                (text, cur)
            } else {
                (text.insert(cur, c), cur + 1)
            },
            KeyCode::Backspace => if cur > 0 {
                (text.remove(cur - 1), cur - 1)
            } else {
                (text, cur)
            },
            KeyCode::Left => if cur > 0 {
                (text, cur - 1)
            } else {
                (text, cur)
            },
            KeyCode::Right => if cur < text.len() {
                (text, cur + 1)
            } else {
                (text, cur)
            },
            KeyCode::Home => (text, 0),
            KeyCode::End => (text, text.len() as int),
            _ => (text, cur),
        }
    }
}

/// The caret of a field painted into `area` with the caret at index `cur`:
/// inside the border, `cur` cells from the left; none where that leaves
/// the coordinate space.
pub open spec fn field_caret(area: Rect, cur: int) -> Option<(u16, u16)> {
    let x = area.x + cur + 1;
    let y = area.y + 1;
    if x <= u16::MAX && y <= u16::MAX {
        Some((x as u16, y as u16))
    } else {
        None
    }
}

/// A one-line text field with a caret. It starts focused and empty.
pub struct UserInput {
    title: String,
    input: Vec<char>,
    cursor_position: usize,
    focused: bool,
}

/// Relies on std's `FromIterator<char>` for `String`: the characters, in order.
#[verifier::external_body]
fn string_of(chars: &Vec<char>) -> (r: String)
    ensures
        r@ == chars@,
{
    chars.iter().collect()
}

impl UserInput {
    pub closed spec fn text(&self) -> Seq<char> {
        self.input@
    }

    pub closed spec fn caret_index(&self) -> int {
        self.cursor_position as int
    }

    pub closed spec fn title_text(&self) -> Seq<char> {
        self.title@
    }

    /// An empty, focused field titled `title`.
    pub fn new(title: &str) -> (r: UserInput)
        ensures
            r.inv(),
            r.focused(),
            r.text() == Seq::<char>::empty(),
            r.caret_index() == 0,
            r.title_text() == title@,
    {
        UserInput { title: title.to_owned(), input: Vec::new(), cursor_position: 0, focused: true }
    }

    /// What the field holds.
    pub fn content(&self) -> (r: String)
        ensures
            r@ == self.text(),
    {
        string_of(&self.input)
    }

    pub fn title(&self) -> (r: &str)
        ensures
            r@ == self.title_text(),
    {
        self.title.as_str()
    }

    /// The caret's index in the text.
    pub fn cursor(&self) -> (r: usize)
        ensures
            r == self.caret_index(),
    {
        self.cursor_position
    }

    fn handle_key(&mut self, k: &KeyEvent)
        requires
            old(self).inv(),
        ensures
            final(self).inv(),
            final(self).focused == old(self).focused,
            final(self).title == old(self).title,
            (final(self).text(), final(self).caret_index()) == edited(
                old(self).text(),
                old(self).caret_index(),
                *k,
            ),
    {
        if k.kind != KeyEventKind::Press {
            return ;
        }
        match k.code {
            KeyCode::Char(c) => {
                if !k.ctrl && self.input.len() < usize::MAX - 2 {
                    self.input.insert(self.cursor_position, c);
                    self.cursor_position = self.cursor_position + 1;
                }
            },
            KeyCode::Backspace => {
                if self.cursor_position > 0 {
                    self.cursor_position = self.cursor_position - 1;
                    self.input.remove(self.cursor_position);
                }
            },
            KeyCode::Left => {
                if self.cursor_position > 0 {
                    self.cursor_position = self.cursor_position - 1;
                }
            },
            KeyCode::Right => {
                if self.cursor_position < self.input.len() {
                    self.cursor_position = self.cursor_position + 1;
                }
            },
            KeyCode::Home => {
                self.cursor_position = 0;
            },
            KeyCode::End => {
                self.cursor_position = self.input.len();
            },
            _ => {},
        }
    }
}

impl View for UserInput {
    closed spec fn inv(&self) -> bool {
        &&& self.cursor_position <= self.input@.len()
        &&& self.input@.len() < usize::MAX - 1
    }

    closed spec fn focused(&self) -> bool {
        self.focused
    }

    /// Edits the text: characters go in at the caret (not with control
    /// held), backspace deletes before it, arrows, home and end move it.
    fn handle_event(&mut self, e: &Event, state: &mut AppState) -> (r: Result<(), ViewError>)
        ensures
            r.is_ok(),
            *final(state) == *old(state),
            final(self).title_text() == old(self).title_text(),
            *e matches Event::Key(k) ==> (final(self).text(), final(self).caret_index()) == edited(
                old(self).text(),
                old(self).caret_index(),
                k,
            ),
            *e == Event::Other ==> *final(self) == *old(self),
    {
        if let Event::Key(k) = e {
            self.handle_key(k);
        }
        Ok(())
    }

    open spec fn updated(old: Self, new: Self) -> bool {
        new == old
    }

    fn update(&mut self) {
    }
}

impl Focusable for UserInput {
    /// Text, caret and title stay.
    open spec fn refocused(old: Self, new: Self, f: bool) -> bool {
        &&& new.text() == old.text()
        &&& new.caret_index() == old.caret_index()
        &&& new.title_text() == old.title_text()
        &&& new.focused() == f
    }

    fn focus(&mut self) {
        self.focused = true;
    }

    fn unfocus(&mut self) {
        self.focused = false;
    }

    fn toggle_focus(&mut self) {
        self.focused = !self.focused;
    }
}

impl FocusStatus for UserInput {
    fn is_focused(&self) -> (r: bool) {
        self.focused
    }
}

impl FocusableView for UserInput {
    /// While focused, a key event edits the text; nothing else changes.
    open spec fn gated(
        old: Self,
        e: Event,
        st: AppState,
        new: Self,
        new_st: AppState,
        r: Result<(), ViewError>,
    ) -> bool {
        &&& new_st == st
        &&& r.is_ok()
        &&& new.title_text() == old.title_text()
        &&& new.focused() == old.focused()
        &&& old.focused() && e is Key ==> (new.text(), new.caret_index()) == edited(
            old.text(),
            old.caret_index(),
            e->Key_0,
        )
        &&& !(old.focused() && e is Key) ==> new == old
    }

    fn handle_event_if_focused(&mut self, e: &Event, state: &mut AppState) -> (r: Result<
        (),
        ViewError,
    >) {
        if self.focused {
            self.handle_event(e, state)
        } else {
            Ok(())
        }
    }
}

impl ViewWithCursorControl for UserInput {
    /// While focused, the caret sits inside the border at the caret index.
    closed spec fn caret(&self, area: Rect) -> Option<(u16, u16)> {
        if self.focused {
            field_caret(area, self.cursor_position as int)
        } else {
            None
        }
    }

    fn cursor_position(&self, area: Rect) -> (r: Option<(u16, u16)>)
        ensures
            r == (if self.focused() {
                field_caret(area, self.caret_index())
            } else {
                None
            }),
    {
        if !self.focused {
            return None;
        }
        if self.cursor_position >= u16::MAX as usize {
            return None;
        }
        let x = area.x as u32 + self.cursor_position as u32 + 1;
        let y = area.y as u32 + 1;
        if x <= u16::MAX as u32 && y <= u16::MAX as u32 {
            Some((x as u16, y as u16))
        } else {
            None
        }
    }
}

impl Resettable for UserInput {
    open spec fn can_reset(&self) -> bool {
        true
    }

    /// The field is empty, the caret at its start.
    open spec fn reset_done(old: Self, new: Self) -> bool {
        &&& new.text() == Seq::<char>::empty()
        &&& new.caret_index() == 0
        &&& new.title_text() == old.title_text()
        &&& new.focused() == old.focused()
    }

    /// Empties the field.
    fn reset(&mut self) -> (r: Result<(), ViewError>) {
        self.input = Vec::new();
        self.cursor_position = 0;
        Ok(())
    }
}

} // verus!
