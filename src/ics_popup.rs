use vstd::prelude::*;
use crate::event::{Event, KeyCode};
use crate::input::UserInput;
use crate::popup::Popup;
use crate::view::{
    AppState, FocusStatus, Focusable, FocusableView, Rect, Resettable, View, ViewError,
    ViewWithCursorControl,
};
use vstd::view::View as _;

verus! {

/// The content of the import dialog: a path field. Enter stages what the
/// field holds in the shared state.
pub struct IcsPopupContent {
    input: UserInput,
}

impl IcsPopupContent {
    pub closed spec fn field(&self) -> UserInput {
        self.input
    }

    /// An empty, unfocused path field.
    pub fn new() -> (r: IcsPopupContent)
        ensures
            r.inv(),
            !r.focused(),
            r.field().text() == Seq::<char>::empty(),
    {
        let mut input = UserInput::new("");
        input.unfocus();
        IcsPopupContent { input }
    }

    pub fn input(&self) -> (r: &UserInput)
        ensures
            *r == self.field(),
    {
        &self.input
    }
}

impl View for IcsPopupContent {
    closed spec fn inv(&self) -> bool {
        self.input.inv()
    }

    closed spec fn focused(&self) -> bool {
        self.input.focused()
    }

    /// Enter stages the field's text; the field itself is left as it is.
    fn handle_event(&mut self, e: &Event, state: &mut AppState) -> (r: Result<(), ViewError>)
        ensures
            r.is_ok(),
            *final(self) == *old(self),
            final(state).calendar == old(state).calendar,
            is_enter(*e) ==> final(state).tmp is Some && final(state).tmp.unwrap()@ == old(
                self).field().text(),
            !is_enter(*e) ==> *final(state) == *old(state),
    {
        if let Event::Key(k) = e {
            if let KeyCode::Enter = k.code {
                state.tmp = Some(self.input.content());
            }
        }
        Ok(())
    }

    open spec fn updated(old: Self, new: Self) -> bool {
        UserInput::updated(old.field(), new.field())
    }

    fn update(&mut self) {
        self.input.update();
    }
}

impl Focusable for IcsPopupContent {
    open spec fn refocused(old: Self, new: Self, f: bool) -> bool {
        UserInput::refocused(old.field(), new.field(), f)
    }

    fn focus(&mut self) {
        self.input.focus();
    }

    fn unfocus(&mut self) {
        self.input.unfocus();
    }

    fn toggle_focus(&mut self) {
        self.input.toggle_focus();
    }
}

impl FocusStatus for IcsPopupContent {
    fn is_focused(&self) -> (r: bool) {
        self.input.is_focused()
    }
}

/// Whether `e` is a key event of Enter (of any kind).
pub open spec fn is_enter(e: Event) -> bool {
    e matches Event::Key(k) && k.code == KeyCode::Enter
}

impl FocusableView for IcsPopupContent {
    /// While the field is focused, Enter stages its text and every key event
    /// edits it; other events leave the state as it was.
    open spec fn gated(
        old: Self,
        e: Event,
        st: AppState,
        new: Self,
        new_st: AppState,
        r: Result<(), ViewError>,
    ) -> bool {
        &&& old.focused() ==> {
            &&& is_enter(e) ==> new_st.tmp is Some && new_st.tmp.unwrap()@ == old.field().text()
                && new_st.calendar == st.calendar
            &&& !is_enter(e) ==> new_st == st
            &&& UserInput::gated(old.field(), e, new_st, new.field(), new_st, r)
        }
        &&& !old.focused() ==> new == old && new_st == st && r.is_ok()
    }

    /// While the field is focused: Enter stages the text, then the field
    /// edits itself.
    fn handle_event_if_focused(&mut self, e: &Event, state: &mut AppState) -> (r: Result<
        (),
        ViewError,
    >) {
        if self.input.is_focused() {
            self.handle_event(e, state)?;
        }
        self.input.handle_event_if_focused(e, state)
    }
}

impl ViewWithCursorControl for IcsPopupContent {
    closed spec fn caret(&self, area: Rect) -> Option<(u16, u16)> {
        self.input.caret(area)
    }

    fn cursor_position(&self, area: Rect) -> (r: Option<(u16, u16)>) {
        self.input.cursor_position(area)
    }
}

impl Resettable for IcsPopupContent {
    open spec fn can_reset(&self) -> bool {
        true
    }

    /// The field is emptied.
    open spec fn reset_done(old: Self, new: Self) -> bool {
        UserInput::reset_done(old.field(), new.field())
    }

    /// Empties the field.
    fn reset(&mut self) -> (r: Result<(), ViewError>) {
        self.input.reset()
    }
}

/// The import dialog: a closed popup around a path field.
pub fn new_ics_popup() -> (r: Popup<IcsPopupContent>)
    ensures
        r.inv(),
        !r.focused(),
        r.title_text() == "Your .ics file"@,
{
    Popup::new("Your .ics file", IcsPopupContent::new(), None, None)
}

} // verus!
