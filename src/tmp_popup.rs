use vstd::prelude::*;
use crate::event::Event;
use crate::popup::Popup;
use crate::view::{
    AppState, FocusStatus, Focusable, FocusableView, Rect, Resettable, View, ViewError,
    ViewWithCursorControl,
};
use vstd::view::View as _;

verus! {

/// The content of a popup that shows the staged value. It takes no keys.
pub struct TmpPopupContent {
    f: bool,
}

/// What the staged-value popup shows: the staged text, or "none".
pub open spec fn staged_label(state: AppState) -> Seq<char> {
    match state.tmp {
        Some(s) => s@,
        None => "none"@,
    }
}

impl TmpPopupContent {
    /// An unfocused viewer.
    pub fn new() -> (r: TmpPopupContent)
        ensures
            r.inv(),
            !r.focused(),
    {
        TmpPopupContent { f: false }
    }

    /// The text to show for `state`.
    pub fn label<'a>(&self, state: &'a AppState) -> (r: &'a str)
        ensures
            r@ == staged_label(*state),
    {
        match &state.tmp {
            Some(s) => s.as_str(),
            None => {
                proof {
                    reveal_strlit("none");
                }
                "none"
            },
        }
    }
}

impl View for TmpPopupContent {
    closed spec fn inv(&self) -> bool {
        true
    }

    closed spec fn focused(&self) -> bool {
        self.f
    }

    fn handle_event(&mut self, e: &Event, state: &mut AppState) -> (r: Result<(), ViewError>)
        ensures
            r.is_ok(),
            *final(self) == *old(self),
            *final(state) == *old(state),
    {
        Ok(())
    }

    open spec fn updated(old: Self, new: Self) -> bool {
        new == old
    }

    fn update(&mut self) {
    }
}

impl Focusable for TmpPopupContent {
    /// The flag is all there is.
    open spec fn refocused(old: Self, new: Self, f: bool) -> bool {
        new.focused() == f
    }

    fn focus(&mut self) {
        self.f = true;
    }

    fn unfocus(&mut self) {
        self.f = false;
    }

    fn toggle_focus(&mut self) {
        self.f = !self.f;
    }
}

impl FocusStatus for TmpPopupContent {
    fn is_focused(&self) -> (r: bool) {
        self.f
    }
}

impl FocusableView for TmpPopupContent {
    /// The node takes no keys.
    open spec fn gated(
        old: Self,
        e: Event,
        st: AppState,
        new: Self,
        new_st: AppState,
        r: Result<(), ViewError>,
    ) -> bool {
        new == old && new_st == st && r.is_ok()
    }

    fn handle_event_if_focused(&mut self, e: &Event, state: &mut AppState) -> (r: Result<
        (),
        ViewError,
    >)
        ensures
            *final(self) == *old(self),
            *final(state) == *old(state),
    {
        Ok(())
    }
}

impl ViewWithCursorControl for TmpPopupContent {
    /// The viewer wants no caret.
    closed spec fn caret(&self, area: Rect) -> Option<(u16, u16)> {
        None
    }

    fn cursor_position(&self, area: Rect) -> (r: Option<(u16, u16)>)
        ensures
            r is None,
    {
        None
    }
}

impl Resettable for TmpPopupContent {
    open spec fn can_reset(&self) -> bool {
        true
    }

    open spec fn reset_done(old: Self, new: Self) -> bool {
        new == old
    }

    fn reset(&mut self) -> (r: Result<(), ViewError>)
        ensures
            r.is_ok(),
            *final(self) == *old(self),
    {
        Ok(())
    }
}

/// A closed popup showing the staged value.
pub fn new_tmp_popup() -> (r: Popup<TmpPopupContent>)
    ensures
        r.inv(),
        !r.focused(),
{
    Popup::new("Your .ics file", TmpPopupContent::new(), None, None)
}

} // verus!
