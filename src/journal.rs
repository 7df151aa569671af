use vstd::prelude::*;
use crate::event::Event;
use crate::view::{AppState, FocusStatus, Focusable, FocusableView, View, ViewError};

verus! {

/// The journal side panel: a leaf that takes no keys of its own.
pub struct Journal {
    focused: bool,
}

impl Journal {
    /// An unfocused journal panel.
    pub fn new() -> (r: Journal)
        ensures
            r.inv(),
            !r.focused(),
    {
        Journal { focused: false }
    }
}

impl View for Journal {
    closed spec fn inv(&self) -> bool {
        true
    }

    closed spec fn focused(&self) -> bool {
        self.focused
    }

    fn handle_event(&mut self, e: &Event, state: &mut AppState) -> (r: Result<(), ViewError>)
        ensures
            r.is_ok(),
            *final(self) == *old(self),
            *final(state) == *old(state),
    {
        Ok(())
    }

    open spec fn updated(old: Self, new: Self) -> bool {
        new == old
    }

    fn update(&mut self) {
    }
}

impl Focusable for Journal {
    /// The flag is all there is.
    open spec fn refocused(old: Self, new: Self, f: bool) -> bool {
        new.focused() == f
    }

    fn focus(&mut self) {
        self.focused = true;
    }

    fn unfocus(&mut self) {
        self.focused = false;
    }

    fn toggle_focus(&mut self) {
        self.focused = !self.focused;
    }
}

impl FocusStatus for Journal {
    fn is_focused(&self) -> (r: bool) {
        self.focused
    }
}

impl FocusableView for Journal {
    /// The node takes no keys.
    open spec fn gated(
        old: Self,
        e: Event,
        st: AppState,
        new: Self,
        new_st: AppState,
        r: Result<(), ViewError>,
    ) -> bool {
        new == old && new_st == st && r.is_ok()
    }

    fn handle_event_if_focused(&mut self, e: &Event, state: &mut AppState) -> (r: Result<
        (),
        ViewError,
    >) {
        if self.focused {
            self.handle_event(e, state)
        } else {
            Ok(())
        }
    }
}

} // verus!
