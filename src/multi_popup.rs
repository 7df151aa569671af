use vstd::prelude::*;
use crate::event::Event;
use crate::ics_popup::IcsPopupContent;
use crate::popup::Popup;
use crate::tmp_popup::TmpPopupContent;
use crate::view::{
    AppState, FocusStatus, Focusable, FocusableView, Rect, Resettable, View, ViewError,
    ViewWithCursorControl,
};

verus! {

/// One of the application's popups, so that a host can hold them together.
pub enum MultiPopup {
    Ics(Popup<IcsPopupContent>),
    Tmp(Popup<TmpPopupContent>),
}

impl View for MultiPopup {
    open spec fn inv(&self) -> bool {
        match self {
            MultiPopup::Ics(p) => p.inv(),
            MultiPopup::Tmp(p) => p.inv(),
        }
    }

    open spec fn focused(&self) -> bool {
        match self {
            MultiPopup::Ics(p) => p.focused(),
            MultiPopup::Tmp(p) => p.focused(),
        }
    }

    fn handle_event(&mut self, e: &Event, state: &mut AppState) -> (r: Result<(), ViewError>) {
        match self {
            MultiPopup::Ics(p) => p.handle_event(e, state),
            MultiPopup::Tmp(p) => p.handle_event(e, state),
        }
    }

    open spec fn updated(old: Self, new: Self) -> bool {
        match (old, new) {
            (MultiPopup::Ics(a), MultiPopup::Ics(b)) => Popup::<IcsPopupContent>::updated(a, b),
            (MultiPopup::Tmp(a), MultiPopup::Tmp(b)) => Popup::<TmpPopupContent>::updated(a, b),
            _ => false,
        }
    }

    fn update(&mut self) {
        match self {
            MultiPopup::Ics(p) => p.update(),
            MultiPopup::Tmp(p) => p.update(),
        }
    }
}

impl Focusable for MultiPopup {
    open spec fn refocused(old: Self, new: Self, f: bool) -> bool {
        match (old, new) {
            (MultiPopup::Ics(a), MultiPopup::Ics(b)) => Popup::<IcsPopupContent>::refocused(a, b, f),
            (MultiPopup::Tmp(a), MultiPopup::Tmp(b)) => Popup::<TmpPopupContent>::refocused(a, b, f),
            _ => false,
        }
    }

    fn focus(&mut self) {
        match self {
            MultiPopup::Ics(p) => p.focus(),
            MultiPopup::Tmp(p) => p.focus(),
        }
    }

    fn unfocus(&mut self) {
        match self {
            MultiPopup::Ics(p) => p.unfocus(),
            MultiPopup::Tmp(p) => p.unfocus(),
        }
    }

    fn toggle_focus(&mut self) {
        match self {
            MultiPopup::Ics(p) => p.toggle_focus(),
            MultiPopup::Tmp(p) => p.toggle_focus(),
        }
    }
}

impl FocusStatus for MultiPopup {
    fn is_focused(&self) -> (r: bool) {
        match self {
            MultiPopup::Ics(p) => p.is_focused(),
            MultiPopup::Tmp(p) => p.is_focused(),
        }
    }
}

impl FocusableView for MultiPopup {
    open spec fn gated(
        old: Self,
        e: Event,
        st: AppState,
        new: Self,
        new_st: AppState,
        r: Result<(), ViewError>,
    ) -> bool {
        match (old, new) {
            (MultiPopup::Ics(a), MultiPopup::Ics(b)) => Popup::<IcsPopupContent>::gated(a, e, st, b, new_st, r),
            (MultiPopup::Tmp(a), MultiPopup::Tmp(b)) => Popup::<TmpPopupContent>::gated(a, e, st, b, new_st, r),
            _ => false,
        }
    }

    fn handle_event_if_focused(&mut self, e: &Event, state: &mut AppState) -> (r: Result<
        (),
        ViewError,
    >) {
        match self {
            MultiPopup::Ics(p) => p.handle_event_if_focused(e, state),
            MultiPopup::Tmp(p) => p.handle_event_if_focused(e, state),
        }
    }
}

impl ViewWithCursorControl for MultiPopup {
    open spec fn caret(&self, area: Rect) -> Option<(u16, u16)> {
        match self {
            MultiPopup::Ics(p) => p.caret(area),
            MultiPopup::Tmp(p) => p.caret(area),
        }
    }

    fn cursor_position(&self, area: Rect) -> (r: Option<(u16, u16)>) {
        match self {
            MultiPopup::Ics(p) => p.cursor_position(area),
            MultiPopup::Tmp(p) => p.cursor_position(area),
        }
    }
}

impl Resettable for MultiPopup {
    open spec fn can_reset(&self) -> bool {
        match self {
            MultiPopup::Ics(p) => p.can_reset(),
            MultiPopup::Tmp(p) => p.can_reset(),
        }
    }

    open spec fn reset_done(old: Self, new: Self) -> bool {
        match (old, new) {
            (MultiPopup::Ics(a), MultiPopup::Ics(b)) => Popup::<IcsPopupContent>::reset_done(a, b),
            (MultiPopup::Tmp(a), MultiPopup::Tmp(b)) => Popup::<TmpPopupContent>::reset_done(a, b),
            _ => false,
        }
    }

    fn reset(&mut self) -> (r: Result<(), ViewError>) {
        match self {
            MultiPopup::Ics(p) => p.reset(),
            MultiPopup::Tmp(p) => p.reset(),
        }
    }
}

} // verus!
