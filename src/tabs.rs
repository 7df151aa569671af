use vstd::prelude::*;
use crate::event::Event;
use crate::daily::DailyView;
use crate::monthly::MonthlyView;
use crate::view::{AppState, FocusStatus, Focusable, FocusableView, View, ViewError};

verus! {

/// One of the calendar's views, so that a tab group can hold them together.
pub enum CalendarView {
    Daily(DailyView),
    Monthly(MonthlyView),
}

impl View for CalendarView {
    open spec fn inv(&self) -> bool {
        match self {
            CalendarView::Daily(p) => p.inv(),
            CalendarView::Monthly(p) => p.inv(),
        }
    }

    open spec fn focused(&self) -> bool {
        match self {
            CalendarView::Daily(p) => p.focused(),
            CalendarView::Monthly(p) => p.focused(),
        }
    }

    fn handle_event(&mut self, e: &Event, state: &mut AppState) -> (r: Result<(), ViewError>) {
        match self {
            CalendarView::Daily(p) => p.handle_event(e, state),
            CalendarView::Monthly(p) => p.handle_event(e, state),
        }
    }

    open spec fn updated(old: Self, new: Self) -> bool {
        match (old, new) {
            (CalendarView::Daily(a), CalendarView::Daily(b)) => DailyView::updated(a, b),
            (CalendarView::Monthly(a), CalendarView::Monthly(b)) => MonthlyView::updated(a, b),
            _ => false,
        }
    }

    fn update(&mut self) {
        match self {
            CalendarView::Daily(p) => p.update(),
            CalendarView::Monthly(p) => p.update(),
        }
    }
}

impl Focusable for CalendarView {
    open spec fn refocused(old: Self, new: Self, f: bool) -> bool {
        match (old, new) {
            (CalendarView::Daily(a), CalendarView::Daily(b)) => DailyView::refocused(a, b, f),
            (CalendarView::Monthly(a), CalendarView::Monthly(b)) => MonthlyView::refocused(a, b, f),
            _ => false,
        }
    }

    fn focus(&mut self) {
        match self {
            CalendarView::Daily(p) => p.focus(),
            CalendarView::Monthly(p) => p.focus(),
        }
    }

    fn unfocus(&mut self) {
        match self {
            CalendarView::Daily(p) => p.unfocus(),
            CalendarView::Monthly(p) => p.unfocus(),
        }
    }

    fn toggle_focus(&mut self) {
        match self {
            CalendarView::Daily(p) => p.toggle_focus(),
            CalendarView::Monthly(p) => p.toggle_focus(),
        }
    }
}

impl FocusStatus for CalendarView {
    fn is_focused(&self) -> (r: bool) {
        match self {
            CalendarView::Daily(p) => p.is_focused(),
            CalendarView::Monthly(p) => p.is_focused(),
        }
    }
}

impl FocusableView for CalendarView {
    open spec fn gated(
        old: Self,
        e: Event,
        st: AppState,
        new: Self,
        new_st: AppState,
        r: Result<(), ViewError>,
    ) -> bool {
        match (old, new) {
            (CalendarView::Daily(a), CalendarView::Daily(b)) => DailyView::gated(a, e, st, b, new_st, r),
            (CalendarView::Monthly(a), CalendarView::Monthly(b)) => MonthlyView::gated(a, e, st, b, new_st, r),
            _ => false,
        }
    }

    fn handle_event_if_focused(&mut self, e: &Event, state: &mut AppState) -> (r: Result<
        (),
        ViewError,
    >) {
        match self {
            CalendarView::Daily(p) => p.handle_event_if_focused(e, state),
            CalendarView::Monthly(p) => p.handle_event_if_focused(e, state),
        }
    }
}

} // verus!
