//! A focus-routed widget tree for a terminal calendar: key events, view
//! capabilities, composites (tab switcher, two-pane layout, popups and the
//! popup host), leaf views, the month-grid cursor, and the assembly of
//! imported iCalendar events.
pub mod event;
pub mod view;
pub mod calendar;
pub mod cursor;
pub mod view_switcher;
pub mod layout;
pub mod input;
pub mod popup;
pub mod popup_host;
pub mod utils;
pub mod daily;
pub mod journal;
pub mod monthly;
pub mod ics_popup;
pub mod tmp_popup;
pub mod multi_popup;
pub mod tabs;
pub mod gcal;
pub mod ics;
