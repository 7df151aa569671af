use vstd::prelude::*;

verus! {

/// How far an event is confirmed.
#[derive(Clone, Copy, Debug, PartialEq, Eq, Structural)]
pub enum EventStatus {
    Confirmed,
    Cancelled,
    Tentative,
    Unknown,
}

/// One calendar event; instants are seconds since the Unix epoch, in UTC.
pub struct CalendarEvent {
    pub uid: String,
    pub summary: Option<String>,
    pub description: Option<String>,
    pub location: Option<String>,
    pub start: i64,
    pub end: i64,
    pub status: EventStatus,
}

/// A named, ordered list of events.
pub struct Calendar {
    pub name: String,
    pub events: Vec<CalendarEvent>,
}

} // verus!
