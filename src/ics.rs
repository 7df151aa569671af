use vstd::prelude::*;
use icalendar::Calendar as IcsCalendar;
use icalendar::CalendarComponent;
use crate::gcal::ImportError;
use vstd::view::View as _;

verus! {

#[verifier::external_type_specification]
#[verifier::external_body]
pub struct ExIcsCalendar(IcsCalendar);

#[verifier::external_type_specification]
#[verifier::external_body]
pub struct ExCalendarComponent(CalendarComponent);

/// Whether the icalendar crate reads `s` as a calendar.
pub uninterp spec fn ics_readable(s: Seq<char>) -> bool;

/// Relies on icalendar's `parser::read_calendar` and its conversion into an
/// owned calendar; on failure, the reader's message.
#[verifier::external_body]
fn read_calendar(contents: &str) -> (r: Result<IcsCalendar, String>)
    ensures
        r is Ok == ics_readable(contents@),
{
    match icalendar::parser::read_calendar(contents) {
        Ok(v) => Ok(v.into()),
        Err(e) => Err(e),
    }
}

/// Reads iCalendar text with the icalendar crate; a failure comes back as
/// `ImportError::Parse` with the reader's message.
pub fn parse_gcal(contents: &str) -> (r: Result<IcsCalendar, ImportError>)
    ensures
        r is Ok == ics_readable(contents@),
        r matches Err(e) ==> e is Parse,
{
    match read_calendar(contents) {
        Ok(c) => Ok(c),
        Err(m) => Err(ImportError::Parse(m)),
    }
}

} // verus!
