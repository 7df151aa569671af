use vstd::prelude::*;
use crate::calendar::{Calendar, CalendarEvent, EventStatus};
use vstd::string::StrSliceExecFns;
use vstd::view::View as _;

verus! {

/// One content line of an event, as an iCalendar reader hands it out.
pub struct Property {
    pub name: String,
    pub value: Option<String>,
}

/// Why an event could not be imported.
#[derive(Debug)]
pub enum ImportError {
    MissingUid,
    /// The event with this UID has no start.
    MissingStart(String),
    /// The event with this UID has no end.
    MissingEnd(String),
    /// This date-time text is in none of the accepted forms.
    BadDateTime(String),
    /// The text is not an iCalendar calendar; the reader's message.
    Parse(String),
}

/// An import error as plain text values.
pub ghost enum ImportFailure {
    MissingUid,
    MissingStart(Seq<char>),
    MissingEnd(Seq<char>),
    BadDateTime(Seq<char>),
    Parse(Seq<char>),
}

/// An imported event as plain values.
pub ghost struct EventModel {
    pub uid: Seq<char>,
    pub summary: Option<Seq<char>>,
    pub description: Option<Seq<char>>,
    pub location: Option<Seq<char>>,
    pub start: int,
    pub end: int,
    pub status: EventStatus,
}

pub open spec fn text_of(o: Option<String>) -> Option<Seq<char>> {
    match o {
        Some(s) => Some(s@),
        None => None,
    }
}

impl ImportError {
    pub open spec fn failure(&self) -> ImportFailure {
        match self {
            ImportError::MissingUid => ImportFailure::MissingUid,
            ImportError::MissingStart(u) => ImportFailure::MissingStart(u@),
            ImportError::MissingEnd(u) => ImportFailure::MissingEnd(u@),
            ImportError::BadDateTime(v) => ImportFailure::BadDateTime(v@),
            ImportError::Parse(m) => ImportFailure::Parse(m@),
        }
    }
}

pub open spec fn event_model(e: CalendarEvent) -> EventModel {
    EventModel {
        uid: e.uid@,
        summary: text_of(e.summary),
        description: text_of(e.description),
        location: text_of(e.location),
        start: e.start as int,
        end: e.end as int,
        status: e.status,
    }
}

/// The value of the last property named `name`, if there is one (a last
/// one without a value gives none).
pub open spec fn field_value(ps: Seq<Property>, name: Seq<char>) -> Option<Seq<char>>
    decreases ps.len(),
{
    if ps.len() == 0 {
        None
    } else if ps.last().name@ == name {
        text_of(ps.last().value)
    } else {
        field_value(ps.drop_last(), name)
    }
}

/// The instant an RFC 3339 date-time names, in seconds since the epoch.
pub uninterp spec fn rfc3339_seconds(s: Seq<char>) -> Option<int>;

/// The instant that `s` names when read with the strftime-style format
/// `fmt`, in seconds since the epoch.
pub uninterp spec fn formatted_seconds(s: Seq<char>, fmt: Seq<char>) -> Option<int>;

/// Relies on chrono's `DateTime::parse_from_rfc3339` and `DateTime::timestamp`.
#[verifier::external_body]
fn rfc3339_instant(s: &str) -> (r: Option<i64>)
    ensures
        r matches Some(t) ==> rfc3339_seconds(s@) == Some(t as int),
        r is None ==> rfc3339_seconds(s@) is None,
{
    match chrono::DateTime::parse_from_rfc3339(s) {
        Ok(dt) => Some(dt.timestamp()),
        Err(_) => None,
    }
}

/// Relies on chrono's `DateTime::parse_from_str` and `DateTime::timestamp`.
#[verifier::external_body]
fn formatted_instant(s: &str, fmt: &str) -> (r: Option<i64>)
    ensures
        r matches Some(t) ==> formatted_seconds(s@, fmt@) == Some(t as int),
        r is None ==> formatted_seconds(s@, fmt@) is None,
{
    match chrono::DateTime::parse_from_str(s, fmt) {
        Ok(dt) => Some(dt.timestamp()),
        Err(_) => None,
    }
}

/// The format of a UTC date-time such as `20250705T130000Z`.
pub open spec fn utc_format() -> Seq<char> {
    "%Y%m%dT%H%M%SZ"@
}

/// The format of a date-time without a zone, such as `20250705T150000`.
pub open spec fn floating_format() -> Seq<char> {
    "%Y%m%dT%H%M%S"@
}

/// The first of the three readings that gives an instant: RFC 3339, then
/// the UTC form, then the form without a zone.
pub open spec fn instant_of(s: Seq<char>) -> Option<int> {
    match rfc3339_seconds(s) {
        Some(t) => Some(t),
        None => match formatted_seconds(s, utc_format()) {
            Some(t) => Some(t),
            None => formatted_seconds(s, floating_format()),
        },
    }
}

/// Reads a date-time in one of the accepted forms.
pub fn parse_datetime(value: &str) -> (r: Result<i64, ImportError>)
    ensures
        r matches Ok(t) ==> instant_of(value@) == Some(t as int),
        r matches Err(e) ==> instant_of(value@) is None && e.failure()
            == ImportFailure::BadDateTime(value@),
{
    if let Some(t) = rfc3339_instant(value) {
        return Ok(t);
    }
    if let Some(t) = formatted_instant(value, "%Y%m%dT%H%M%SZ") {
        return Ok(t);
    }
    match formatted_instant(value, "%Y%m%dT%H%M%S") {
        Some(t) => Ok(t),
        None => Err(ImportError::BadDateTime(value.to_owned())),
    }
}

/// Whether two texts are the same.
pub(crate) fn same_text(a: &str, b: &str) -> (r: bool)
    ensures
        r == (a@ == b@),
{
    let n = a.unicode_len();
    if n != b.unicode_len() {
        return false;
    }
    let mut i: usize = 0;
    while i < n
        invariant
            n == a@.len() == b@.len(),
            i <= n,
            forall|j: int| 0 <= j < i ==> a@[j] == b@[j],
        decreases n - i,
    {
        if a.get_char(i) != b.get_char(i) {
            return false;
        }
        i = i + 1;
    }
    assert(a@ =~= b@);
    true
}

fn copy_text(o: &Option<String>) -> (r: Option<String>)
    ensures
        text_of(r) == text_of(*o),
{
    match o {
        Some(s) => Some(s.clone()),
        None => None,
    }
}

/// The value of the last property named `name`.
pub fn field(ps: &Vec<Property>, name: &str) -> (r: Option<String>)
    ensures
        text_of(r) == field_value(ps@, name@),
{
    let mut cur: Option<String> = None;
    let mut i: usize = 0;
    while i < ps.len()
        invariant
            i <= ps@.len(),
            text_of(cur) == field_value(ps@.subrange(0, i as int), name@),
        decreases ps@.len() - i,
    {
        assert(ps@.subrange(0, i + 1).drop_last() =~= ps@.subrange(0, i as int));
        if same_text(ps[i].name.as_str(), name) {
            cur = copy_text(&ps[i].value);
        }
        i = i + 1;
    }
    assert(ps@.subrange(0, ps@.len() as int) =~= ps@);
    cur
}

/// What importing an event with the properties `ps` gives.
pub open spec fn import_outcome(ps: Seq<Property>) -> Result<EventModel, ImportFailure> {
    match field_value(ps, "UID"@) {
        None => Err(ImportFailure::MissingUid),
        Some(uid) => match field_value(ps, "DTSTART"@) {
            None => Err(ImportFailure::MissingStart(uid)),
            Some(sv) => match instant_of(sv) {
                None => Err(ImportFailure::BadDateTime(sv)),
                Some(start) => match field_value(ps, "DTEND"@) {
                    None => Err(ImportFailure::MissingEnd(uid)),
                    Some(ev) => match instant_of(ev) {
                        None => Err(ImportFailure::BadDateTime(ev)),
                        Some(end) => Ok(
                            EventModel {
                                uid,
                                summary: field_value(ps, "SUMMARY"@),
                                description: field_value(ps, "DESCRIPTION"@),
                                location: field_value(ps, "LOCATION"@),
                                start,
                                end,
                                status: EventStatus::Unknown,
                            },
                        ),
                    },
                },
            },
        },
    }
}

/// An event from its properties: the UID, start and end are required, the
/// start and end must read as date-times; the status is left unknown.
pub fn build_event(ps: &Vec<Property>) -> (r: Result<CalendarEvent, ImportError>)
    ensures
        r matches Ok(e) ==> import_outcome(ps@) == Ok::<EventModel, ImportFailure>(event_model(e)),
        r matches Err(e) ==> import_outcome(ps@) == Err::<EventModel, ImportFailure>(e.failure()),
{
    let uid = match field(ps, "UID") {
        Some(u) => u,
        None => return Err(ImportError::MissingUid),
    };
    let start = match field(ps, "DTSTART") {
        Some(s) => parse_datetime(s.as_str())?,
        None => return Err(ImportError::MissingStart(uid)),
    };
    let end = match field(ps, "DTEND") {
        Some(s) => parse_datetime(s.as_str())?,
        None => return Err(ImportError::MissingEnd(uid)),
    };
    Ok(
        CalendarEvent {
            uid,
            summary: field(ps, "SUMMARY"),
            description: field(ps, "DESCRIPTION"),
            location: field(ps, "LOCATION"),
            start,
            end,
            status: EventStatus::Unknown,
        },
    )
}

/// A calendar from the property lists of its events, in order; the first
/// event that cannot be imported fails the whole import.
pub fn build_calendar(events: &Vec<Vec<Property>>) -> (r: Result<Calendar, ImportError>)
    ensures
        r matches Ok(c) ==> {
            &&& c.name@ == "todo"@
            &&& c.events@.len() == events@.len()
            &&& forall|i: int|
                0 <= i < events@.len() ==> import_outcome(#[trigger] events@[i]@) == Ok::<
                    EventModel,
                    ImportFailure,
                >(event_model(c.events@[i]))
        },
        r matches Err(e) ==> exists|i: int|
            0 <= i < events@.len() && import_outcome(#[trigger] events@[i]@) == Err::<
                EventModel,
                ImportFailure,
            >(e.failure()),
{
    let mut out: Vec<CalendarEvent> = Vec::new();
    let mut i: usize = 0;
    while i < events.len()
        invariant
            i <= events@.len(),
            out@.len() == i,
            forall|j: int|
                0 <= j < i ==> import_outcome(#[trigger] events@[j]@) == Ok::<
                    EventModel,
                    ImportFailure,
                >(event_model(out@[j])),
        decreases events@.len() - i,
    {
        match build_event(&events[i]) {
            Ok(e) => out.push(e),
            Err(e) => {
                assert(import_outcome(events@[i as int]@) == Err::<EventModel, ImportFailure>(
                    e.failure(),
                ));
                return Err(e);
            },
        }
        i = i + 1;
    }
    Ok(Calendar { name: "todo".to_owned(), events: out })
}

} // verus!
