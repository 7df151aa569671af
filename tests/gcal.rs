use taskrs::calendar::EventStatus;
use taskrs::gcal::{build_calendar, build_event, field, parse_datetime, ImportError, Property};
use taskrs::ics::parse_gcal;

fn prop(name: &str, value: &str) -> Property {
    Property { name: String::from(name), value: Some(String::from(value)) }
}

fn full_event() -> Vec<Property> {
    vec![
        prop("UID", "ev-1"),
        prop("SUMMARY", "Standup"),
        prop("DTSTART", "2025-07-05T13:00:00Z"),
        prop("DTEND", "2025-07-05T16:00:00+02:00"),
        prop("X-OTHER", "ignored"),
    ]
}

#[test]
fn rfc3339_instants() {
    assert_eq!(parse_datetime("2025-07-05T13:00:00Z").unwrap(), 1751720400);
    assert_eq!(parse_datetime("2025-07-05T16:00:00+02:00").unwrap(), 1751724000);
}

#[test]
fn unreadable_datetime_is_an_error() {
    match parse_datetime("tomorrow") {
        Err(ImportError::BadDateTime(v)) => assert_eq!(v, "tomorrow"),
        other => panic!("unexpected {:?}", other),
    }
}

#[test]
fn last_property_wins() {
    let ps = vec![prop("SUMMARY", "a"), prop("UID", "u"), prop("SUMMARY", "b")];
    assert_eq!(field(&ps, "SUMMARY"), Some(String::from("b")));
    assert_eq!(field(&ps, "LOCATION"), None);
}

#[test]
fn event_from_properties() {
    let e = build_event(&full_event()).unwrap();
    assert_eq!(e.uid, "ev-1");
    assert_eq!(e.summary, Some(String::from("Standup")));
    assert_eq!(e.description, None);
    assert_eq!(e.start, 1751720400);
    assert_eq!(e.end, 1751724000);
    assert_eq!(e.status, EventStatus::Unknown);
}

#[test]
fn missing_fields_are_errors() {
    let no_uid = vec![prop("DTSTART", "2025-07-05T13:00:00Z")];
    assert!(matches!(build_event(&no_uid), Err(ImportError::MissingUid)));
    let no_start = vec![prop("UID", "x"), prop("DTEND", "2025-07-05T13:00:00Z")];
    match build_event(&no_start) {
        Err(ImportError::MissingStart(u)) => assert_eq!(u, "x"),
        other => panic!("unexpected {:?}", other.is_ok()),
    }
    let no_end = vec![prop("UID", "y"), prop("DTSTART", "2025-07-05T13:00:00Z")];
    match build_event(&no_end) {
        Err(ImportError::MissingEnd(u)) => assert_eq!(u, "y"),
        other => panic!("unexpected {:?}", other.is_ok()),
    }
    let bad_end = vec![prop("UID", "z"), prop("DTSTART", "2025-07-05T13:00:00Z"), prop("DTEND", "soon")];
    match build_event(&bad_end) {
        Err(ImportError::BadDateTime(v)) => assert_eq!(v, "soon"),
        other => panic!("unexpected {:?}", other.is_ok()),
    }
}

#[test]
fn calendar_keeps_event_order() {
    let mut second = full_event();
    second[0] = prop("UID", "ev-2");
    let cal = build_calendar(&vec![full_event(), second]).unwrap();
    assert_eq!(cal.name, "todo");
    assert_eq!(cal.events.len(), 2);
    assert_eq!(cal.events[0].uid, "ev-1");
    assert_eq!(cal.events[1].uid, "ev-2");
}

#[test]
fn calendar_fails_on_first_bad_event() {
    let bad = vec![prop("SUMMARY", "no uid")];
    assert!(matches!(build_calendar(&vec![full_event(), bad]), Err(ImportError::MissingUid)));
    assert_eq!(build_calendar(&vec![]).unwrap().events.len(), 0);
}

#[test]
fn icalendar_text_is_read() {
    let text = "BEGIN:VCALENDAR\r\nVERSION:2.0\r\nBEGIN:VEVENT\r\nUID:x\r\nSUMMARY:hi\r\nEND:VEVENT\r\nEND:VCALENDAR\r\n";
    let cal = parse_gcal(text).unwrap();
    assert_eq!(cal.len(), 1);
}
