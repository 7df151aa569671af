use taskrs::event::{Event, KeyCode, KeyEvent, KeyEventKind};
use taskrs::ics_popup::new_ics_popup;
use taskrs::input::UserInput;
use taskrs::journal::Journal;
use taskrs::layout::Layout;
use taskrs::monthly::MonthlyView;
use taskrs::multi_popup::MultiPopup;
use taskrs::popup::Popup;
use taskrs::popup_host::{find_trigger, PopupHost};
use taskrs::tabs::CalendarView;
use taskrs::tmp_popup::{new_tmp_popup, TmpPopupContent};
use taskrs::view::{
    AppState, FocusStatus, Focusable, FocusableView, Rect, TextStyle, View, ViewWithCursorControl,
};
use taskrs::view_switcher::ViewSwitcher;

fn press(code: KeyCode) -> Event {
    Event::key_press(code)
}

fn type_text(host: &mut PopupHost<impl FocusableView, MultiPopup>, st: &mut AppState, s: &str) {
    for c in s.chars() {
        host.handle_event(&press(KeyCode::Char(c)), st).unwrap();
    }
}

fn app_host() -> PopupHost<Layout<ViewSwitcher<CalendarView>, Journal>, MultiPopup> {
    let tabs = ViewSwitcher::new('v').with_views(vec![CalendarView::Monthly(MonthlyView::at(
        2025, 2,
    ))]);
    PopupHost::new(Layout::new(tabs, Journal::new())).with_popups(
        vec![MultiPopup::Ics(new_ics_popup()), MultiPopup::Tmp(new_tmp_popup())],
        vec![KeyCode::Char('i'), KeyCode::Char('j')],
    )
}

#[test]
fn end_to_end_import_path_is_staged() {
    let mut st = AppState::new();
    let mut host = app_host();
    assert!(host.base_view().is_focused());
    host.handle_event(&press(KeyCode::Char('i')), &mut st).unwrap();
    assert_eq!(host.active_popup(), Some(0));
    assert!(host.active_popup_view().unwrap().is_focused());
    assert!(!host.base_view().is_focused());
    type_text(&mut host, &mut st, "test.ics");
    host.handle_event(&press(KeyCode::Enter), &mut st).unwrap();
    assert_eq!(st.staged(), Some("test.ics"));
    host.handle_event(&press(KeyCode::Esc), &mut st).unwrap();
    assert_eq!(host.active_popup(), None);
    assert!(host.base_view().is_focused());
    assert_eq!(st.staged(), Some("test.ics"));
}

#[test]
fn base_gets_no_events_while_popup_is_open() {
    let mut st = AppState::new();
    let mut host = PopupHost::new(MonthlyView::at(2025, 2)).with_popups(
        vec![MultiPopup::Tmp(new_tmp_popup())],
        vec![KeyCode::Char('j')],
    );
    host.handle_event(&press(KeyCode::Char('n')), &mut st).unwrap();
    assert_eq!(host.base_view().month_shown(), 3);
    host.handle_event(&press(KeyCode::Char('j')), &mut st).unwrap();
    assert_eq!(host.active_popup(), Some(0));
    for _ in 0..3 {
        host.handle_event(&press(KeyCode::Char('n')), &mut st).unwrap();
        host.handle_event(&press(KeyCode::Char('j')), &mut st).unwrap();
    }
    assert_eq!(host.base_view().month_shown(), 3);
    assert!(!host.base_view().is_focused());
    host.handle_event(&press(KeyCode::Esc), &mut st).unwrap();
    host.handle_event(&press(KeyCode::Char('n')), &mut st).unwrap();
    assert_eq!(host.base_view().month_shown(), 4);
}

#[test]
fn trigger_key_is_consumed() {
    let mut st = AppState::new();
    let mut host = app_host();
    host.handle_event(&press(KeyCode::Char('i')), &mut st).unwrap();
    let caret = host.cursor_position(Rect::new(10, 5, 40, 3));
    // the field is empty: the 'i' that opened it was not typed into it
    assert_eq!(caret, Some((12, 7)));
}

#[test]
fn reopening_resets_the_field() {
    let mut st = AppState::new();
    let mut host = app_host();
    host.handle_event(&press(KeyCode::Char('i')), &mut st).unwrap();
    type_text(&mut host, &mut st, "ab");
    assert_eq!(host.cursor_position(Rect::new(10, 5, 40, 3)), Some((14, 7)));
    host.handle_event(&press(KeyCode::Esc), &mut st).unwrap();
    assert_eq!(host.cursor_position(Rect::new(10, 5, 40, 3)), None);
    host.handle_event(&press(KeyCode::Char('i')), &mut st).unwrap();
    assert_eq!(host.cursor_position(Rect::new(10, 5, 40, 3)), Some((12, 7)));
}

#[test]
fn second_trigger_opens_other_popup() {
    let mut st = AppState::new();
    let mut host = app_host();
    host.handle_event(&press(KeyCode::Char('j')), &mut st).unwrap();
    assert_eq!(host.active_popup(), Some(1));
    host.handle_event(&press(KeyCode::Char('i')), &mut st).unwrap();
    assert_eq!(host.active_popup(), Some(1));
    assert_eq!(host.cursor_position(Rect::new(0, 0, 20, 5)), None);
}

#[test]
fn escape_without_popup_keeps_base_focused() {
    let mut st = AppState::new();
    let mut host = app_host();
    host.handle_event(&press(KeyCode::Esc), &mut st).unwrap();
    assert_eq!(host.active_popup(), None);
    assert!(host.base_view().is_focused());
}

#[test]
fn released_trigger_opens_nothing() {
    let mut st = AppState::new();
    let mut host = app_host();
    let release = Event::Key(KeyEvent {
        code: KeyCode::Char('i'),
        kind: KeyEventKind::Release,
        ctrl: false,
    });
    host.handle_event(&release, &mut st).unwrap();
    assert_eq!(host.active_popup(), None);
}

#[test]
fn find_trigger_takes_first_match() {
    let ts = vec![KeyCode::Char('a'), KeyCode::Enter, KeyCode::Char('a')];
    assert_eq!(find_trigger(&ts, KeyCode::Char('a')), Some(0));
    assert_eq!(find_trigger(&ts, KeyCode::Enter), Some(1));
    assert_eq!(find_trigger(&ts, KeyCode::Esc), None);
}

#[test]
fn popup_open_follows_focus() {
    let mut p = Popup::new("t", UserInput::new("field"), None, None);
    assert!(!p.open());
    assert!(!p.content().is_focused());
    p.focus();
    assert!(p.open());
    assert!(p.content().is_focused());
    p.toggle_focus();
    assert!(!p.open());
    assert_eq!(p.title(), "t");
}

#[test]
fn popup_content_area_is_inside_border() {
    let p = Popup::new("t", UserInput::new(""), None, None);
    assert_eq!(p.content_area(Rect::new(10, 5, 40, 3)), Rect { x: 11, y: 6, width: 38, height: 1 });
    assert_eq!(p.content_area(Rect::new(0, 0, 1, 1)), Rect { x: 1, y: 1, width: 0, height: 0 });
    assert_eq!(p.content_area(Rect::new(3, 3, 0, 0)), Rect { x: 3, y: 3, width: 0, height: 0 });
}

#[test]
fn staged_label_shows_value_or_none() {
    let mut st = AppState::new();
    let t = TmpPopupContent::new();
    assert_eq!(t.label(&st), "none");
    st.tmp = Some(String::from("cal.ics"));
    assert_eq!(t.label(&st), "cal.ics");
}

#[test]
fn escape_is_consumed_by_the_host() {
    let mut st = AppState::new();
    let mut host = PopupHost::new(UserInput::new("base")).with_popups(
        vec![MultiPopup::Tmp(new_tmp_popup())],
        vec![KeyCode::Char('j')],
    );
    host.handle_event(&press(KeyCode::Char('a')), &mut st).unwrap();
    host.handle_event(&press(KeyCode::Char('j')), &mut st).unwrap();
    host.handle_event(&press(KeyCode::Esc), &mut st).unwrap();
    assert_eq!(host.active_popup(), None);
    assert!(host.base_view().is_focused());
    assert_eq!(host.base_view().content(), "a");
}

#[test]
fn popup_styles_default_and_given() {
    let p = Popup::new("t", UserInput::new(""), None, None);
    assert_eq!(p.border_style(), TextStyle::plain());
    assert_eq!(p.title_style(), TextStyle::bold());
    let dim = TextStyle { fg: None, bold: false, dim: true };
    let q = Popup::new("t", UserInput::new(""), Some(dim), Some(dim));
    assert_eq!(q.border_style(), dim);
    assert_eq!(q.title_style(), dim);
}

#[test]
fn newly_staged_value_is_imported_once() {
    let mut st = AppState::new();
    assert_eq!(st.newly_staged(&None), None);
    st.tmp = Some(String::from("a.ics"));
    assert_eq!(st.newly_staged(&None), Some(String::from("a.ics")));
    assert_eq!(st.newly_staged(&Some(String::from("a.ics"))), None);
    assert_eq!(st.newly_staged(&Some(String::from("b.ics"))), Some(String::from("a.ics")));
    st.record_import(Err(String::from("a.ics: not found")));
    assert_eq!(st.staged(), Some("a.ics: not found"));
    assert!(st.calendar.is_none());
}
