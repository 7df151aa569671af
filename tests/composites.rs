use taskrs::daily::DailyView;
use taskrs::event::{Event, KeyCode, KeyEvent, KeyEventKind};
use taskrs::journal::Journal;
use taskrs::layout::Layout;
use taskrs::monthly::MonthlyView;
use taskrs::tabs::CalendarView;
use taskrs::view::{AppState, FocusStatus, Focusable, FocusableView, Rect, View};
use taskrs::view_switcher::ViewSwitcher;

fn press(c: char) -> Event {
    Event::key_press(KeyCode::Char(c))
}

fn tabs() -> ViewSwitcher<CalendarView> {
    ViewSwitcher::new('v').with_views(vec![
        CalendarView::Monthly(MonthlyView::at(2025, 2)),
        CalendarView::Daily(DailyView::new()),
        CalendarView::Daily(DailyView::new()),
    ])
}

#[test]
fn cycling_n_times_returns_to_start() {
    let mut st = AppState::new();
    let mut s = tabs();
    s.focus();
    assert_eq!(s.active_index(), 0);
    for _ in 0..s.len() {
        s.handle_event_if_focused(&press('v'), &mut st).unwrap();
    }
    assert_eq!(s.active_index(), 0);
    s.handle_event_if_focused(&press('v'), &mut st).unwrap();
    assert_eq!(s.active_index(), 1);
}

#[test]
fn focus_follows_the_active_tab() {
    let mut st = AppState::new();
    let mut s = tabs();
    s.focus();
    assert!(s.current().unwrap().is_focused());
    s.handle_event_if_focused(&press('v'), &mut st).unwrap();
    assert_eq!(s.active_index(), 1);
    assert!(s.current().unwrap().is_focused());
    s.unfocus();
    assert!(!s.current().unwrap().is_focused());
    s.toggle_focus();
    assert!(s.is_focused());
    assert!(s.current().unwrap().is_focused());
}

#[test]
fn unfocused_switcher_ignores_switch_key() {
    let mut st = AppState::new();
    let mut s = tabs();
    s.handle_event_if_focused(&press('v'), &mut st).unwrap();
    assert_eq!(s.active_index(), 0);
}

#[test]
fn release_of_switch_key_does_not_cycle() {
    let mut st = AppState::new();
    let mut s = tabs();
    s.focus();
    let release = Event::Key(KeyEvent {
        code: KeyCode::Char('v'),
        kind: KeyEventKind::Release,
        ctrl: false,
    });
    s.handle_event_if_focused(&release, &mut st).unwrap();
    assert_eq!(s.active_index(), 0);
}

#[test]
fn single_view_cycles_onto_itself() {
    let mut st = AppState::new();
    let mut s = ViewSwitcher::new('v').with_views(vec![CalendarView::Daily(DailyView::new())]);
    s.focus();
    s.handle_event_if_focused(&press('v'), &mut st).unwrap();
    assert_eq!(s.active_index(), 0);
    assert!(s.current().unwrap().is_focused());
}

#[test]
fn empty_switcher_is_harmless() {
    let mut st = AppState::new();
    let mut s: ViewSwitcher<CalendarView> = ViewSwitcher::new('v');
    s.focus();
    s.handle_event_if_focused(&press('v'), &mut st).unwrap();
    s.update();
    assert!(s.current().is_none());
    assert_eq!(s.active_index(), 0);
}

fn panes() -> Layout<Journal, Journal> {
    Layout::new(Journal::new(), Journal::new())
}

#[test]
fn layout_focus_restores_one_pane() {
    let mut st = AppState::new();
    let mut l = panes();
    l.focus();
    assert!(l.main_view().is_focused());
    assert!(!l.side_view().is_focused());
    l.handle_event_if_focused(&press(' '), &mut st).unwrap();
    assert!(!l.main_view().is_focused());
    assert!(l.side_view().is_focused());
    l.unfocus();
    assert!(!l.main_view().is_focused());
    assert!(!l.side_view().is_focused());
    l.focus();
    assert!(!l.main_view().is_focused());
    assert!(l.side_view().is_focused());
    l.toggle_focus();
    assert!(!l.is_focused());
    assert!(!l.main_view().is_focused() && !l.side_view().is_focused());
    l.toggle_focus();
    assert!(l.main_view().is_focused() != l.side_view().is_focused());
}

#[test]
fn layout_focus_sequences_keep_one_pane() {
    let mut st = AppState::new();
    let mut l = panes();
    for step in 0..20 {
        match step % 5 {
            0 => l.focus(),
            1 => l.handle_event_if_focused(&press(' '), &mut st).unwrap(),
            2 => l.toggle_focus(),
            3 => l.unfocus(),
            _ => l.toggle_focus(),
        }
        if l.is_focused() {
            assert!(l.main_view().is_focused() != l.side_view().is_focused());
        } else {
            assert!(!l.main_view().is_focused() && !l.side_view().is_focused());
        }
    }
}

#[test]
fn unfocused_layout_ignores_space() {
    let mut st = AppState::new();
    let mut l = panes();
    l.handle_event_if_focused(&press(' '), &mut st).unwrap();
    l.handle_event(&press(' '), &mut st).unwrap();
    assert!(!l.main_view().is_focused() && !l.side_view().is_focused());
}

#[test]
fn layout_splits_three_quarters() {
    let l = panes();
    let (main, divider, side) = l.areas(Rect::new(0, 0, 100, 40));
    assert_eq!(main, Rect { x: 0, y: 0, width: 75, height: 40 });
    assert_eq!(divider, Rect { x: 75, y: 0, width: 1, height: 40 });
    assert_eq!(side, Rect { x: 76, y: 0, width: 24, height: 40 });
    let (main, divider, side) = l.areas(Rect::new(0, 0, 4, 1));
    assert_eq!(main.width + divider.width + side.width, 4);
    let (main, divider, side) = l.areas(Rect::new(2, 3, 10, 5));
    assert_eq!(main, Rect { x: 2, y: 3, width: 7, height: 5 });
    assert_eq!(divider, Rect { x: 9, y: 3, width: 1, height: 5 });
    assert_eq!(side, Rect { x: 10, y: 3, width: 2, height: 5 });
}

#[test]
fn zero_sized_area_splits_without_panic() {
    let l = panes();
    let (main, _, side) = l.areas(Rect::new(u16::MAX, 0, 0, 0));
    assert_eq!(main.width, 0);
    assert_eq!(side.x, u16::MAX);
}

#[test]
fn rect_new_keeps_inside_coordinates() {
    let r = Rect::new(65530, 10, 20, 5);
    assert_eq!(r.width, 5);
    assert_eq!(r.height, 5);
}
