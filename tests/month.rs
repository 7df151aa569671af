use taskrs::event::{Event, KeyCode};
use taskrs::monthly::{movement_of, MonthlyView};
use taskrs::cursor::Movement;
use taskrs::utils::month_info;
use taskrs::view::{AppState, Focusable, FocusableView, View};

#[test]
fn february_lengths() {
    assert_eq!(month_info(2025, 2).1, 28);
    assert_eq!(month_info(2024, 2).1, 29);
    assert_eq!(month_info(1900, 2).1, 28);
    assert_eq!(month_info(2000, 2).1, 29);
}

#[test]
fn month_lengths_and_first_weekdays() {
    assert_eq!(month_info(2025, 2), (5, 28));
    assert_eq!(month_info(2024, 2), (3, 29));
    assert_eq!(month_info(2026, 10), (3, 31));
    assert_eq!(month_info(2025, 4).1, 30);
    assert_eq!(month_info(2025, 12).1, 31);
}

#[test]
fn monthly_view_navigates_months() {
    let mut st = AppState::new();
    let mut m = MonthlyView::at(2025, 12);
    assert_eq!(m.month_len(), 31);
    m.focus();
    m.handle_event_if_focused(&Event::key_press(KeyCode::Char('n')), &mut st).unwrap();
    assert_eq!((m.year_shown(), m.month_shown()), (2026, 1));
    m.handle_event_if_focused(&Event::key_press(KeyCode::Char('p')), &mut st).unwrap();
    m.handle_event_if_focused(&Event::key_press(KeyCode::Char('p')), &mut st).unwrap();
    assert_eq!((m.year_shown(), m.month_shown()), (2025, 11));
    m.update();
    assert_eq!(m.month_len(), 30);
    assert_eq!(m.first_day(), 5);
}

#[test]
fn monthly_view_moves_its_cursor() {
    let mut st = AppState::new();
    let mut m = MonthlyView::at(2025, 2);
    m.focus();
    assert_eq!(m.current_day(), None);
    m.handle_event_if_focused(&Event::key_press(KeyCode::Char('s')), &mut st).unwrap();
    assert_eq!(m.current_day(), Some(1));
    m.handle_event_if_focused(&Event::key_press(KeyCode::Char('l')), &mut st).unwrap();
    m.handle_event_if_focused(&Event::key_press(KeyCode::Down), &mut st).unwrap();
    assert_eq!(m.current_day(), Some(9));
    for _ in 0..5 {
        m.handle_event_if_focused(&Event::key_press(KeyCode::Char('j')), &mut st).unwrap();
    }
    assert_eq!(m.current_day(), Some(28));
}

#[test]
fn unfocused_monthly_view_ignores_keys() {
    let mut st = AppState::new();
    let mut m = MonthlyView::at(2025, 2);
    m.handle_event_if_focused(&Event::key_press(KeyCode::Char('n')), &mut st).unwrap();
    assert_eq!(m.month_shown(), 2);
}

#[test]
fn movement_keys() {
    assert_eq!(movement_of(KeyCode::Char('h')), Some(Movement::Left));
    assert_eq!(movement_of(KeyCode::Down), Some(Movement::Bottom));
    assert_eq!(movement_of(KeyCode::Char('k')), Some(Movement::Top));
    assert_eq!(movement_of(KeyCode::Right), Some(Movement::Right));
    assert_eq!(movement_of(KeyCode::Char('x')), None);
}

#[test]
fn current_month_view_is_valid() {
    let m = MonthlyView::new();
    let month = m.month_shown();
    assert!((1..=12).contains(&month));
    assert!((28..=31).contains(&m.month_len()));
}

#[test]
fn grid_cells_map_to_days() {
    // February 2025 starts on a Saturday
    let m = MonthlyView::at(2025, 2);
    assert_eq!(m.first_day(), 5);
    assert_eq!(m.day_at_cell(0), None);
    assert_eq!(m.day_at_cell(4), None);
    assert_eq!(m.day_at_cell(5), Some(1));
    assert_eq!(m.day_at_cell(32), Some(28));
    assert_eq!(m.day_at_cell(33), None);
    assert_eq!(m.day_at_cell(5000), None);
}
