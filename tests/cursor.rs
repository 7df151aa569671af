use taskrs::cursor::{Cursor, Movement};

fn month_cursor(max_day: i32) -> Cursor {
    let mut c = Cursor::new().with_w(7).with_h(6).with_max_day(max_day);
    c.change_shown();
    c
}

#[test]
fn move_left_at_origin_is_noop() {
    let mut c = month_cursor(31);
    c.move_left();
    assert_eq!((c.x(), c.y()), (0, 0));
    assert_eq!(c.current_day(), Some(1));
}

#[test]
fn move_right_wraps_to_next_row() {
    let mut c = month_cursor(31);
    for _ in 0..6 {
        c.move_right();
    }
    assert_eq!((c.x(), c.y()), (6, 0));
    c.move_right();
    assert_eq!((c.x(), c.y()), (0, 1));
    assert_eq!(c.current_day(), Some(8));
}

#[test]
fn move_left_wraps_to_previous_row() {
    let mut c = month_cursor(31);
    c.move_bottom();
    assert_eq!((c.x(), c.y()), (0, 1));
    c.move_left();
    assert_eq!((c.x(), c.y()), (6, 0));
}

#[test]
fn move_top_on_first_row_is_noop() {
    let mut c = month_cursor(31);
    c.move_right();
    c.move_top();
    assert_eq!((c.x(), c.y()), (1, 0));
    c.move_bottom();
    c.move_top();
    assert_eq!((c.x(), c.y()), (1, 0));
}

#[test]
fn move_bottom_clamps_to_last_day() {
    let mut c = month_cursor(28);
    c.move_right();
    c.move_right();
    c.move_right();
    for _ in 0..5 {
        c.move_bottom();
    }
    // day 28 is the last cell of the fourth row
    assert_eq!((c.x(), c.y()), (6, 3));
    assert_eq!(c.current_day(), Some(28));
}

#[test]
fn move_right_past_last_day_clamps() {
    let mut c = month_cursor(31);
    for _ in 0..30 {
        c.move_right();
    }
    assert_eq!(c.current_day(), Some(31));
    assert_eq!((c.x(), c.y()), (2, 4));
    c.move_right();
    assert_eq!((c.x(), c.y()), (2, 4));
    assert_eq!(c.current_day(), Some(31));
}

#[test]
fn hidden_cursor_does_not_move_and_has_no_day() {
    let mut c = Cursor::new().with_w(7).with_h(6).with_max_day(31);
    c.move_right();
    c.move_bottom();
    assert_eq!((c.x(), c.y()), (0, 0));
    assert_eq!(c.current_day(), None);
    assert!(!c.is_shown());
}

#[test]
fn set_max_day_applies_on_next_move() {
    let mut c = month_cursor(31);
    for _ in 0..29 {
        c.move_right();
    }
    assert_eq!(c.current_day(), Some(30));
    c.set_max_day(28);
    assert_eq!(c.max_day(), 28);
    // not clamped yet: the day is out of range
    assert_eq!(c.current_day(), None);
    c.move_left();
    assert_eq!(c.current_day(), Some(28));
}

#[test]
fn clamp_to_maxx_snaps_back() {
    let mut c = Cursor::new().with_w(7).with_h(6).with_max_day(10);
    c.set_w(7);
    c.set_h(6);
    c.change_shown();
    c.move_bottom();
    c.move_bottom();
    assert_eq!(c.current_day(), Some(10));
    assert_eq!((c.x(), c.y()), (2, 1));
    c.clamp_to_maxx();
    assert_eq!((c.x(), c.y()), (2, 1));
}

#[test]
fn day_stays_in_range_over_any_moves() {
    for max_day in [1, 7, 28, 29, 30, 31, 42] {
        let mut c = month_cursor(max_day);
        let moves = [
            Movement::Right,
            Movement::Bottom,
            Movement::Bottom,
            Movement::Right,
            Movement::Bottom,
            Movement::Bottom,
            Movement::Bottom,
            Movement::Bottom,
            Movement::Left,
            Movement::Top,
            Movement::Right,
            Movement::Right,
            Movement::Right,
            Movement::Bottom,
            Movement::Left,
            Movement::Left,
        ];
        for m in moves {
            c.apply(m);
            let d = c.current_day().expect("shown cursor has a day");
            assert!(1 <= d && d <= max_day);
        }
        c.change_shown();
        c.apply(Movement::Right);
        assert_eq!(c.current_day(), None);
    }
}

#[test]
fn move_top_on_first_row_clamps_to_new_bound() {
    let mut c = month_cursor(31);
    for _ in 0..3 {
        c.move_right();
    }
    c.set_max_day(1);
    c.move_top();
    assert_eq!((c.x(), c.y()), (0, 0));
    assert_eq!(c.current_day(), Some(1));
}
