use vstd::prelude::*;
use crate::cursor::{Cursor, CursorState, Movement};
use crate::event::{pressed, Event, KeyCode};
use crate::utils::{
    days_in_month, local_year_month, month_info, weekday_from_monday, year_in_range, MAX_YEAR,
    MIN_YEAR,
};
use crate::view::{AppState, FocusStatus, Focusable, FocusableView, View, ViewError};
use vstd::view::View as _;

verus! {

/// The month after (`year`, `month`); the last month of the last year
/// stays where it is.
pub open spec fn next_month(year: int, month: int) -> (int, int) {
    if month < 12 {
        (year, month + 1)
    } else if year < MAX_YEAR {
        (year + 1, 1)
    } else {
        (year, month)
    }
}

/// The month before (`year`, `month`); the first month of the first year
/// stays where it is.
pub open spec fn prev_month(year: int, month: int) -> (int, int) {
    if month > 1 {
        (year, month - 1)
    } else if year > MIN_YEAR {
        (year - 1, 12)
    } else {
        (year, month)
    }
}

/// The cursor move a key stands for: h, j, k, l or the arrows.
pub open spec fn key_movement(k: KeyCode) -> Option<Movement> {
    match k {
        KeyCode::Char('h') | KeyCode::Left => Some(Movement::Left),
        KeyCode::Char('j') | KeyCode::Down => Some(Movement::Bottom),
        KeyCode::Char('k') | KeyCode::Up => Some(Movement::Top),
        KeyCode::Char('l') | KeyCode::Right => Some(Movement::Right),
        _ => None,
    }
}

impl MonthlyView {
    /// `new` is `old` but for the shown month, set to (`year`, `month`).
    pub open spec fn month_set(old: MonthlyView, new: MonthlyView, year: int, month: int) -> bool {
        &&& new.year() == year
        &&& new.month() == month
        &&& new.first_weekday() == old.first_weekday()
        &&& new.days() == old.days()
        &&& new.cursor_state() == old.cursor_state()
        &&& new.focused() == old.focused()
    }

    /// `new` is `old` but for the cursor, set to `c`.
    pub open spec fn cursor_set(old: MonthlyView, new: MonthlyView, c: CursorState) -> bool {
        &&& new.year() == old.year()
        &&& new.month() == old.month()
        &&& new.first_weekday() == old.first_weekday()
        &&& new.days() == old.days()
        &&& new.cursor_state() == c
        &&& new.focused() == old.focused()
    }

    /// What the event `e` makes of the view: n and p change the month, s
    /// shows or hides the cursor, h j k l and the arrows move it; on
    /// press only.
    pub open spec fn after_key(old: MonthlyView, e: Event, new: MonthlyView) -> bool {
        match pressed(e) {
            Some(k) => if k == KeyCode::Char('n') {
                MonthlyView::month_set(old, new, next_month(old.year(), old.month()).0, next_month(old.year(), old.month()).1)
            } else if k == KeyCode::Char('p') {
                MonthlyView::month_set(old, new, prev_month(old.year(), old.month()).0, prev_month(old.year(), old.month()).1)
            } else if k == KeyCode::Char('s') {
                MonthlyView::cursor_set(old, new, CursorState { shown: !old.cursor_state().shown, ..old.cursor_state() })
            } else if key_movement(k) is Some {
                MonthlyView::cursor_set(old, new, old.cursor_state().step(key_movement(k).unwrap()))
            } else {
                new == old
            },
            None => new == old,
        }
    }
}

/// The cursor move a key stands for.
pub fn movement_of(k: KeyCode) -> (r: Option<Movement>)
    ensures
        r == key_movement(k),
{
    match k {
        KeyCode::Char('h') | KeyCode::Left => Some(Movement::Left),
        KeyCode::Char('j') | KeyCode::Down => Some(Movement::Bottom),
        KeyCode::Char('k') | KeyCode::Up => Some(Movement::Top),
        KeyCode::Char('l') | KeyCode::Right => Some(Movement::Right),
        _ => None,
    }
}

/// The month grid: seven columns of weekdays, six rows, and a cursor over
/// the days of the shown month.
pub struct MonthlyView {
    curr_year: i32,
    curr_month: u32,
    first_day: i32,
    month_len: i32,
    focused: bool,
    c: Cursor,
}

impl MonthlyView {
    pub closed spec fn year(&self) -> int {
        self.curr_year as int
    }

    pub closed spec fn month(&self) -> int {
        self.curr_month as int
    }

    /// The weekday of the first day, as last computed by `update`.
    pub closed spec fn first_weekday(&self) -> int {
        self.first_day as int
    }

    /// The number of days, as last computed by `update`.
    pub closed spec fn days(&self) -> int {
        self.month_len as int
    }

    pub closed spec fn cursor_state(&self) -> CursorState {
        self.c@
    }

    /// An unfocused view of the current local month.
    pub fn new() -> (r: MonthlyView)
        ensures
            r.inv(),
            !r.focused(),
            !r.cursor_state().shown,
    {
        let (year, month) = local_year_month();
        MonthlyView::at(year, month)
    }

    /// An unfocused view of `month` in `year`, its cursor hidden on the
    /// first day.
    pub fn at(year: i32, month: u32) -> (r: MonthlyView)
        requires
            1 <= month <= 12,
            year_in_range(year as int),
        ensures
            r.inv(),
            !r.focused(),
            r.year() == year,
            r.month() == month,
            r.first_weekday() == weekday_from_monday(year as int, month as int, 1),
            r.days() == days_in_month(year as int, month as int),
            r.cursor_state() == (CursorState {
                shown: false,
                x: 0,
                y: 0,
                w: 7,
                h: 6,
                max_day: days_in_month(year as int, month as int),
            }),
    {
        let (first_day, month_len) = month_info(year, month);
        let c = Cursor::new().with_w(7).with_h(6).with_max_day(month_len);
        MonthlyView {
            curr_year: year,
            curr_month: month,
            first_day,
            month_len,
            focused: false,
            c,
        }
    }

    pub fn year_shown(&self) -> (r: i32)
        ensures
            r == self.year(),
    {
        self.curr_year
    }

    pub fn month_shown(&self) -> (r: u32)
        ensures
            r == self.month(),
    {
        self.curr_month
    }

    pub fn first_day(&self) -> (r: i32)
        ensures
            r == self.first_weekday(),
    {
        self.first_day
    }

    pub fn month_len(&self) -> (r: i32)
        ensures
            r == self.days(),
    {
        self.month_len
    }

    pub fn cursor(&self) -> (r: &Cursor)
        ensures
            r@ == self.cursor_state(),
    {
        &self.c
    }

    /// The selected day of the month, if the cursor shows one.
    pub fn current_day(&self) -> (r: Option<i32>)
        ensures
            r is Some == self.cursor_state().current_day() is Some,
            r matches Some(d) ==> self.cursor_state().current_day() == Some(d as int),
    {
        self.c.current_day()
    }

    /// The day shown in grid cell `cell` (in reading order, from 0): the
    /// cells before the first weekday and after the last day are empty.
    pub fn day_at_cell(&self, cell: usize) -> (r: Option<i32>)
        requires
            self.inv(),
        ensures
            r is Some == (0 <= cell - self.first_weekday() < self.days()),
            r matches Some(d) ==> d == cell - self.first_weekday() + 1,
    {
        if cell >= 1000 {
            return None;
        }
        let day_num = cell as i32 - self.first_day;
        if day_num >= 0 && day_num < self.month_len {
            Some(day_num + 1)
        } else {
            None
        }
    }

    /// n and p change the month, s shows or hides the cursor, h j k l and
    /// the arrows move it.
    fn handle_key_press(&mut self, k: KeyCode)
        requires
            old(self).inv(),
        ensures
            final(self).inv(),
            final(self).focused == old(self).focused,
            final(self).first_day == old(self).first_day,
            final(self).month_len == old(self).month_len,
            k == KeyCode::Char('n') ==> (final(self).year(), final(self).month()) == next_month(
                old(self).year(),
                old(self).month(),
            ) && final(self).c@ == old(self).c@,
            k == KeyCode::Char('p') ==> (final(self).year(), final(self).month()) == prev_month(
                old(self).year(),
                old(self).month(),
            ) && final(self).c@ == old(self).c@,
            k == KeyCode::Char('s') ==> final(self).c@ == (CursorState {
                shown: !old(self).c@.shown,
                ..old(self).c@
            }) && final(self).year() == old(self).year() && final(self).month() == old(self).month(),
            key_movement(k) matches Some(m) ==> final(self).c@ == old(self).c@.step(m) && final(self).year() == old(self).year() && final(self).month() == old(self).month(),
            k != KeyCode::Char('n') && k != KeyCode::Char('p') && k != KeyCode::Char('s')
                && key_movement(k) is None ==> *final(self) == *old(self),
    {
        match k {
            KeyCode::Char('n') => {
                if self.curr_month < 12 {
                    self.curr_month = self.curr_month + 1;
                } else if self.curr_year < MAX_YEAR {
                    self.curr_month = 1;
                    self.curr_year = self.curr_year + 1;
                }
            },
            KeyCode::Char('p') => {
                if self.curr_month > 1 {
                    self.curr_month = self.curr_month - 1;
                } else if self.curr_year > MIN_YEAR {
                    self.curr_month = 12;
                    self.curr_year = self.curr_year - 1;
                }
            },
            KeyCode::Char('s') => {
                self.c.change_shown();
            },
            _ => {
                if let Some(m) = movement_of(k) {
                    proof {
                        crate::cursor::lemma_step_keeps_range(self.c@, m);
                    }
                    self.c.apply(m);
                }
            },
        }
    }
}

impl View for MonthlyView {
    closed spec fn inv(&self) -> bool {
        &&& 1 <= self.curr_month <= 12
        &&& year_in_range(self.curr_year as int)
        &&& 28 <= self.month_len <= 31
        &&& 0 <= self.first_day < 7
        &&& self.c@.w == 7
        &&& self.c@.h == 6
        &&& self.c@.max_day == self.month_len
        &&& self.c@.movable()
    }

    closed spec fn focused(&self) -> bool {
        self.focused
    }

    /// Month and cursor keys, on press only.
    fn handle_event(&mut self, e: &Event, state: &mut AppState) -> (r: Result<(), ViewError>)
        ensures
            r.is_ok(),
            *final(state) == *old(state),
            MonthlyView::after_key(*old(self), *e, *final(self)),
    {
        match e.pressed_key() {
            Some(k) => self.handle_key_press(k),
            None => {},
        }
        Ok(())
    }

    /// The first weekday and length of the shown month are recomputed and
    /// bound the cursor.
    open spec fn updated(old: Self, new: Self) -> bool {
        &&& new.year() == old.year()
        &&& new.month() == old.month()
        &&& new.first_weekday() == weekday_from_monday(old.year(), old.month(), 1)
        &&& new.days() == days_in_month(old.year(), old.month())
        &&& new.cursor_state() == (CursorState {
            max_day: days_in_month(old.year(), old.month()),
            ..old.cursor_state()
        })
        &&& new.focused() == old.focused()
    }

    /// Recomputes the first weekday and the length of the shown month and
    /// bounds the cursor by that length.
    fn update(&mut self) {
        let (first_day, month_len) = month_info(self.curr_year, self.curr_month);
        self.first_day = first_day;
        self.month_len = month_len;
        self.c.set_max_day(month_len);
    }
}

impl Focusable for MonthlyView {
    /// Only the flag changes.
    open spec fn refocused(old: Self, new: Self, f: bool) -> bool {
        &&& new.year() == old.year()
        &&& new.month() == old.month()
        &&& new.first_weekday() == old.first_weekday()
        &&& new.days() == old.days()
        &&& new.cursor_state() == old.cursor_state()
        &&& new.focused() == f
    }

    fn focus(&mut self) {
        self.focused = true;
    }

    fn unfocus(&mut self) {
        self.focused = false;
    }

    fn toggle_focus(&mut self) {
        self.focused = !self.focused;
    }
}

impl FocusStatus for MonthlyView {
    fn is_focused(&self) -> (r: bool) {
        self.focused
    }
}

impl FocusableView for MonthlyView {
    /// While focused, the keys act on the view.
    open spec fn gated(
        old: Self,
        e: Event,
        st: AppState,
        new: Self,
        new_st: AppState,
        r: Result<(), ViewError>,
    ) -> bool {
        &&& new_st == st
        &&& r.is_ok()
        &&& old.focused() ==> MonthlyView::after_key(old, e, new)
        &&& !old.focused() ==> new == old
    }

    fn handle_event_if_focused(&mut self, e: &Event, state: &mut AppState) -> (r: Result<
        (),
        ViewError,
    >) {
        if self.focused {
            self.handle_event(e, state)
        } else {
            Ok(())
        }
    }
}

} // verus!
