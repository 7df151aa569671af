use vstd::prelude::*;

verus! {

/// A 2-D position on a grid `w` cells wide, limited to the first `max_day`
/// cells in reading order. Moves do nothing while the cursor is hidden.
pub struct Cursor {
    shown: bool,
    x: i32,
    y: i32,
    w: i32,
    h: i32,
    maxx: i32,
}

/// The mathematical state of a cursor.
pub ghost struct CursorState {
    pub shown: bool,
    pub x: int,
    pub y: int,
    pub w: int,
    pub h: int,
    pub max_day: int,
}

/// One directional move.
#[derive(Clone, Copy, Debug, PartialEq, Eq, Structural)]
pub enum Movement {
    Left,
    Right,
    Top,
    Bottom,
}

/// One operation on a cursor: a move, or showing/hiding it.
pub ghost enum CursorStep {
    Move(Movement),
    ToggleShown,
}

impl CursorState {
    /// The 1-based linear index of the position.
    pub open spec fn day(self) -> int {
        self.y * self.w + self.x + 1
    }

    /// Grid and bound are usable for moves, the position lies on the grid,
    /// and every index a move computes fits an `i32`.
    pub open spec fn movable(self) -> bool {
        &&& 0 < self.w
        &&& 0 < self.h
        &&& 1 <= self.max_day <= self.w * self.h
        &&& (self.h + 1) * self.w <= i32::MAX
        &&& 0 <= self.x < self.w
        &&& 0 <= self.y < self.h
    }

    /// The position is one of the first `max_day` cells.
    pub open spec fn in_range(self) -> bool {
        1 <= self.day() <= self.max_day
    }

    pub open spec fn at(self, x: int, y: int) -> CursorState {
        CursorState { x, y, ..self }
    }

    /// Past the last valid cell, the position snaps back to that cell.
    pub open spec fn clamped(self) -> CursorState {
        if self.day() > self.max_day {
            self.at((self.max_day - 1) % self.w, (self.max_day - 1) / self.w)
        } else {
            self
        }
    }

    pub open spec fn moved_left(self) -> CursorState {
        if !self.shown {
            self
        } else if self.x > 0 {
            self.at(self.x - 1, self.y).clamped()
        } else if self.y > 0 {
            self.at(self.w - 1, self.y - 1).clamped()
        } else {
            self.clamped()
        }
    }

    pub open spec fn moved_right(self) -> CursorState {
        if !self.shown {
            self
        } else if self.x < self.w - 1 {
            self.at(self.x + 1, self.y).clamped()
        } else {
            self.at(0, self.y + 1).clamped()
        }
    }

    pub open spec fn moved_top(self) -> CursorState {
        if !self.shown {
            self
        } else if self.y > 0 {
            self.at(self.x, self.y - 1).clamped()
        } else {
            self.clamped()
        }
    }

    pub open spec fn moved_bottom(self) -> CursorState {
        if !self.shown {
            self
        } else {
            self.at(self.x, self.y + 1).clamped()
        }
    }

    pub open spec fn step(self, m: Movement) -> CursorState {
        match m {
            Movement::Left => self.moved_left(),
            Movement::Right => self.moved_right(),
            Movement::Top => self.moved_top(),
            Movement::Bottom => self.moved_bottom(),
        }
    }

    /// The state after the moves of `ms`, in order.
    pub open spec fn run(self, ms: Seq<Movement>) -> CursorState
        decreases ms.len(),
    {
        if ms.len() == 0 {
            self
        } else {
            self.run(ms.drop_last()).step(ms.last())
        }
    }

    /// The state after the steps of `ss`, in order.
    pub open spec fn run_steps(self, ss: Seq<CursorStep>) -> CursorState
        decreases ss.len(),
    {
        if ss.len() == 0 {
            self
        } else {
            let prev = self.run_steps(ss.drop_last());
            match ss.last() {
                CursorStep::Move(m) => prev.step(m),
                CursorStep::ToggleShown => CursorState { shown: !prev.shown, ..prev },
            }
        }
    }

    /// The selected day: the 1-based index while shown and within the bound.
    pub open spec fn current_day(self) -> Option<int> {
        if self.shown && 0 < self.day() <= self.max_day {
            Some(self.day())
        } else {
            None
        }
    }
}

impl vstd::view::View for Cursor {
    type V = CursorState;

    closed spec fn view(&self) -> CursorState {
        CursorState {
            shown: self.shown,
            x: self.x as int,
            y: self.y as int,
            w: self.w as int,
            h: self.h as int,
            max_day: self.maxx as int,
        }
    }
}

impl Cursor {
    /// A hidden cursor at (0, 0) on an empty grid.
    pub fn new() -> (r: Cursor)
        ensures
            r@ == (CursorState { shown: false, x: 0, y: 0, w: 0, h: 0, max_day: 0 }),
    {
        Cursor { shown: false, x: 0, y: 0, w: 0, h: 0, maxx: 0 }
    }

    pub fn set_w(&mut self, w: i32)
        ensures
            final(self)@ == (CursorState { w: w as int, ..old(self)@ }),
    {
        self.w = w;
    }

    pub fn set_h(&mut self, h: i32)
        ensures
            final(self)@ == (CursorState { h: h as int, ..old(self)@ }),
    {
        self.h = h;
    }

    /// Sets the bound; the position is not clamped until the next move.
    pub fn set_max_day(&mut self, max_day: i32)
        ensures
            final(self)@ == (CursorState { max_day: max_day as int, ..old(self)@ }),
    {
        self.maxx = max_day;
    }

    /// Shows a hidden cursor, hides a shown one.
    pub fn change_shown(&mut self)
        ensures
            final(self)@ == (CursorState { shown: !old(self)@.shown, ..old(self)@ }),
    {
        self.shown = !self.shown;
    }

    pub fn with_w(self, w: i32) -> (r: Cursor)
        ensures
            r@ == (CursorState { w: w as int, ..self@ }),
    {
        let mut c = self;
        c.w = w;
        c
    }

    pub fn with_h(self, h: i32) -> (r: Cursor)
        ensures
            r@ == (CursorState { h: h as int, ..self@ }),
    {
        let mut c = self;
        c.h = h;
        c
    }

    pub fn with_max_day(self, max_day: i32) -> (r: Cursor)
        ensures
            r@ == (CursorState { max_day: max_day as int, ..self@ }),
    {
        let mut c = self;
        c.maxx = max_day;
        c
    }

    pub fn x(&self) -> (r: i32)
        ensures
            r == self@.x,
    {
        self.x
    }

    pub fn y(&self) -> (r: i32)
        ensures
            r == self@.y,
    {
        self.y
    }

    pub fn is_shown(&self) -> (r: bool)
        ensures
            r == self@.shown,
    {
        self.shown
    }

    pub fn max_day(&self) -> (r: i32)
        ensures
            r == self@.max_day,
    {
        self.maxx
    }

    /// Moves one cell back in reading order: from the first column to the
    /// last column of the row above; nothing at the first cell.
    pub fn move_left(&mut self)
        requires
            old(self)@.shown ==> old(self)@.movable(),
        ensures
            final(self)@ == old(self)@.moved_left(),
    {
        if !self.shown {
            return ;
        }
        if self.x > 0 {
            self.x = self.x - 1;
        } else if self.y > 0 {
            self.y = self.y - 1;
            self.x = self.w - 1;
        }
        self.clamp_to_maxx();
    }

    /// Moves one cell forward in reading order, from the last column to the
    /// first column of the next row.
    pub fn move_right(&mut self)
        requires
            old(self)@.shown ==> old(self)@.movable(),
        ensures
            final(self)@ == old(self)@.moved_right(),
    {
        if !self.shown {
            return ;
        }
        if self.x < self.w - 1 {
            self.x = self.x + 1;
        } else {
            self.x = 0;
            self.y = self.y + 1;
        }
        self.clamp_to_maxx();
    }

    /// Moves one row up; on the first row it stays, clamped.
    pub fn move_top(&mut self)
        requires
            old(self)@.shown ==> old(self)@.movable(),
        ensures
            final(self)@ == old(self)@.moved_top(),
    {
        if !self.shown {
            return ;
        }
        if self.y > 0 {
            self.y = self.y - 1;
        }
        self.clamp_to_maxx();
    }

    /// Moves one row down; the clamp keeps the cursor on a valid cell.
    pub fn move_bottom(&mut self)
        requires
            old(self)@.shown ==> old(self)@.movable(),
        ensures
            final(self)@ == old(self)@.moved_bottom(),
    {
        if !self.shown {
            return ;
        }
        self.y = self.y + 1;
        self.clamp_to_maxx();
    }

    /// Makes the move `m`.
    pub fn apply(&mut self, m: Movement)
        requires
            old(self)@.shown ==> old(self)@.movable(),
        ensures
            final(self)@ == old(self)@.step(m),
    {
        match m {
            Movement::Left => self.move_left(),
            Movement::Right => self.move_right(),
            Movement::Top => self.move_top(),
            Movement::Bottom => self.move_bottom(),
        }
    }

    /// Moves the cursor back to the last valid cell when it lies past it.
    pub fn clamp_to_maxx(&mut self)
        requires
            0 < old(self)@.w,
            1 <= old(self)@.max_day,
            0 <= old(self)@.x < old(self)@.w,
            0 <= old(self)@.y <= old(self)@.h,
            (old(self)@.h + 1) * old(self)@.w <= i32::MAX,
        ensures
            final(self)@ == old(self)@.clamped(),
    {
        proof {
            let (x, y, w, h) = (self.x as int, self.y as int, self.w as int, self.h as int);
            assert(0 <= y * w + x + 1 <= (h + 1) * w) by (nonlinear_arith)
                requires
                    0 <= x < w,
                    0 <= y <= h,
            ;
        }
        let day = self.y * self.w + self.x + 1;
        if day > self.maxx {
            let new_day = (self.maxx - 1) as u32;
            let w = self.w as u32;
            self.y = (new_day / w) as i32;
            self.x = (new_day % w) as i32;
        }
    }

    /// The 1-based index of the selected cell, when the cursor is shown and
    /// the index is within `(0, max_day]`.
    pub fn current_day(&self) -> (r: Option<i32>)
        ensures
            r is Some == self@.current_day() is Some,
            r matches Some(d) ==> self@.current_day() == Some(d as int),
    {
        if !self.shown {
            return None;
        }
        proof {
            let (x, y) = (self.x as int, self.y as int);
            let w = self.w as int;
            assert(i32::MIN * i32::MAX <= y * w <= i32::MIN * i32::MIN) by (nonlinear_arith)
                requires
                    i32::MIN <= y <= i32::MAX,
                    i32::MIN <= w <= i32::MAX,
            ;
        }
        let day = (self.y as i64) * (self.w as i64) + (self.x as i64) + 1;
        if day > 0 && day <= self.maxx as i64 {
            Some(day as i32)
        } else {
            None
        }
    }
}

/// Snapping back lands on the last valid cell, still on the grid.
proof fn lemma_clamp_lands(s: CursorState)
    requires
        0 < s.w,
        1 <= s.max_day <= s.w * s.h,
        0 <= s.x < s.w,
        0 <= s.y,
    ensures
        s.clamped().in_range(),
        0 <= s.clamped().x < s.w,
        0 <= s.clamped().y < s.h,
        s.clamped().shown == s.shown,
        s.clamped().w == s.w && s.clamped().h == s.h && s.clamped().max_day == s.max_day,
{
    let n = s.max_day - 1;
    let w = s.w;
    let h = s.h;
    if s.day() > s.max_day {
        assert(n / w * w + n % w == n) by (nonlinear_arith)
            requires
                0 < w,
                0 <= n,
        ;
        assert(0 <= n % w < w) by (nonlinear_arith)
            requires
                0 < w,
        ;
        assert(0 <= n / w < h) by (nonlinear_arith)
            requires
                0 < w,
                0 <= n < w * h,
        ;
    } else {
        assert(0 <= s.y * s.w) by (nonlinear_arith)
            requires
                0 <= s.y,
                0 < s.w,
        ;
        let (x, y) = (s.x, s.y);
        assert(y < h) by (nonlinear_arith)
            requires
                y * w + x + 1 <= s.max_day,
                s.max_day <= w * h,
                0 <= x,
                0 < w,
        ;
    }
}

/// A move keeps a movable cursor movable and, from a valid cell, on a
/// valid cell.
pub proof fn lemma_step_keeps_range(s: CursorState, m: Movement)
    requires
        s.movable(),
    ensures
        s.step(m).movable(),
        s.step(m).shown == s.shown,
        s.step(m).w == s.w && s.step(m).h == s.h && s.step(m).max_day == s.max_day,
        s.in_range() ==> s.step(m).in_range(),
{
    lemma_clamp_lands(s);
    lemma_clamp_lands(s.at(0, s.y + 1));
    lemma_clamp_lands(s.at(s.x, s.y + 1));
    if s.x > 0 {
        lemma_clamp_lands(s.at(s.x - 1, s.y));
    }
    if s.y > 0 {
        lemma_clamp_lands(s.at(s.w - 1, s.y - 1));
        lemma_clamp_lands(s.at(s.x, s.y - 1));
    }
    if s.x < s.w - 1 {
        lemma_clamp_lands(s.at(s.x + 1, s.y));
    }
}

/// Clamp idempotence: on a movable cursor that starts on a valid cell, after
/// any sequence of moves the selected day is in `[1, max_day]` while the
/// cursor is shown, and there is none while it is hidden.
pub proof fn lemma_moves_keep_day_in_range(s: CursorState, ms: Seq<Movement>)
    requires
        s.movable(),
        s.in_range(),
    ensures
        s.run(ms).movable(),
        s.run(ms).in_range(),
        s.run(ms).shown == s.shown,
        s.run(ms).max_day == s.max_day,
        s.run(ms).current_day() is None <==> !s.shown,
        s.run(ms).current_day() matches Some(d) ==> 1 <= d <= s.max_day,
    decreases ms.len(),
{
    if ms.len() > 0 {
        lemma_moves_keep_day_in_range(s, ms.drop_last());
        lemma_step_keeps_range(s.run(ms.drop_last()), ms.last());
    }
}

/// The same with the cursor shown and hidden between moves: after any
/// sequence of moves and toggles, the selected day is in `[1, max_day]`
/// while the cursor is shown, and there is none while it is hidden.
pub proof fn lemma_steps_keep_day_in_range(s: CursorState, ss: Seq<CursorStep>)
    requires
        s.movable(),
        s.in_range(),
    ensures
        s.run_steps(ss).movable(),
        s.run_steps(ss).in_range(),
        s.run_steps(ss).max_day == s.max_day,
        s.run_steps(ss).current_day() is None <==> !s.run_steps(ss).shown,
        s.run_steps(ss).current_day() matches Some(d) ==> 1 <= d <= s.max_day,
    decreases ss.len(),
{
    if ss.len() > 0 {
        lemma_steps_keep_day_in_range(s, ss.drop_last());
        let prev = s.run_steps(ss.drop_last());
        match ss.last() {
            CursorStep::Move(m) => lemma_step_keeps_range(prev, m),
            CursorStep::ToggleShown => {},
        }
    }
}

} // verus!
