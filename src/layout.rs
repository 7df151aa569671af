use vstd::prelude::*;
use crate::event::{is_press_of, Event, KeyCode};
use crate::view::{AppState, FocusStatus, Focusable, FocusableView, Rect, View, ViewError};

verus! {

/// The width of the main pane: three quarters of the whole, rounded down.
pub open spec fn main_width(width: int) -> int {
    width * 3 / 4
}

/// The main pane: the left three quarters.
pub open spec fn main_area(a: Rect) -> Rect {
    Rect { x: a.x, y: a.y, width: main_width(a.width as int) as u16, height: a.height }
}

/// The one-cell divider right of the main pane.
pub open spec fn divider_area(a: Rect) -> Rect {
    Rect { x: (a.x + main_width(a.width as int)) as u16, y: a.y, width: 1, height: a.height }
}

/// The side pane: what is left right of the divider (its origin held at
/// the edge of the coordinate space).
pub open spec fn side_area(a: Rect) -> Rect {
    let x = a.x + main_width(a.width as int) + 1;
    let w = a.width - main_width(a.width as int) - 1;
    Rect {
        x: if x <= u16::MAX { x as u16 } else { u16::MAX },
        y: a.y,
        width: if w > 0 { w as u16 } else { 0 },
        height: a.height,
    }
}

/// Two panes side by side, "main" and "side". While the layout is focused
/// exactly one pane is; the space key swaps which. Unfocusing remembers the
/// focused pane, and focusing again restores it.
pub struct Layout<V, J> {
    v: V,
    j: J,
    focused: bool,
    was_v_focused: bool,
}

impl<V: FocusableView + FocusStatus, J: FocusableView + FocusStatus> Layout<V, J> {
    pub closed spec fn main_pane(&self) -> V {
        self.v
    }

    pub closed spec fn side_pane(&self) -> J {
        self.j
    }

    /// Whether the main pane is the one that focusing restores.
    pub closed spec fn remembers_main(&self) -> bool {
        self.was_v_focused
    }

    /// An unfocused layout of `v` (main) and `j` (side) that will focus the
    /// main pane first. Both panes are unfocused.
    pub fn new(v: V, j: J) -> (r: Layout<V, J>)
        requires
            v.inv(),
            j.inv(),
        ensures
            r.inv(),
            V::refocused(v, r.main_pane(), false),
            J::refocused(j, r.side_pane(), false),
            !r.focused(),
            r.remembers_main(),
            !r.main_pane().focused(),
            !r.side_pane().focused(),
    {
        let mut v = v;
        let mut j = j;
        v.unfocus();
        j.unfocus();
        Layout { v, j, focused: false, was_v_focused: true }
    }

    pub fn main_view(&self) -> (r: &V)
        ensures
            *r == self.main_pane(),
    {
        &self.v
    }

    pub fn side_view(&self) -> (r: &J)
        ensures
            *r == self.side_pane(),
    {
        &self.j
    }

    /// The main pane, the divider and the side pane inside `area`.
    pub fn areas(&self, area: Rect) -> (r: (Rect, Rect, Rect))
        requires
            area.fits(),
        ensures
            r.0 == main_area(area),
            r.1 == divider_area(area),
            r.2 == side_area(area),
            r.0.fits() && r.2.fits(),
            r.0.width + r.1.width + r.2.width <= area.width || area.width == 0,
    {
        let split = (area.width as u32) * 3 / 4;
        let main = Rect { x: area.x, y: area.y, width: split as u16, height: area.height };
        let divider = Rect {
            x: (area.x as u32 + split) as u16,
            y: area.y,
            width: 1,
            height: area.height,
        };
        let side_x = area.x as u32 + split + 1;
        let rest = area.width as u32 - split;
        let side = Rect {
            x: if side_x <= u16::MAX as u32 { side_x as u16 } else { u16::MAX },
            y: area.y,
            width: if rest > 1 { (rest - 1) as u16 } else { 0 },
            height: area.height,
        };
        (main, divider, side)
    }

    /// Swaps the focused pane.
    fn change_focus(&mut self)
        requires
            old(self).inv(),
            old(self).focused,
        ensures
            final(self).inv(),
            final(self).focused == old(self).focused,
            final(self).was_v_focused == old(self).was_v_focused,
            V::refocused(old(self).v, final(self).v, !old(self).v.focused()),
            J::refocused(old(self).j, final(self).j, !old(self).j.focused()),
            final(self).v.focused() == !old(self).v.focused(),
            final(self).j.focused() == !old(self).j.focused(),
    {
        self.v.toggle_focus();
        self.j.toggle_focus();
    }
}

impl<V: FocusableView + FocusStatus, J: FocusableView + FocusStatus> View for Layout<V, J> {
    closed spec fn inv(&self) -> bool {
        &&& self.v.inv()
        &&& self.j.inv()
        &&& self.focused ==> self.v.focused() != self.j.focused()
        &&& !self.focused ==> !self.v.focused() && !self.j.focused()
    }

    closed spec fn focused(&self) -> bool {
        self.focused
    }

    /// While the layout is focused, a press of space swaps the focused pane.
    fn handle_event(&mut self, e: &Event, state: &mut AppState) -> (r: Result<(), ViewError>)
        ensures
            r.is_ok(),
            *final(state) == *old(state),
            final(self).remembers_main() == old(self).remembers_main(),
            old(self).focused() && is_press_of(*e, KeyCode::Char(' ')) ==> {
                &&& V::refocused(old(self).main_pane(), final(self).main_pane(), !old(self).main_pane().focused())
                &&& J::refocused(old(self).side_pane(), final(self).side_pane(), !old(self).side_pane().focused())
                &&& final(self).main_pane().focused() == !old(self).main_pane().focused()
                &&& final(self).side_pane().focused() == !old(self).side_pane().focused()
            },
            !(old(self).focused() && is_press_of(*e, KeyCode::Char(' '))) ==> *final(self) == *old(self),
    {
        if self.focused {
            if let Some(KeyCode::Char(' ')) = e.pressed_key() {
                self.change_focus();
            }
        }
        Ok(())
    }

    /// Both panes are refreshed.
    open spec fn updated(old: Self, new: Self) -> bool {
        &&& V::updated(old.main_pane(), new.main_pane())
        &&& J::updated(old.side_pane(), new.side_pane())
        &&& new.remembers_main() == old.remembers_main()
    }

    fn update(&mut self) {
        self.v.update();
        self.j.update();
    }
}

impl<V: FocusableView + FocusStatus, J: FocusableView + FocusStatus> Focusable for Layout<V, J> {
    /// Focusing gives the remembered pane the focus and takes it from the
    /// other; unfocusing remembers the main pane's focus and clears both.
    open spec fn refocused(old: Self, new: Self, f: bool) -> bool {
        &&& new.focused() == f
        &&& f ==> {
            &&& V::refocused(old.main_pane(), new.main_pane(), old.remembers_main())
            &&& J::refocused(old.side_pane(), new.side_pane(), !old.remembers_main())
            &&& new.remembers_main() == old.remembers_main()
        }
        &&& !f ==> {
            &&& V::refocused(old.main_pane(), new.main_pane(), false)
            &&& J::refocused(old.side_pane(), new.side_pane(), false)
            &&& new.remembers_main() == old.main_pane().focused()
        }
    }

    /// Focuses the remembered pane and unfocuses the other.
    fn focus(&mut self)
        ensures
            final(self).main_pane().focused() == old(self).remembers_main(),
            final(self).side_pane().focused() == !old(self).remembers_main(),
            final(self).main_pane().focused() != final(self).side_pane().focused(),
            final(self).remembers_main() == old(self).remembers_main(),
    {
        self.focused = true;
        if self.was_v_focused {
            self.j.unfocus();
            self.v.focus();
        } else {
            self.v.unfocus();
            self.j.focus();
        }
    }

    /// Remembers which pane was focused, then unfocuses both.
    fn unfocus(&mut self)
        ensures
            final(self).remembers_main() == old(self).main_pane().focused(),
            !final(self).main_pane().focused(),
            !final(self).side_pane().focused(),
    {
        self.was_v_focused = self.v.is_focused();
        self.focused = false;
        self.v.unfocus();
        self.j.unfocus();
    }

    fn toggle_focus(&mut self)
        ensures
            final(self).focused() ==> final(self).main_pane().focused() != final(self).side_pane().focused(),
            !final(self).focused() ==> !final(self).main_pane().focused() && !final(self).side_pane().focused(),
    {
        if self.focused {
            self.unfocus();
        } else {
            self.focus();
        }
    }
}

impl<V: FocusableView + FocusStatus, J: FocusableView + FocusStatus> FocusStatus for Layout<V, J> {
    fn is_focused(&self) -> (r: bool) {
        self.focused
    }
}

impl<V: FocusableView + FocusStatus, J: FocusableView + FocusStatus> FocusableView for Layout<
    V,
    J,
> {
    /// When focused: the space key swaps the panes' focus first; then the
    /// event goes to the main pane's gated handler and, unless that fails,
    /// to the side pane's. Only the focused pane reacts, and its result is
    /// returned. An unfocused layout changes nothing.
    open spec fn gated(
        old: Self,
        e: Event,
        st: AppState,
        new: Self,
        new_st: AppState,
        r: Result<(), ViewError>,
    ) -> bool {
        let swap = is_press_of(e, KeyCode::Char(' '));
        let main_active = if swap {
            !old.main_pane().focused()
        } else {
            old.main_pane().focused()
        };
        &&& new.focused() == old.focused()
        &&& new.remembers_main() == old.remembers_main()
        &&& !old.focused() ==> new == old && new_st == st && r.is_ok()
        &&& old.focused() && !swap ==> {
            &&& main_active ==> V::gated(old.main_pane(), e, st, new.main_pane(), new_st, r)
                && new.side_pane() == old.side_pane()
            &&& !main_active ==> J::gated(old.side_pane(), e, st, new.side_pane(), new_st, r)
                && new.main_pane() == old.main_pane()
        }
        &&& old.focused() && swap ==> {
            &&& main_active ==> J::refocused(old.side_pane(), new.side_pane(), false) && exists|
                m: V,
            |
                V::refocused(old.main_pane(), m, true) && #[trigger] V::gated(
                    m,
                    e,
                    st,
                    new.main_pane(),
                    new_st,
                    r,
                )
            &&& !main_active ==> V::refocused(old.main_pane(), new.main_pane(), false) && exists|
                m: J,
            |
                J::refocused(old.side_pane(), m, true) && #[trigger] J::gated(
                    m,
                    e,
                    st,
                    new.side_pane(),
                    new_st,
                    r,
                )
        }
    }

    fn handle_event_if_focused(&mut self, e: &Event, state: &mut AppState) -> (r: Result<
        (),
        ViewError,
    >) {
        if !self.focused {
            return Ok(());
        }
        self.handle_event(e, state)?;
        let ghost v1 = self.v;
        let ghost j1 = self.j;
        let ghost st1 = *state;
        let ghost swap = is_press_of(*e, KeyCode::Char(' '));
        proof {
            assert(st1 == *old(state));
            if !swap {
                assert(v1 == old(self).v && j1 == old(self).j);
            }
            assert(v1.focused() != j1.focused());
        }
        let rv = self.v.handle_event_if_focused(e, state);
        if rv.is_err() {
            proof {
                assert(v1.focused());
                assert(V::gated(v1, *e, st1, self.v, *state, rv));
                if swap {
                    assert(V::refocused(old(self).main_pane(), v1, true) && V::gated(v1, *e, *old(state), self.main_pane(), *state, rv));
                    assert(J::refocused(old(self).j, self.j, false));
                }
            }
            return rv;
        }
        let ghost v2 = self.v;
        let ghost st2 = *state;
        let rj = self.j.handle_event_if_focused(e, state);
        proof {
            assert(V::gated(v1, *e, st1, v2, st2, rv));
            assert(J::gated(j1, *e, st2, self.j, *state, rj));
            if v1.focused() {
                assert(!j1.focused());
                assert(self.j == j1);
                assert(*state == st2);
                assert(rj.is_ok() && rv.is_ok());
                assert(rj->Ok_0 == rv->Ok_0);
                assert(rj == rv);
                if swap {
                    assert(V::refocused(old(self).v, v1, true));
                    assert(V::refocused(old(self).main_pane(), v1, true) && V::gated(v1, *e, *old(state), self.main_pane(), *state, rj));
                    assert(J::refocused(old(self).j, self.j, false));
                }
            } else {
                assert(v2 == v1 && st2 == st1);
                if swap {
                    assert(J::refocused(old(self).j, j1, true));
                    assert(J::refocused(old(self).side_pane(), j1, true) && J::gated(j1, *e, *old(state), self.side_pane(), *state, rj));
                    assert(V::refocused(old(self).v, self.v, false));
                }
            }
        }
        rj
    }
}

impl<V: FocusableView + FocusStatus, J: FocusableView + FocusStatus> Layout<V, J> {
    /// Exactly one pane is focused while the layout is, none while it is not.
    pub proof fn lemma_focus_exclusive(&self)
        requires
            self.inv(),
        ensures
            self.focused() ==> self.main_pane().focused() != self.side_pane().focused(),
            !self.focused() ==> !self.main_pane().focused() && !self.side_pane().focused(),
    {
    }
}

} // verus!
