use vstd::prelude::*;
use crate::event::{is_press_of, Event, KeyCode};
use crate::view::{AppState, FocusStatus, Focusable, FocusableView, View, ViewError};
use vstd::view::View as _;
use vstd::arithmetic::div_mod::{lemma_add_mod_noop, lemma_mod_self_0, lemma_small_mod};

verus! {

/// The tab after `i` among `n`, wrapping to the first.
pub open spec fn next_index(i: int, n: int) -> int {
    if i + 1 >= n {
        0
    } else {
        i + 1
    }
}

/// The tab reached from `i` after `k` switches among `n`.
pub open spec fn cycled(i: int, n: int, k: nat) -> int
    decreases k,
{
    if k == 0 {
        i
    } else {
        next_index(cycled(i, n, (k - 1) as nat), n)
    }
}

/// A tab group: an ordered list of views of which exactly one is active. A
/// press of the switch key makes the next one active; focus and events go
/// to the active view only.
pub struct ViewSwitcher<V> {
    curr_view_idx: usize,
    switch_char: char,
    views: Vec<V>,
    focused: bool,
}

impl<V: FocusableView> ViewSwitcher<V> {
    /// The views, in order.
    pub closed spec fn children(&self) -> Seq<V> {
        self.views@
    }

    /// The position of the active view.
    pub closed spec fn index(&self) -> int {
        self.curr_view_idx as int
    }

    /// The character whose press switches views.
    pub closed spec fn switch_key(&self) -> char {
        self.switch_char
    }

    /// `new` is `old` after a switch: the next view is active, the previous
    /// one lost the focus, the others are untouched.
    pub open spec fn switched(old: ViewSwitcher<V>, new: ViewSwitcher<V>) -> bool {
        let n = old.children().len();
        &&& new.children().len() == n
        &&& new.switch_key() == old.switch_key()
        &&& new.focused() == old.focused()
        &&& new.index() == next_index(old.index(), n as int)
        &&& forall|j: int|
            0 <= j < n && j != old.index() && j != new.index() ==> #[trigger] new.children()[j]
                == old.children()[j]
        &&& new.index() != old.index() ==> V::refocused(
            old.children()[old.index()],
            new.children()[old.index()],
            false,
        )
    }

    /// An unfocused switcher without views.
    pub fn new(switch_char: char) -> (r: ViewSwitcher<V>)
        ensures
            r.inv(),
            !r.focused(),
            r.children().len() == 0,
            r.index() == 0,
            r.switch_key() == switch_char,
    {
        ViewSwitcher { curr_view_idx: 0, switch_char, views: Vec::new(), focused: false }
    }

    /// The same switcher over `views`, the first of them active. Only the
    /// active view takes the switcher's focus; the others are unfocused.
    pub fn with_views(self, views: Vec<V>) -> (r: ViewSwitcher<V>)
        requires
            self.inv(),
            forall|i: int| 0 <= i < views@.len() ==> (#[trigger] views@[i]).inv(),
        ensures
            r.inv(),
            r.focused() == self.focused(),
            r.children().len() == views@.len(),
            r.index() == 0,
            r.switch_key() == self.switch_key(),
    {
        let mut src = views;
        let mut out: Vec<V> = Vec::new();
        let n = src.len();
        let focused = self.focused;
        while src.len() > 0
            invariant
                out@.len() + src@.len() == n,
                forall|i: int| 0 <= i < src@.len() ==> (#[trigger] src@[i]).inv(),
                forall|i: int|
                    0 <= i < out@.len() ==> (#[trigger] out@[i]).inv() && out@[i].focused() == (
                    focused && i == 0),
            decreases src@.len(),
        {
            let mut v = src.remove(0);
            if focused && out.len() == 0 {
                v.focus();
            } else {
                v.unfocus();
            }
            out.push(v);
        }
        ViewSwitcher { curr_view_idx: 0, switch_char: self.switch_char, views: out, focused }
    }

    /// The position of the active view.
    pub fn active_index(&self) -> (r: usize)
        ensures
            r == self.index(),
    {
        self.curr_view_idx
    }

    /// The number of views.
    pub fn len(&self) -> (r: usize)
        ensures
            r == self.children().len(),
    {
        self.views.len()
    }

    /// The active view, if there is one.
    pub fn current(&self) -> (r: Option<&V>)
        requires
            self.inv(),
        ensures
            r is Some == (self.children().len() > 0),
            r matches Some(v) ==> *v == self.children()[self.index()],
    {
        if self.views.len() == 0 {
            None
        } else {
            Some(&self.views[self.curr_view_idx])
        }
    }

    /// Makes the next view active, moving the focus with it.
    fn next_view(&mut self)
        requires
            old(self).inv(),
        ensures
            final(self).inv(),
            final(self).focused() == old(self).focused(),
            final(self).children().len() == old(self).children().len(),
            final(self).switch_key() == old(self).switch_key(),
            old(self).children().len() > 0 ==> ViewSwitcher::switched(*old(self), *final(self)),
            old(self).children().len() == 0 ==> *final(self) == *old(self),
    {
        if self.views.len() == 0 {
            return ;
        }
        let old_idx = self.curr_view_idx;
        self.views[old_idx].unfocus();
        let ghost after_unfocus = self.views@[old_idx as int];
        let mut idx = old_idx + 1;
        if idx >= self.views.len() {
            idx = 0;
        }
        self.curr_view_idx = idx;
        if self.focused {
            self.views[idx].focus();
        } else {
            self.views[idx].unfocus();
        }
        proof {
            assert forall|i: int| 0 <= i < self.views@.len() implies (
            #[trigger] self.views@[i]).inv() && self.views@[i].focused() == (self.focused && i
                == idx) by {
                if i != idx && i != old_idx {
                    assert(self.views@[i] == old(self).views@[i]);
                }
            }
            if idx != old_idx {
                assert(self.views@[old_idx as int] == after_unfocus);
            }
        }
    }

    /// Every view but the active one is unfocused; the active one is
    /// focused exactly when the switcher is.
    pub proof fn lemma_focus_on_active(&self)
        requires
            self.inv(),
        ensures
            forall|i: int|
                0 <= i < self.children().len() ==> (#[trigger] self.children()[i]).focused() == (
                self.focused() && i == self.index()),
    {
    }
}

/// Switching `n` times among `n` views comes back to the view it started
/// from.
pub proof fn lemma_cycle_returns(start: int, n: int)
    requires
        1 <= n,
        0 <= start < n,
    ensures
        cycled(start, n, n as nat) == start,
{
    lemma_cycled_mod(start, n, n as nat);
    assert((start + n) % n == start) by (nonlinear_arith)
        requires
            0 <= start < n,
    ;
}

proof fn lemma_cycled_mod(start: int, n: int, k: nat)
    requires
        1 <= n,
        0 <= start < n,
    ensures
        cycled(start, n, k) == (start + k) % n,
    decreases k,
{
    if k == 0 {
        lemma_small_mod(start as nat, n as nat);
    } else {
        lemma_cycled_mod(start, n, (k - 1) as nat);
        let x = start + k - 1;
        let p = x % n;
        lemma_add_mod_noop(x, 1, n);
        if n == 1 {
            assert(p == 0 && (start + k) % n == 0);
        } else {
            lemma_small_mod(1, n as nat);
            if p + 1 < n {
                lemma_small_mod((p + 1) as nat, n as nat);
            } else {
                lemma_mod_self_0(n);
            }
        }
    }
}

impl<V: FocusableView> View for ViewSwitcher<V> {
    closed spec fn inv(&self) -> bool {
        &&& (self.views@.len() > 0 ==> self.curr_view_idx < self.views@.len())
        &&& (self.views@.len() == 0 ==> self.curr_view_idx == 0)
        &&& forall|i: int|
            0 <= i < self.views@.len() ==> (#[trigger] self.views@[i]).inv() && self.views@[i].focused()
                == (self.focused && i == self.curr_view_idx)
    }

    closed spec fn focused(&self) -> bool {
        self.focused
    }

    /// A press of the switch key makes the next view active.
    fn handle_event(&mut self, e: &Event, state: &mut AppState) -> (r: Result<(), ViewError>)
        ensures
            final(self).children().len() == old(self).children().len(),
            final(self).switch_key() == old(self).switch_key(),
            *final(state) == *old(state),
            r.is_ok(),
            is_press_of(*e, KeyCode::Char(old(self).switch_key())) && old(self).children().len()
                > 0 ==> ViewSwitcher::switched(*old(self), *final(self)),
            !(is_press_of(*e, KeyCode::Char(old(self).switch_key())) && old(self).children().len()
                > 0) ==> *final(self) == *old(self),
    {
        if let Some(KeyCode::Char(c)) = e.pressed_key() {
            if c == self.switch_char {
                self.next_view();
            }
        }
        Ok(())
    }

    /// The active view is refreshed; the others are untouched.
    open spec fn updated(old: Self, new: Self) -> bool {
        let n = old.children().len();
        &&& new.index() == old.index()
        &&& new.children().len() == n
        &&& new.switch_key() == old.switch_key()
        &&& n > 0 ==> V::updated(old.children()[old.index()], new.children()[old.index()])
        &&& forall|j: int|
            0 <= j < n && j != old.index() ==> #[trigger] new.children()[j] == old.children()[j]
    }

    fn update(&mut self) {
        if self.views.len() > 0 {
            let idx = self.curr_view_idx;
            self.views[idx].update();
            proof {
                assert forall|i: int| 0 <= i < self.views@.len() implies (
                #[trigger] self.views@[i]).inv() && self.views@[i].focused() == (self.focused && i
                    == idx) by {
                    if i != idx {
                        assert(self.views@[i] == old(self).views@[i]);
                    }
                }
            }
        }
    }
}

impl<V: FocusableView> Focusable for ViewSwitcher<V> {
    /// The flag goes to the active view; the index and the other views stay.
    open spec fn refocused(old: Self, new: Self, f: bool) -> bool {
        let n = old.children().len();
        &&& new.index() == old.index()
        &&& new.children().len() == n
        &&& new.switch_key() == old.switch_key()
        &&& new.focused() == f
        &&& n > 0 ==> V::refocused(old.children()[old.index()], new.children()[old.index()], f)
        &&& forall|j: int|
            0 <= j < n && j != old.index() ==> #[trigger] new.children()[j] == old.children()[j]
    }

    fn focus(&mut self) {
        self.set_focus(true);
    }

    fn unfocus(&mut self) {
        self.set_focus(false);
    }

    fn toggle_focus(&mut self) {
        let f = !self.focused;
        self.set_focus(f);
    }
}

impl<V: FocusableView> ViewSwitcher<V> {
    /// Sets the switcher's flag and passes it to the active view.
    fn set_focus(&mut self, f: bool)
        requires
            old(self).inv(),
        ensures
            final(self).inv(),
            final(self).focused() == f,
            ViewSwitcher::refocused(*old(self), *final(self), f),
    {
        self.focused = f;
        if self.views.len() > 0 {
            let idx = self.curr_view_idx;
            if f {
                self.views[idx].focus();
            } else {
                self.views[idx].unfocus();
            }
            proof {
                assert forall|i: int| 0 <= i < self.views@.len() implies (
                #[trigger] self.views@[i]).inv() && self.views@[i].focused() == (self.focused && i
                    == idx) by {
                    if i != idx {
                        assert(self.views@[i] == old(self).views@[i]);
                    }
                }
            }
        }
    }
}

impl<V: FocusableView> FocusStatus for ViewSwitcher<V> {
    fn is_focused(&self) -> (r: bool) {
        self.focused
    }
}

impl<V: FocusableView> FocusableView for ViewSwitcher<V> {
    /// When focused, the switcher takes its switch key first; the event then
    /// goes to the (new) active view's gated handler alone, whose result is
    /// returned. An unfocused switcher changes nothing.
    open spec fn gated(
        old: Self,
        e: Event,
        st: AppState,
        new: Self,
        new_st: AppState,
        r: Result<(), ViewError>,
    ) -> bool {
        let n = old.children().len();
        let sw = is_press_of(e, KeyCode::Char(old.switch_key()));
        &&& new.children().len() == n
        &&& new.switch_key() == old.switch_key()
        &&& new.focused() == old.focused()
        &&& (!old.focused() || n == 0) ==> new == old && new_st == st && r.is_ok()
        &&& old.focused() && n > 0 ==> {
            &&& new.index() == if sw {
                next_index(old.index(), n as int)
            } else {
                old.index()
            }
            &&& forall|j: int|
                0 <= j < n && j != old.index() && j != new.index() ==> #[trigger] new.children()[j]
                    == old.children()[j]
            &&& !sw ==> V::gated(
                old.children()[old.index()],
                e,
                st,
                new.children()[old.index()],
                new_st,
                r,
            )
            &&& sw && new.index() != old.index() ==> V::refocused(
                old.children()[old.index()],
                new.children()[old.index()],
                false,
            )
            &&& sw ==> exists|m: V|
                m.focused() && #[trigger] V::gated(m, e, st, new.children()[new.index()], new_st, r)
        }
    }

    fn handle_event_if_focused(&mut self, e: &Event, state: &mut AppState) -> (r: Result<
        (),
        ViewError,
    >) {
        if !self.focused {
            // every view is unfocused then, so none of them would react
            return Ok(());
        }
        let ghost sw = is_press_of(*e, KeyCode::Char(self.switch_char));
        self.handle_event(e, state)?;
        let ghost mid = *self;
        if self.views.len() == 0 {
            return Ok(());
        }
        let idx = self.curr_view_idx;
        let ghost m = self.views@[idx as int];
        let ghost st1 = *state;
        let r = self.views[idx].handle_event_if_focused(e, state);
        proof {
            assert forall|i: int| 0 <= i < self.views@.len() implies (#[trigger] self.views@[i]).inv()
                && self.views@[i].focused() == (self.focused && i == idx) by {
                if i != idx {
                    assert(self.views@[i] == mid.views@[i]);
                }
            }
            assert(m.focused());
            assert(V::gated(m, *e, st1, self.views@[idx as int], *state, r));
            assert(st1 == *old(state));
            assert forall|j: int|
                0 <= j < self.views@.len() && j != old(self).curr_view_idx && j != idx implies #[trigger] self.children()[j]
                    == old(self).children()[j] by {
                assert(self.views@[j] == mid.views@[j]);
            }
            if sw {
                if idx != old(self).curr_view_idx {
                    assert(self.views@[old(self).curr_view_idx as int] == mid.views@[old(self).curr_view_idx as int]);
                }
            } else {
                assert(mid == *old(self));
            }
        }
        r
    }
}

} // verus!
