use vstd::prelude::*;
use crate::event::{pressed, Event, KeyCode};
use crate::view::{
    AppState, FocusableView, Rect, Resettable, View, ViewError, ViewWithCursorControl,
};
use vstd::view::View as _;

verus! {

/// `i` is the first position of `k` in `ts`.
pub open spec fn is_first_match(ts: Seq<KeyCode>, k: KeyCode, i: int) -> bool {
    &&& 0 <= i < ts.len()
    &&& ts[i] == k
    &&& forall|j: int| 0 <= j < i ==> ts[j] != k
}

/// The first position of `k` in `ts`, if it occurs.
pub open spec fn trigger_of(ts: Seq<KeyCode>, k: KeyCode) -> Option<int> {
    if exists|i: int| is_first_match(ts, k, i) {
        Some(choose|i: int| is_first_match(ts, k, i))
    } else {
        None
    }
}

/// The position of the popup that a press of `k` opens when none is open.
pub fn find_trigger(ts: &Vec<KeyCode>, k: KeyCode) -> (r: Option<usize>)
    ensures
        r matches Some(i) ==> trigger_of(ts@, k) == Some(i as int),
        r is None ==> trigger_of(ts@, k) is None,
{
    let mut i: usize = 0;
    while i < ts.len()
        invariant
            i <= ts@.len(),
            forall|j: int| 0 <= j < i ==> ts@[j] != k,
        decreases ts@.len() - i,
    {
        if ts[i] == k {
            proof {
                assert(is_first_match(ts@, k, i as int));
                lemma_first_match_unique(ts@, k, i as int);
            }
            return Some(i);
        }
        i = i + 1;
    }
    None
}

proof fn lemma_first_match_unique(ts: Seq<KeyCode>, k: KeyCode, i: int)
    requires
        is_first_match(ts, k, i),
    ensures
        trigger_of(ts, k) == Some(i),
{
    let c = choose|c: int| is_first_match(ts, k, c);
    assert(is_first_match(ts, k, c));
    if c < i {
        assert(ts[c] != k);
    } else if c > i {
        assert(ts[i] != k);
    }
}

/// The root of the tree: a base view and popups, each opened by its own
/// trigger key. At most one popup is open, and then the base is unfocused
/// and gets no events; Escape closes the open popup and refocuses the base.
pub struct PopupHost<V, P> {
    inner: V,
    popups: Vec<P>,
    popups_triggers: Vec<KeyCode>,
    active_popup: Option<usize>,
}

impl<
    V: FocusableView,
    P: FocusableView + ViewWithCursorControl + Resettable,
> PopupHost<V, P> {
    pub closed spec fn base(&self) -> V {
        self.inner
    }

    pub closed spec fn popups(&self) -> Seq<P> {
        self.popups@
    }

    pub closed spec fn triggers(&self) -> Seq<KeyCode> {
        self.popups_triggers@
    }

    /// The position of the open popup.
    pub closed spec fn active(&self) -> Option<int> {
        match self.active_popup {
            Some(i) => Some(i as int),
            None => None,
        }
    }

    /// The popup that `e` opens: a press of a trigger key other than Escape
    /// while no popup is open.
    pub open spec fn popup_opened_by(&self, e: Event) -> Option<int> {
        match pressed(e) {
            Some(k) => if k != KeyCode::Esc && self.active() is None {
                trigger_of(self.triggers(), k)
            } else {
                None
            },
            None => None,
        }
    }

    /// A host of `inner` without popups; the base gets the focus.
    pub fn new(inner: V) -> (r: PopupHost<V, P>)
        requires
            inner.inv(),
        ensures
            r.inv(),
            r.base().focused(),
            V::refocused(inner, r.base(), true),
            r.active() is None,
            r.popups().len() == 0,
            r.triggers().len() == 0,
    {
        let mut inner = inner;
        inner.focus();
        PopupHost { inner, popups: Vec::new(), popups_triggers: Vec::new(), active_popup: None }
    }

    /// The same host with `popups`, the one at position `i` opened by
    /// `popups_triggers[i]`. All of them start closed and the base focused
    /// (it is refocused only if a popup was open before).
    pub fn with_popups(self, popups: Vec<P>, popups_triggers: Vec<KeyCode>) -> (r: PopupHost<V, P>)
        requires
            self.inv(),
            popups@.len() == popups_triggers@.len(),
            forall|i: int| 0 <= i < popups@.len() ==> (#[trigger] popups@[i]).inv(),
        ensures
            r.inv(),
            r.active() is None,
            r.base().focused(),
            self.active() is None ==> r.base() == self.base(),
            self.active() is Some ==> V::refocused(self.base(), r.base(), true),
            r.popups().len() == popups@.len(),
            r.triggers() == popups_triggers@,
            forall|i: int|
                0 <= i < r.popups().len() ==> P::refocused(popups@[i], #[trigger] r.popups()[i], false),
    {
        let ghost given = popups@;
        let mut src = popups;
        let mut out: Vec<P> = Vec::new();
        let n = src.len();
        while src.len() > 0
            invariant
                out@.len() + src@.len() == n,
                n == given.len(),
                src@ == given.subrange(out@.len() as int, n as int),
                forall|i: int| 0 <= i < given.len() ==> (#[trigger] given[i]).inv(),
                forall|i: int|
                    0 <= i < out@.len() ==> (#[trigger] out@[i]).inv() && !out@[i].focused()
                        && P::refocused(given[i], out@[i], false),
            decreases src@.len(),
        {
            let ghost k = out@.len();
            let mut p = src.remove(0);
            assert(p == given[k as int]);
            p.unfocus();
            out.push(p);
            assert(src@ =~= given.subrange(out@.len() as int, n as int));
        }
        let mut inner = self.inner;
        if self.active_popup.is_some() {
            inner.focus();
        }
        PopupHost { inner, popups: out, popups_triggers, active_popup: None }
    }

    pub fn base_view(&self) -> (r: &V)
        ensures
            *r == self.base(),
    {
        &self.inner
    }

    /// The position of the open popup, if one is open.
    pub fn active_popup(&self) -> (r: Option<usize>)
        ensures
            r matches Some(i) ==> self.active() == Some(i as int),
            r is None ==> self.active() is None,
    {
        self.active_popup
    }

    /// The open popup, if one is open.
    pub fn active_popup_view(&self) -> (r: Option<&P>)
        requires
            self.inv(),
        ensures
            r is Some == self.active() is Some,
            r matches Some(p) ==> *p == self.popups()[self.active().unwrap()],
    {
        match self.active_popup {
            Some(i) => Some(&self.popups[i]),
            None => None,
        }
    }

    /// Opens the popup at `idx`: it is reset first; if that fails nothing
    /// else changes. Otherwise the base loses the focus and the popup gets it.
    fn show(&mut self, idx: usize) -> (r: Result<(), ViewError>)
        requires
            old(self).inv(),
            old(self).active_popup is None,
            idx < old(self).popups@.len(),
        ensures
            final(self).inv(),
            final(self).popups_triggers == old(self).popups_triggers,
            final(self).popups@.len() == old(self).popups@.len(),
            old(self).popups@[idx as int].can_reset() ==> r.is_ok(),
            r.is_ok() ==> {
                &&& final(self).active() == Some(idx as int)
                &&& V::refocused(old(self).inner, final(self).inner, false)
                &&& final(self).popups@[idx as int].focused()
                &&& exists|m: P|
                    P::reset_done(old(self).popups@[idx as int], m) && #[trigger] P::refocused(
                        m,
                        final(self).popups@[idx as int],
                        true,
                    )
                &&& forall|j: int|
                    0 <= j < old(self).popups@.len() && j != idx ==> #[trigger] final(self).popups@[j]
                        == old(self).popups@[j]
            },
            r.is_err() ==> {
                &&& final(self).inner == old(self).inner
                &&& final(self).popups@ == old(self).popups@
                &&& final(self).active_popup is None
            },
    {
        let res = self.popups[idx].reset();
        if res.is_err() {
            proof {
                assert(self.popups@ =~= old(self).popups@);
            }
            return res;
        }
        let ghost m = self.popups@[idx as int];
        self.inner.unfocus();
        self.active_popup = Some(idx);
        self.popups[idx].focus();
        proof {
            assert(P::refocused(m, self.popups@[idx as int], true));
            assert forall|i: int| 0 <= i < self.popups@.len() implies (#[trigger] self.popups@[i]).inv()
                && (self.popups@[i].focused() ==> i == idx) by {
                if i != idx {
                    assert(self.popups@[i] == old(self).popups@[i]);
                }
            }
        }
        Ok(())
    }

    /// Closes the open popup, if any, and focuses the base.
    fn close_active(&mut self)
        requires
            old(self).inv(),
        ensures
            final(self).inv(),
            final(self).active_popup is None,
            final(self).popups_triggers == old(self).popups_triggers,
            final(self).popups@.len() == old(self).popups@.len(),
            V::refocused(old(self).inner, final(self).inner, true),
            forall|i: int|
                0 <= i < final(self).popups@.len() ==> !(#[trigger] final(self).popups@[i]).focused(),
            forall|i: int|
                0 <= i < final(self).popups@.len() && old(self).active() != Some(i)
                    ==> #[trigger] final(self).popups@[i] == old(self).popups@[i],
            old(self).active() matches Some(a) ==> P::refocused(
                old(self).popups@[a],
                final(self).popups@[a],
                false,
            ),
    {
        if let Some(i) = self.active_popup {
            self.popups[i].unfocus();
            proof {
                assert forall|j: int| 0 <= j < self.popups@.len() implies (
                #[trigger] self.popups@[j]).inv() && !self.popups@[j].focused() by {
                    if j != i {
                        assert(self.popups@[j] == old(self).popups@[j]);
                        assert(old(self).popups@[j].inv());
                        assert(old(self).popups@[j].focused() ==> old(self).active() == Some(j));
                    }
                }
            }
        } else {
            proof {
                assert forall|j: int| 0 <= j < self.popups@.len() implies !(
                #[trigger] self.popups@[j]).focused() by {
                    assert(old(self).popups@[j].inv());
                }
            }
        }
        self.active_popup = None;
        self.inner.focus();
    }
}

impl<
    V: FocusableView,
    P: FocusableView + ViewWithCursorControl + Resettable,
> View for PopupHost<V, P> {
    closed spec fn inv(&self) -> bool {
        &&& self.inner.inv()
        &&& self.popups@.len() == self.popups_triggers@.len()
        &&& forall|i: int|
            0 <= i < self.popups@.len() ==> (#[trigger] self.popups@[i]).inv() && (
            self.popups@[i].focused() ==> self.active() == Some(i))
        &&& match self.active_popup {
            Some(i) => i < self.popups@.len() && self.popups@[i as int].focused()
                && !self.inner.focused(),
            None => self.inner.focused(),
        }
    }

    /// The host has no focus of its own.
    closed spec fn focused(&self) -> bool {
        false
    }

    /// Escape closes the open popup, refocuses the base and is consumed.
    /// With no popup open, a trigger key resets and opens its popup and is
    /// consumed. Any other event goes to the open popup's gated handler
    /// only, or to the base's when none is open, and its result is returned.
    fn handle_event(&mut self, e: &Event, state: &mut AppState) -> (r: Result<(), ViewError>)
        ensures
            final(self).triggers() == old(self).triggers(),
            final(self).popups().len() == old(self).popups().len(),
            // Escape
            pressed(*e) == Some(KeyCode::Esc) ==> {
                &&& r.is_ok()
                &&& *final(state) == *old(state)
                &&& final(self).active() is None
                &&& V::refocused(old(self).base(), final(self).base(), true)
                &&& forall|i: int| 0 <= i < final(self).popups().len()
                    ==> !(#[trigger] final(self).popups()[i]).focused()
                &&& forall|i: int|
                    0 <= i < final(self).popups().len() && old(self).active() != Some(i)
                        ==> #[trigger] final(self).popups()[i] == old(self).popups()[i]
                &&& old(self).active() matches Some(a) ==> P::refocused(
                    old(self).popups()[a],
                    final(self).popups()[a],
                    false,
                )
            },
            // a popup is open: only it sees the event; the base is untouched
            old(self).active() matches Some(a) ==> (pressed(*e) != Some(KeyCode::Esc) ==> {
                &&& final(self).base() == old(self).base()
                &&& final(self).active() == old(self).active()
                &&& P::gated(
                    old(self).popups()[a],
                    *e,
                    *old(state),
                    final(self).popups()[a],
                    *final(state),
                    r,
                )
                &&& forall|j: int|
                    0 <= j < old(self).popups().len() && j != a ==> #[trigger] final(self).popups()[j]
                        == old(self).popups()[j]
            }),
            // a trigger key with no popup open
            old(self).popup_opened_by(*e) matches Some(i) ==> {
                &&& *final(state) == *old(state)
                &&& old(self).popups()[i].can_reset() ==> r.is_ok()
                &&& r.is_ok() ==> {
                    &&& final(self).active() == Some(i)
                    &&& V::refocused(old(self).base(), final(self).base(), false)
                    &&& final(self).popups()[i].focused()
                    &&& exists|m: P|
                        P::reset_done(old(self).popups()[i], m) && #[trigger] P::refocused(
                            m,
                            final(self).popups()[i],
                            true,
                        )
                    &&& forall|j: int|
                        0 <= j < old(self).popups().len() && j != i ==> #[trigger] final(
                            self).popups()[j] == old(self).popups()[j]
                }
                &&& r.is_err() ==> {
                    &&& final(self).base() == old(self).base()
                    &&& final(self).popups() == old(self).popups()
                    &&& final(self).active() is None
                }
            },
            // no popup open and no trigger: only the base sees the event
            old(self).active() is None && pressed(*e) != Some(KeyCode::Esc)
                && old(self).popup_opened_by(*e) is None ==> {
                &&& final(self).popups() == old(self).popups()
                &&& final(self).active() is None
                &&& V::gated(old(self).base(), *e, *old(state), final(self).base(), *final(state), r)
            },
    {
        match e.pressed_key() {
            Some(KeyCode::Esc) => {
                self.close_active();
                return Ok(());
            },
            Some(k) => {
                if self.active_popup.is_none() {
                    if let Some(idx) = find_trigger(&self.popups_triggers, k) {
                        return self.show(idx);
                    }
                }
            },
            None => {},
        }
        match self.active_popup {
            Some(i) => {
                let r = self.popups[i].handle_event_if_focused(e, state);
                proof {
                    assert forall|j: int| 0 <= j < self.popups@.len() implies (
                    #[trigger] self.popups@[j]).inv() && (self.popups@[j].focused()
                        ==> self.active() == Some(j)) by {
                        if j != i {
                            assert(self.popups@[j] == old(self).popups@[j]);
                        }
                    }
                }
                r
            },
            None => {
                let r = self.inner.handle_event_if_focused(e, state);
                proof {
                    assert(self.popups@ =~= old(self).popups@);
                }
                r
            },
        }
    }

    /// The base and the open popup are refreshed; the rest is untouched.
    open spec fn updated(old: Self, new: Self) -> bool {
        &&& V::updated(old.base(), new.base())
        &&& new.active() == old.active()
        &&& new.triggers() == old.triggers()
        &&& new.popups().len() == old.popups().len()
        &&& old.active() matches Some(a) ==> P::updated(old.popups()[a], new.popups()[a])
        &&& forall|j: int|
            0 <= j < old.popups().len() && old.active() != Some(j) ==> #[trigger] new.popups()[j]
                == old.popups()[j]
    }

    fn update(&mut self) {
        self.inner.update();
        if let Some(i) = self.active_popup {
            self.popups[i].update();
            proof {
                assert forall|j: int| 0 <= j < self.popups@.len() implies (
                #[trigger] self.popups@[j]).inv() && (self.popups@[j].focused()
                    ==> self.active() == Some(j)) by {
                    if j != i {
                        assert(self.popups@[j] == old(self).popups@[j]);
                    }
                }
            }
        } else {
            proof {
                assert(self.popups@ =~= old(self).popups@);
            }
        }
    }
}

impl<
    V: FocusableView,
    P: FocusableView + ViewWithCursorControl + Resettable,
> ViewWithCursorControl for PopupHost<V, P> {
    /// The caret is the open popup's; with none open there is none.
    closed spec fn caret(&self, area: Rect) -> Option<(u16, u16)> {
        match self.active_popup {
            Some(i) => self.popups@[i as int].caret(area),
            None => None,
        }
    }

    fn cursor_position(&self, area: Rect) -> (r: Option<(u16, u16)>)
        ensures
            r == (match self.active() {
                Some(i) => self.popups()[i].caret(area),
                None => None,
            }),
    {
        match self.active_popup {
            Some(i) => self.popups[i].cursor_position(area),
            None => None,
        }
    }
}

impl<
    V: FocusableView,
    P: FocusableView + ViewWithCursorControl + Resettable,
> PopupHost<V, P> {
    /// While a popup is open it alone is focused and the base is not;
    /// otherwise the base is focused and every popup closed.
    pub proof fn lemma_single_focus(&self)
        requires
            self.inv(),
        ensures
            self.popups().len() == self.triggers().len(),
            self.active() matches Some(i) ==> {
                &&& 0 <= i < self.popups().len()
                &&& self.popups()[i].focused()
                &&& !self.base().focused()
            },
            self.active() is None ==> self.base().focused(),
            forall|j: int|
                0 <= j < self.popups().len() && (#[trigger] self.popups()[j]).focused()
                    ==> self.active() == Some(j),
    {
        assert forall|j: int|
            0 <= j < self.popups().len() && (#[trigger] self.popups()[j]).focused()
                implies self.active() == Some(j) by {
            assert(self.popups@[j].inv());
        }
    }
}

} // verus!
