use vstd::prelude::*;
use crate::calendar::Calendar;
use crate::event::Event;
use crate::gcal::same_text;
use vstd::view::View as _;

verus! {

/// A rectangle of terminal cells.
#[derive(Clone, Copy, Debug, PartialEq, Eq, Structural)]
pub struct Rect {
    pub x: u16,
    pub y: u16,
    pub width: u16,
    pub height: u16,
}

impl Rect {
    /// Whether the rectangle lies inside the terminal's coordinate space.
    pub open spec fn fits(self) -> bool {
        self.x + self.width <= u16::MAX && self.y + self.height <= u16::MAX
    }

    /// A rectangle at (`x`, `y`), its size cut so that it stays inside the
    /// coordinate space.
    pub fn new(x: u16, y: u16, width: u16, height: u16) -> (r: Rect)
        ensures
            r.fits(),
            r.x == x,
            r.y == y,
            r.width == if width <= u16::MAX - x { width as int } else { u16::MAX - x },
            r.height == if height <= u16::MAX - y { height as int } else { u16::MAX - y },
    {
        let max_width = u16::MAX - x;
        let max_height = u16::MAX - y;
        Rect {
            x,
            y,
            width: if width > max_width { max_width } else { width },
            height: if height > max_height { max_height } else { height },
        }
    }
}

/// A terminal color.
#[derive(Clone, Copy, Debug, PartialEq, Eq, Structural)]
pub enum Color {
    Green,
    Red,
    Blue,
    White,
}

/// How text is drawn: an optional foreground color, bold, dim.
#[derive(Clone, Copy, Debug, PartialEq, Eq, Structural)]
pub struct TextStyle {
    pub fg: Option<Color>,
    pub bold: bool,
    pub dim: bool,
}

impl TextStyle {
    /// The terminal's default look.
    pub fn plain() -> (r: TextStyle)
        ensures
            r == (TextStyle { fg: None, bold: false, dim: false }),
    {
        TextStyle { fg: None, bold: false, dim: false }
    }

    /// Bold, otherwise default.
    pub fn bold() -> (r: TextStyle)
        ensures
            r == (TextStyle { fg: None, bold: true, dim: false }),
    {
        TextStyle { fg: None, bold: true, dim: false }
    }
}

/// A failure that aborts one operation of a node and leaves the tree usable.
#[derive(Clone, Copy, Debug, PartialEq, Eq, Structural)]
pub enum ViewError {
    /// The node declined the operation; nothing was changed.
    Rejected,
}

/// The state shared by the whole tree: the imported calendar and the value
/// that dialog fields stage for the others.
pub struct AppState {
    pub calendar: Option<Calendar>,
    pub tmp: Option<String>,
}

impl AppState {
    /// An empty state: no calendar, nothing staged.
    pub fn new() -> (r: AppState)
        ensures
            r.calendar.is_none(),
            r.tmp.is_none(),
    {
        AppState { calendar: None, tmp: None }
    }

    /// The staged value, when it is there and differs from `before`: a
    /// path that was just confirmed and is to be imported.
    pub fn newly_staged(&self, before: &Option<String>) -> (r: Option<String>)
        ensures
            r is Some <==> (self.tmp is Some && (before is None || before.unwrap()@
                != self.tmp.unwrap()@)),
            r matches Some(p) ==> p@ == self.tmp.unwrap()@,
    {
        match &self.tmp {
            None => None,
            Some(now) => {
                let changed = match before {
                    None => true,
                    Some(b) => !same_text(b.as_str(), now.as_str()),
                };
                if changed {
                    Some(now.clone())
                } else {
                    None
                }
            },
        }
    }

    /// Keeps an imported calendar, or stages the import's error message in
    /// place of the path.
    pub fn record_import(&mut self, result: Result<Calendar, String>)
        ensures
            result is Ok ==> final(self).calendar == Some(result->Ok_0) && final(self).tmp
                == old(self).tmp,
            result is Err ==> final(self).calendar == old(self).calendar && final(self).tmp == Some(
                result->Err_0),
    {
        match result {
            Ok(c) => self.calendar = Some(c),
            Err(m) => self.tmp = Some(m),
        }
    }

    /// The staged value, if any.
    pub fn staged(&self) -> (r: Option<&str>)
        ensures
            r.is_some() == self.tmp.is_some(),
            r.is_some() ==> r.unwrap()@ == self.tmp.unwrap()@,
    {
        match &self.tmp {
            Some(s) => Some(s.as_str()),
            None => None,
        }
    }
}

/// A node of the widget tree: it reacts to events and refreshes itself once
/// per frame. Painting is done outside the library.
pub trait View: Sized {
    /// The node's well-formedness.
    spec fn inv(&self) -> bool;

    /// The node's own focus flag (an open popup counts as focused); a node
    /// that has no focus of its own reports `false`.
    spec fn focused(&self) -> bool;

    /// Reacts to one event.
    fn handle_event(&mut self, e: &Event, state: &mut AppState) -> (r: Result<(), ViewError>)
        requires
            old(self).inv(),
        ensures
            final(self).inv(),
            final(self).focused() == old(self).focused(),
    ;

    /// What a per-frame refresh makes of `old`.
    spec fn updated(old: Self, new: Self) -> bool;

    /// Per-frame refresh, before painting.
    fn update(&mut self)
        requires
            old(self).inv(),
        ensures
            final(self).inv(),
            final(self).focused() == old(self).focused(),
            Self::updated(*old(self), *final(self)),
    ;
}

/// A node whose focus can be switched on and off.
pub trait Focusable: View {
    /// What setting the focus to `f` makes of `old`.
    spec fn refocused(old: Self, new: Self, f: bool) -> bool;

    fn focus(&mut self)
        requires
            old(self).inv(),
        ensures
            final(self).inv(),
            final(self).focused(),
            Self::refocused(*old(self), *final(self), true),
    ;

    fn unfocus(&mut self)
        requires
            old(self).inv(),
        ensures
            final(self).inv(),
            !final(self).focused(),
            Self::refocused(*old(self), *final(self), false),
    ;

    fn toggle_focus(&mut self)
        requires
            old(self).inv(),
        ensures
            final(self).inv(),
            final(self).focused() == !old(self).focused(),
            Self::refocused(*old(self), *final(self), !old(self).focused()),
    ;
}

/// A node that reports its focus flag.
pub trait FocusStatus: Focusable {
    fn is_focused(&self) -> (r: bool)
        ensures
            r == self.focused(),
    ;
}

/// A node with the focus-gated entry point that composites route events
/// through.
pub trait FocusableView: Focusable {
    /// What the gated handler makes of the node `old` and the state `st` on
    /// the event `e`, with its result `r`.
    spec fn gated(
        old: Self,
        e: Event,
        st: AppState,
        new: Self,
        new_st: AppState,
        r: Result<(), ViewError>,
    ) -> bool;

    /// Handles `e` when this node, or the branch under it, holds the focus.
    /// An unfocused node changes nothing, neither itself nor the state.
    fn handle_event_if_focused(&mut self, e: &Event, state: &mut AppState) -> (r: Result<
        (),
        ViewError,
    >)
        requires
            old(self).inv(),
        ensures
            final(self).inv(),
            final(self).focused() == old(self).focused(),
            !old(self).focused() ==> {
                &&& *final(self) == *old(self)
                &&& *final(state) == *old(state)
                &&& r.is_ok()
            },
            Self::gated(*old(self), *e, *old(state), *final(self), *final(state), r),
    ;
}

/// A node that may want the terminal's caret shown while it is painted.
pub trait ViewWithCursorControl: View {
    /// Where the caret goes when the node is painted into `area`, in
    /// terminal coordinates.
    spec fn caret(&self, area: Rect) -> Option<(u16, u16)>;

    fn cursor_position(&self, area: Rect) -> (r: Option<(u16, u16)>)
        requires
            self.inv(),
            area.fits(),
        ensures
            r == self.caret(area),
    ;
}

/// A node that can drop its transient input before it is shown again.
pub trait Resettable: View {
    /// Whether a reset is sure to succeed.
    spec fn can_reset(&self) -> bool;

    /// What a successful reset makes of `old`.
    spec fn reset_done(old: Self, new: Self) -> bool;

    fn reset(&mut self) -> (r: Result<(), ViewError>)
        requires
            old(self).inv(),
        ensures
            final(self).inv(),
            final(self).focused() == old(self).focused(),
            old(self).can_reset() ==> r.is_ok(),
            r.is_ok() ==> Self::reset_done(*old(self), *final(self)),
            r.is_err() ==> *final(self) == *old(self),
    ;
}

} // verus!
