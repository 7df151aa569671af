use vstd::prelude::*;
use crate::event::Event;
use crate::view::{
    TextStyle, AppState, FocusStatus, Focusable, FocusableView, Rect, Resettable, View, ViewError,
    ViewWithCursorControl,
};
use vstd::view::View as _;

verus! {

/// The inside of a frame bordered on all four sides: one cell off each edge,
/// the origin held inside the area.
pub open spec fn inner_area(a: Rect) -> Rect {
    Rect {
        x: if a.width > 0 { (a.x + 1) as u16 } else { a.x },
        y: if a.height > 0 { (a.y + 1) as u16 } else { a.y },
        width: if a.width >= 2 { (a.width - 2) as u16 } else { 0 },
        height: if a.height >= 2 { (a.height - 2) as u16 } else { 0 },
    }
}

/// Relies on ratatui's `Block::bordered` (all four borders, no padding)
/// and `Block::inner`: each border takes one cell off its side.
#[verifier::external_body]
fn bordered_inner(area: Rect) -> (r: Rect)
    requires
        area.fits(),
    ensures
        r == inner_area(area),
{
    let outer = ratatui::layout::Rect {
        x: area.x,
        y: area.y,
        width: area.width,
        height: area.height,
    };
    let inner = ratatui::widgets::Block::bordered().inner(outer);
    Rect { x: inner.x, y: inner.y, width: inner.width, height: inner.height }
}

/// A modal frame around one content node. It is open exactly when it is
/// focused; the content's focus follows.
pub struct Popup<V> {
    title: String,
    content: V,
    border_style: TextStyle,
    title_style: TextStyle,
    open: bool,
}

impl<V: FocusableView + ViewWithCursorControl + Resettable> Popup<V> {
    pub closed spec fn inner(&self) -> V {
        self.content
    }

    pub closed spec fn title_text(&self) -> Seq<char> {
        self.title@
    }

    /// The content is focused exactly when the popup is open.
    pub proof fn lemma_content_follows_open(&self)
        requires
            self.inv(),
        ensures
            self.inner().inv(),
            self.inner().focused() == self.focused(),
    {
    }

    pub closed spec fn styles(&self) -> (TextStyle, TextStyle) {
        (self.border_style, self.title_style)
    }

    /// A closed popup titled `title` around `content`; the border is plain
    /// and the title bold unless styles are given.
    pub fn new(
        title: &str,
        content: V,
        border_style: Option<TextStyle>,
        title_style: Option<TextStyle>,
    ) -> (r: Popup<V>)
        requires
            content.inv(),
        ensures
            r.inv(),
            !r.focused(),
            r.title_text() == title@,
            V::refocused(content, r.inner(), false),
            r.styles().0 == match border_style {
                Some(s) => s,
                None => TextStyle { fg: None, bold: false, dim: false },
            },
            r.styles().1 == match title_style {
                Some(s) => s,
                None => TextStyle { fg: None, bold: true, dim: false },
            },
    {
        let mut content = content;
        content.unfocus();
        Popup {
            title: title.to_owned(),
            content,
            border_style: match border_style {
                Some(s) => s,
                None => TextStyle::plain(),
            },
            title_style: match title_style {
                Some(s) => s,
                None => TextStyle::bold(),
            },
            open: false,
        }
    }

    pub fn border_style(&self) -> (r: TextStyle)
        ensures
            r == self.styles().0,
    {
        self.border_style
    }

    pub fn title_style(&self) -> (r: TextStyle)
        ensures
            r == self.styles().1,
    {
        self.title_style
    }

    pub fn title(&self) -> (r: &str)
        ensures
            r@ == self.title_text(),
    {
        self.title.as_str()
    }

    pub fn content(&self) -> (r: &V)
        ensures
            *r == self.inner(),
    {
        &self.content
    }

    pub fn open(&self) -> (r: bool)
        ensures
            r == self.focused(),
    {
        self.open
    }

    /// Where the content goes when the popup is painted into `area`.
    pub fn content_area(&self, area: Rect) -> (r: Rect)
        requires
            area.fits(),
        ensures
            r == inner_area(area),
            r.fits(),
    {
        bordered_inner(area)
    }
}

impl<V: FocusableView + ViewWithCursorControl + Resettable> View for Popup<V> {
    closed spec fn inv(&self) -> bool {
        &&& self.content.inv()
        &&& self.content.focused() == self.open
    }

    closed spec fn focused(&self) -> bool {
        self.open
    }

    /// The frame itself takes no keys.
    fn handle_event(&mut self, e: &Event, state: &mut AppState) -> (r: Result<(), ViewError>)
        ensures
            r.is_ok(),
            *final(self) == *old(self),
            *final(state) == *old(state),
    {
        Ok(())
    }

    /// The content is refreshed.
    open spec fn updated(old: Self, new: Self) -> bool {
        &&& V::updated(old.inner(), new.inner())
        &&& new.title_text() == old.title_text()
        &&& new.styles() == old.styles()
        &&& new.focused() == old.focused()
    }

    fn update(&mut self) {
        self.content.update();
    }
}

impl<V: FocusableView + ViewWithCursorControl + Resettable> Focusable for Popup<V> {
    /// Opening and closing set the content's focus the same way.
    open spec fn refocused(old: Self, new: Self, f: bool) -> bool {
        &&& V::refocused(old.inner(), new.inner(), f)
        &&& new.title_text() == old.title_text()
        &&& new.styles() == old.styles()
        &&& new.focused() == f
    }

    /// Opens the popup.
    fn focus(&mut self) {
        self.open = true;
        self.content.focus();
    }

    /// Closes the popup.
    fn unfocus(&mut self) {
        self.open = false;
        self.content.unfocus();
    }

    fn toggle_focus(&mut self) {
        self.open = !self.open;
        self.content.toggle_focus();
    }
}

impl<V: FocusableView + ViewWithCursorControl + Resettable> FocusStatus for Popup<V> {
    fn is_focused(&self) -> (r: bool) {
        self.open
    }
}

impl<V: FocusableView + ViewWithCursorControl + Resettable> FocusableView for Popup<V> {
    /// An open popup hands the event to its content's gated handler and
    /// returns its result; a closed one changes nothing.
    open spec fn gated(
        old: Self,
        e: Event,
        st: AppState,
        new: Self,
        new_st: AppState,
        r: Result<(), ViewError>,
    ) -> bool {
        &&& new.title_text() == old.title_text()
        &&& new.styles() == old.styles()
        &&& new.focused() == old.focused()
        &&& old.focused() ==> V::gated(old.inner(), e, st, new.inner(), new_st, r)
        &&& !old.focused() ==> new == old && new_st == st && r.is_ok()
    }

    /// An open popup hands the event to its content's gated handler.
    fn handle_event_if_focused(&mut self, e: &Event, state: &mut AppState) -> (r: Result<
        (),
        ViewError,
    >) {
        if self.open {
            self.handle_event(e, state)?;
        }
        self.content.handle_event_if_focused(e, state)
    }
}

impl<V: FocusableView + ViewWithCursorControl + Resettable> ViewWithCursorControl for Popup<V> {
    /// An open popup passes on the caret its content reports for the area
    /// inside the frame; a closed one reports none.
    closed spec fn caret(&self, area: Rect) -> Option<(u16, u16)> {
        if self.open {
            self.content.caret(inner_area(area))
        } else {
            None
        }
    }

    fn cursor_position(&self, area: Rect) -> (r: Option<(u16, u16)>)
        ensures
            r == (if self.focused() {
                self.inner().caret(inner_area(area))
            } else {
                None
            }),
    {
        if self.open {
            let inner = bordered_inner(area);
            self.content.cursor_position(inner)
        } else {
            None
        }
    }
}

impl<V: FocusableView + ViewWithCursorControl + Resettable> Resettable for Popup<V> {
    open spec fn can_reset(&self) -> bool {
        self.inner().can_reset()
    }

    /// The content is reset.
    open spec fn reset_done(old: Self, new: Self) -> bool {
        &&& V::reset_done(old.inner(), new.inner())
        &&& new.title_text() == old.title_text()
        &&& new.styles() == old.styles()
        &&& new.focused() == old.focused()
    }

    /// Resets the content.
    fn reset(&mut self) -> (r: Result<(), ViewError>) {
        self.content.reset()
    }
}

} // verus!
