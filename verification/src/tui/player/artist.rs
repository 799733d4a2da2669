//! The name of the artist.

use vstd::prelude::*;
use crate::style::{Alignment, HasTuiStyle, HasTuiStyleSetter, TuiStyle};
use crate::tui::frame::{DrawView, Frame, Paragraph, Shape, ShapeView, Text, TextView};
use crate::tui::traits::{Downcast, RenderTui};
use crate::tui::types::Rect;
use crate::tui::widget::Widget;

verus! {

/// Shows the name of the artist.
#[derive(Debug)]
pub struct ArtistTui {
    pub artist: String,
    pub style: TuiStyle,
}

impl ArtistTui {
    /// Whether this is the widget that the player starts with: a
    /// placeholder for the name, in the middle.
    pub open spec fn is_default(&self) -> bool {
        self.artist@ == "Not Artist"@ && self.style == TuiStyle::aligned_spec(Alignment::Center)
    }

    /// The text that the widget shows.
    pub open spec fn shown(&self) -> Seq<char> {
        self.artist@
    }

    /// What the widget draws.
    pub open spec fn scene(&self, rect: Rect) -> Seq<DrawView> {
        seq![
            DrawView {
                shape: ShapeView::Paragraph {
                    text: TextView::Raw(self.shown()),
                    style: self.style.style(),
                    alignment: self.style.alignment,
                },
                area: rect,
            },
        ]
    }

    /// The name of the artist.
    pub fn artist(&self) -> (name: &str)
        ensures
            name@ == self.artist@,
    {
        self.artist.as_str()
    }

    /// Sets the name of the artist. Where the name is the same as before,
    /// the widget stays as it is.
    pub fn set_artist(&mut self, artist: &str)
        ensures
            final(self).artist@ == artist@,
            final(self).style == old(self).style,
            old(self).artist@ == artist@ ==> *final(self) == *old(self),
    {
        let name = artist.to_owned();
        if !(self.artist == name) {
            self.artist = name;
        }
    }
}

impl Default for ArtistTui {
    fn default() -> (widget: ArtistTui)
        ensures
            widget.is_default(),
    {
        ArtistTui { artist: "Not Artist".to_owned(), style: TuiStyle::aligned(Alignment::Center) }
    }
}

impl HasTuiStyle for ArtistTui {
    open spec fn tui_facet(&self) -> TuiStyle {
        self.style
    }

    fn tui_ref(&self) -> (style: &TuiStyle) {
        &self.style
    }
}

impl HasTuiStyleSetter for ArtistTui {
    open spec fn with_tui(self, style: TuiStyle) -> Self {
        ArtistTui { style, ..self }
    }

    proof fn lemma_tui(&self) {
    }

    fn tui_mut(&mut self) -> (style: &mut TuiStyle) {
        &mut self.style
    }
}

impl RenderTui for ArtistTui {
    open spec fn event_capability(&self) -> bool {
        false
    }

    open spec fn border_capability(&self) -> bool {
        false
    }

    open spec fn draws(&self, rect: Rect, drawn: Seq<DrawView>) -> bool {
        drawn == self.scene(rect)
    }

    fn render(&self, frame: &mut Frame, rect: Rect)
        ensures
            final(frame)@ == old(frame)@ + self.scene(rect),
    {
        let shown = self.artist().to_owned();
        let widget = Paragraph {
            text: Text::Raw(shown),
            style: self.tui_style(),
            alignment: self.tui_alignment(),
        };
        frame.render_widget(Shape::Paragraph(widget), rect);
        assert(frame@ =~= old(frame)@ + self.scene(rect));
        assert(self.draws(rect, self.scene(rect)));
    }

    fn as_event(&self) -> (found: Option<&Self>) {
        None
    }

    fn as_event_mut(&mut self) -> (found: Option<&mut Self>) {
        None
    }

    fn as_border_mut(&mut self) -> (found: Option<&mut Self>) {
        None
    }
}

impl Downcast for ArtistTui {
    open spec fn is_in(widget: &Widget) -> bool {
        widget is Artist
    }

    open spec fn of(widget: &Widget) -> Self {
        widget->Artist_0
    }

    open spec fn wrap(self) -> Widget {
        Widget::Artist(self)
    }

    proof fn lemma_wrap(widget: &Widget) {
    }

    fn downcast_ref(widget: &Widget) -> (found: Option<&Self>) {
        match widget {
            Widget::Artist(inner) => Some(inner),
            _ => None,
        }
    }

    fn downcast_mut(widget: &mut Widget) -> (found: Option<&mut Self>) {
        match widget {
            Widget::Artist(inner) => Some(inner),
            _ => None,
        }
    }
}

} // verus!
