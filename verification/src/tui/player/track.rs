//! The name of the track.

use vstd::prelude::*;
use vstd::string::StringExecFns;
use crate::style::{Alignment, HasTuiStyle, HasTuiStyleSetter, TuiStyle};
use crate::tui::frame::{DrawView, Frame, Paragraph, Shape, ShapeView, Text, TextView};
use crate::tui::traits::{Downcast, RenderTui};
use crate::tui::types::Rect;
use crate::tui::widget::Widget;

verus! {

/// Shows the name of the track.
#[derive(Debug)]
pub struct TrackTui {
    pub track: String,
    pub style: TuiStyle,
}

impl TrackTui {
    /// Whether this is the widget that the player starts with: a
    /// placeholder for the name, in the middle.
    pub open spec fn is_default(&self) -> bool {
        self.track@ == "Not Song"@ && self.style == TuiStyle::aligned_spec(Alignment::Center)
    }

    /// The text that the widget shows.
    pub open spec fn shown(&self) -> Seq<char> {
        "\u{f075a} "@ + self.track@
    }

    /// What the widget draws.
    pub open spec fn scene(&self, rect: Rect) -> Seq<DrawView> {
        seq![
            DrawView {
                shape: ShapeView::Paragraph {
                    text: TextView::Raw(self.shown()),
                    style: self.style.style(),
                    alignment: self.style.alignment,
                },
                area: rect,
            },
        ]
    }

    /// The name of the track.
    pub fn track(&self) -> (name: &str)
        ensures
            name@ == self.track@,
    {
        self.track.as_str()
    }

    /// Sets the name of the track. Where the name is the same as before,
    /// the widget stays as it is.
    pub fn set_track(&mut self, track: &str)
        ensures
            final(self).track@ == track@,
            final(self).style == old(self).style,
            old(self).track@ == track@ ==> *final(self) == *old(self),
    {
        let name = track.to_owned();
        if !(self.track == name) {
            self.track = name;
        }
    }
}

impl Default for TrackTui {
    fn default() -> (widget: TrackTui)
        ensures
            widget.is_default(),
    {
        TrackTui { track: "Not Song".to_owned(), style: TuiStyle::aligned(Alignment::Center) }
    }
}

impl HasTuiStyle for TrackTui {
    open spec fn tui_facet(&self) -> TuiStyle {
        self.style
    }

    fn tui_ref(&self) -> (style: &TuiStyle) {
        &self.style
    }
}

impl HasTuiStyleSetter for TrackTui {
    open spec fn with_tui(self, style: TuiStyle) -> Self {
        TrackTui { style, ..self }
    }

    proof fn lemma_tui(&self) {
    }

    fn tui_mut(&mut self) -> (style: &mut TuiStyle) {
        &mut self.style
    }
}

impl RenderTui for TrackTui {
    open spec fn event_capability(&self) -> bool {
        false
    }

    open spec fn border_capability(&self) -> bool {
        false
    }

    open spec fn draws(&self, rect: Rect, drawn: Seq<DrawView>) -> bool {
        drawn == self.scene(rect)
    }

    fn render(&self, frame: &mut Frame, rect: Rect)
        ensures
            final(frame)@ == old(frame)@ + self.scene(rect),
    {
        let mut shown = "\u{f075a} ".to_owned();
        shown.append(self.track());
        let widget = Paragraph {
            text: Text::Raw(shown),
            style: self.tui_style(),
            alignment: self.tui_alignment(),
        };
        frame.render_widget(Shape::Paragraph(widget), rect);
        assert(frame@ =~= old(frame)@ + self.scene(rect));
        assert(self.draws(rect, self.scene(rect)));
    }

    fn as_event(&self) -> (found: Option<&Self>) {
        None
    }

    fn as_event_mut(&mut self) -> (found: Option<&mut Self>) {
        None
    }

    fn as_border_mut(&mut self) -> (found: Option<&mut Self>) {
        None
    }
}

impl Downcast for TrackTui {
    open spec fn is_in(widget: &Widget) -> bool {
        widget is Track
    }

    open spec fn of(widget: &Widget) -> Self {
        widget->Track_0
    }

    open spec fn wrap(self) -> Widget {
        Widget::Track(self)
    }

    proof fn lemma_wrap(widget: &Widget) {
    }

    fn downcast_ref(widget: &Widget) -> (found: Option<&Self>) {
        match widget {
            Widget::Track(inner) => Some(inner),
            _ => None,
        }
    }

    fn downcast_mut(widget: &mut Widget) -> (found: Option<&mut Self>) {
        match widget {
            Widget::Track(inner) => Some(inner),
            _ => None,
        }
    }
}

} // verus!
