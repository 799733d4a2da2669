//! The time played and the length of the current track.

use vstd::prelude::*;
use crate::style::{Alignment, Color, HasTuiStyle, HasTuiStyleSetter, Style, TuiStyle};
use crate::text::{push_two_digits, string_from_chars, two_digit_text};
use crate::tui::frame::{
    spans_view, DrawView, Frame, Paragraph, Shape, ShapeView, Span, SpanView, Text, TextView,
};
use crate::tui::traits::{Downcast, RenderTui};
use crate::tui::types::{Duration, Rect};
use crate::tui::widget::Widget;

verus! {

/// A span of time as minutes and seconds, two digits each or more:
/// `MM:SS`. Hours count as minutes.
pub open spec fn duration_text(duration: Duration) -> Seq<char> {
    two_digit_text((duration.secs / 60) as nat) + seq![':'] + two_digit_text(
        (duration.secs % 60) as nat,
    )
}

/// The line of the readout: an icon, the time played, ` / `, the length.
pub open spec fn progress_line(progress: Duration, duration: Duration, fg: Color) -> Seq<
    SpanView,
> {
    seq![
        SpanView { content: "\u{e641} "@, style: Style::plain().with_fg(fg) },
        SpanView { content: duration_text(progress), style: Style::plain().with_fg(fg) },
        SpanView { content: " / "@, style: Style::plain().with_fg(Color::White) },
        SpanView { content: duration_text(duration), style: Style::plain().with_fg(fg) },
    ]
}

/// Shows how far the current track has been played.
#[derive(Debug)]
pub struct PlaybackProgressTui {
    pub style: TuiStyle,
    /// The time played.
    pub progress: Duration,
    /// The length of the track.
    pub duration: Duration,
}

impl PlaybackProgressTui {
    /// Whether this is the widget that the player starts with: no time
    /// played of no time, aligned to the left.
    pub open spec fn is_default(&self) -> bool {
        &&& self.progress == (Duration { secs: 0, nanos: 0 })
        &&& self.duration == (Duration { secs: 0, nanos: 0 })
        &&& self.style == TuiStyle::aligned_spec(Alignment::Left)
    }

    /// What the widget draws.
    pub open spec fn scene(&self, rect: Rect) -> Seq<DrawView> {
        seq![
            DrawView {
                shape: ShapeView::Paragraph {
                    text: TextView::Line(
                        progress_line(self.progress, self.duration, self.style.fg),
                    ),
                    style: self.style.style(),
                    alignment: self.style.alignment,
                },
                area: rect,
            },
        ]
    }

    /// Writes a span of time as `MM:SS`.
    pub fn format_duration(duration: Duration) -> (text: String)
        ensures
            text@ == duration_text(duration),
    {
        let total: u64 = duration.as_secs();
        let mut out: Vec<char> = Vec::new();
        push_two_digits(&mut out, total / 60);
        out.push(':');
        push_two_digits(&mut out, total % 60);
        assert(out@ =~= duration_text(duration));
        string_from_chars(&out)
    }

    /// Sets the time played.
    pub fn set_progress(&mut self, progress: Duration)
        ensures
            *final(self) == (PlaybackProgressTui { progress, ..*old(self) }),
    {
        self.progress = progress;
    }

    /// Sets the length of the track.
    pub fn set_duration(&mut self, duration: Duration)
        ensures
            *final(self) == (PlaybackProgressTui { duration, ..*old(self) }),
    {
        self.duration = duration;
    }

    /// The line of the readout.
    fn line(&self) -> (line: Vec<Span>)
        ensures
            spans_view(line@) == progress_line(self.progress, self.duration, self.style.fg),
    {
        let fg = self.style.fg();
        let mut spans: Vec<Span> = Vec::new();
        spans.push(Span::styled("\u{e641} ".to_owned(), Style::new().fg(fg)));
        spans.push(
            Span::styled(PlaybackProgressTui::format_duration(self.progress), Style::new().fg(fg)),
        );
        spans.push(Span::styled(" / ".to_owned(), Style::new().fg(Color::White)));
        spans.push(
            Span::styled(PlaybackProgressTui::format_duration(self.duration), Style::new().fg(fg)),
        );
        assert(spans_view(spans@) =~= progress_line(self.progress, self.duration, self.style.fg));
        spans
    }
}

impl Default for PlaybackProgressTui {
    fn default() -> (widget: PlaybackProgressTui)
        ensures
            widget.is_default(),
    {
        PlaybackProgressTui {
            style: TuiStyle::aligned(Alignment::Left),
            progress: Duration::zero(),
            duration: Duration::zero(),
        }
    }
}

impl HasTuiStyle for PlaybackProgressTui {
    open spec fn tui_facet(&self) -> TuiStyle {
        self.style
    }

    fn tui_ref(&self) -> (style: &TuiStyle) {
        &self.style
    }
}

impl HasTuiStyleSetter for PlaybackProgressTui {
    open spec fn with_tui(self, style: TuiStyle) -> Self {
        PlaybackProgressTui { style, ..self }
    }

    proof fn lemma_tui(&self) {
    }

    fn tui_mut(&mut self) -> (style: &mut TuiStyle) {
        &mut self.style
    }
}

impl RenderTui for PlaybackProgressTui {
    open spec fn event_capability(&self) -> bool {
        false
    }

    open spec fn border_capability(&self) -> bool {
        false
    }

    open spec fn draws(&self, rect: Rect, drawn: Seq<DrawView>) -> bool {
        drawn == self.scene(rect)
    }

    fn render(&self, frame: &mut Frame, rect: Rect)
        ensures
            final(frame)@ == old(frame)@ + self.scene(rect),
    {
        let widget = Paragraph {
            text: Text::Line(self.line()),
            style: self.tui_style(),
            alignment: self.tui_alignment(),
        };
        frame.render_widget(Shape::Paragraph(widget), rect);
        assert(frame@ =~= old(frame)@ + self.scene(rect));
        assert(self.draws(rect, self.scene(rect)));
    }

    fn as_event(&self) -> (found: Option<&Self>) {
        None
    }

    fn as_event_mut(&mut self) -> (found: Option<&mut Self>) {
        None
    }

    fn as_border_mut(&mut self) -> (found: Option<&mut Self>) {
        None
    }
}

impl Downcast for PlaybackProgressTui {
    open spec fn is_in(widget: &Widget) -> bool {
        widget is PlaybackProgress
    }

    open spec fn of(widget: &Widget) -> Self {
        widget->PlaybackProgress_0
    }

    open spec fn wrap(self) -> Widget {
        Widget::PlaybackProgress(self)
    }

    proof fn lemma_wrap(widget: &Widget) {
    }

    fn downcast_ref(widget: &Widget) -> (found: Option<&Self>) {
        match widget {
            Widget::PlaybackProgress(inner) => Some(inner),
            _ => None,
        }
    }

    fn downcast_mut(widget: &mut Widget) -> (found: Option<&mut Self>) {
        match widget {
            Widget::PlaybackProgress(inner) => Some(inner),
            _ => None,
        }
    }
}

} // verus!
