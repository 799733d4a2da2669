//! The playback mode and the line that shows all modes.

use vstd::prelude::*;
use crate::style::{Alignment, Color, HasTuiStyle, HasTuiStyleSetter, Style, TuiStyle};
use crate::tui::frame::{
    spans_view, DrawView, Frame, Paragraph, Shape, ShapeView, Span, SpanView, Text, TextView,
};
use crate::tui::traits::{Downcast, RenderTui};
use crate::tui::types::Rect;
use crate::tui::widget::Widget;

verus! {

/// In which order the tracks of the queue are played.
#[derive(Clone, Copy, Debug, PartialEq, Eq, Structural)]
pub enum PlaybackMode {
    /// After the last track the first one follows.
    Repeat,
    /// The tracks follow each other at random.
    Random,
    /// A track that was played leaves the queue.
    Consume,
    /// The current track is played again and again.
    Single,
}

impl Default for PlaybackMode {
    fn default() -> (mode: PlaybackMode)
        ensures
            mode == PlaybackMode::Repeat,
    {
        PlaybackMode::Repeat
    }
}

impl PlaybackMode {
    /// The mode that follows this one.
    pub open spec fn next_spec(self) -> PlaybackMode {
        match self {
            PlaybackMode::Repeat => PlaybackMode::Random,
            PlaybackMode::Random => PlaybackMode::Consume,
            PlaybackMode::Consume => PlaybackMode::Single,
            PlaybackMode::Single => PlaybackMode::Repeat,
        }
    }

    /// All modes, in the order in which they follow each other.
    pub open spec fn variants_spec() -> Seq<PlaybackMode> {
        seq![
            PlaybackMode::Repeat,
            PlaybackMode::Random,
            PlaybackMode::Consume,
            PlaybackMode::Single,
        ]
    }

    /// The name of the mode.
    pub open spec fn name_spec(self) -> Seq<char> {
        match self {
            PlaybackMode::Repeat => "Repeat"@,
            PlaybackMode::Random => "Random"@,
            PlaybackMode::Consume => "Consume"@,
            PlaybackMode::Single => "Single"@,
        }
    }

    /// All modes, in the order in which they follow each other.
    pub fn variants() -> (modes: [PlaybackMode; 4])
        ensures
            modes@ == PlaybackMode::variants_spec(),
    {
        let modes = [
            PlaybackMode::Repeat,
            PlaybackMode::Random,
            PlaybackMode::Consume,
            PlaybackMode::Single,
        ];
        assert(modes@ =~= PlaybackMode::variants_spec());
        modes
    }

    /// The mode that follows this one; after the last comes the first.
    pub fn next(self) -> (mode: PlaybackMode)
        ensures
            mode == self.next_spec(),
    {
        match self {
            PlaybackMode::Repeat => PlaybackMode::Random,
            PlaybackMode::Random => PlaybackMode::Consume,
            PlaybackMode::Consume => PlaybackMode::Single,
            PlaybackMode::Single => PlaybackMode::Repeat,
        }
    }

    /// The name of the mode.
    pub fn name(self) -> (name: &'static str)
        ensures
            name@ == self.name_spec(),
    {
        match self {
            PlaybackMode::Repeat => "Repeat",
            PlaybackMode::Random => "Random",
            PlaybackMode::Consume => "Consume",
            PlaybackMode::Single => "Single",
        }
    }
}

/// Going on to the next mode passes through all four modes and is back at
/// the start after exactly four steps, not before.
pub proof fn law_modes_cycle_in_four(mode: PlaybackMode)
    ensures
        mode.next_spec().next_spec().next_spec().next_spec() == mode,
        mode.next_spec() != mode,
        mode.next_spec().next_spec() != mode,
        mode.next_spec().next_spec().next_spec() != mode,
        mode.next_spec() != mode.next_spec().next_spec(),
        mode.next_spec() != mode.next_spec().next_spec().next_spec(),
        mode.next_spec().next_spec() != mode.next_spec().next_spec().next_spec(),
{
}

/// The style of a mode that is not the current one.
pub open spec fn inactive_style() -> Style {
    Style::plain().with_fg(Color::Gray)
}

/// The style of the separator between two modes.
pub open spec fn separator_style() -> Style {
    Style::plain().with_fg(Color::White)
}

/// The span of the mode at `index`, in `active` style where it is the
/// current one.
pub open spec fn mode_span(index: int, current: PlaybackMode, active: Style) -> SpanView {
    let mode = PlaybackMode::variants_spec()[index];
    SpanView {
        content: mode.name_spec(),
        style: if mode == current {
            active
        } else {
            inactive_style()
        },
    }
}

/// The line of all modes: their names, separated by ` | `, the current one
/// in `active` style.
pub open spec fn mode_line(current: PlaybackMode, active: Style) -> Seq<SpanView> {
    let separator = SpanView { content: " | "@, style: separator_style() };
    seq![
        mode_span(0, current, active),
        separator,
        mode_span(1, current, active),
        separator,
        mode_span(2, current, active),
        separator,
        mode_span(3, current, active),
    ]
}

/// Shows all playback modes, the current one set off.
#[derive(Debug)]
pub struct PlaybackModeTui {
    pub mode: PlaybackMode,
    pub style: TuiStyle,
}

impl PlaybackModeTui {
    /// Whether this is the widget that the player starts with: the first
    /// mode, aligned to the right.
    pub open spec fn is_default(&self) -> bool {
        self.mode == PlaybackMode::Repeat && self.style == TuiStyle::aligned_spec(
            Alignment::Right,
        )
    }

    /// What the widget draws.
    pub open spec fn scene(&self, rect: Rect) -> Seq<DrawView> {
        seq![
            DrawView {
                shape: ShapeView::Paragraph {
                    text: TextView::Line(mode_line(self.mode, self.style.style())),
                    style: Style::plain(),
                    alignment: self.style.alignment,
                },
                area: rect,
            },
        ]
    }

    /// The line of all modes, the current one in the style of the widget,
    /// the others in gray.
    pub fn build_mode_line(&self) -> (line: Vec<Span>)
        ensures
            spans_view(line@) == mode_line(self.mode, self.style.style()),
    {
        let variants = PlaybackMode::variants();
        let mut spans: Vec<Span> = Vec::new();
        let mut i: usize = 0;
        while i < 4
            invariant
                i <= 4,
                variants@ == PlaybackMode::variants_spec(),
                spans@.len() == if i == 0 {
                    0int
                } else {
                    2 * i - 1
                },
                forall|k: int|
                    0 <= k < spans@.len() ==> (#[trigger] spans@[k])@ == mode_line(
                        self.mode,
                        self.style.style(),
                    )[k],
            decreases 4 - i,
        {
            if i > 0 {
                spans.push(Span::styled(" | ".to_owned(), Style::new().fg(Color::White)));
            }
            let mode = variants[i];
            let style = if mode == self.mode {
                self.tui_style()
            } else {
                Style::new().fg(Color::Gray)
            };
            spans.push(Span::styled(mode.name().to_owned(), style));
            i += 1;
        }
        assert(spans_view(spans@) =~= mode_line(self.mode, self.style.style()));
        spans
    }

    /// Goes on to the next mode.
    pub fn toggle_mode(&mut self)
        ensures
            *final(self) == (PlaybackModeTui { mode: old(self).mode.next_spec(), ..*old(self) }),
    {
        self.mode = self.mode.next();
    }

    pub fn set_mode(&mut self, mode: PlaybackMode)
        ensures
            *final(self) == (PlaybackModeTui { mode, ..*old(self) }),
    {
        self.mode = mode;
    }

    pub fn mode(&self) -> (mode: PlaybackMode)
        ensures
            mode == self.mode,
    {
        self.mode
    }
}

impl Default for PlaybackModeTui {
    fn default() -> (widget: PlaybackModeTui)
        ensures
            widget.is_default(),
    {
        PlaybackModeTui { mode: PlaybackMode::Repeat, style: TuiStyle::aligned(Alignment::Right) }
    }
}

impl HasTuiStyle for PlaybackModeTui {
    open spec fn tui_facet(&self) -> TuiStyle {
        self.style
    }

    fn tui_ref(&self) -> (style: &TuiStyle) {
        &self.style
    }
}

impl HasTuiStyleSetter for PlaybackModeTui {
    open spec fn with_tui(self, style: TuiStyle) -> Self {
        PlaybackModeTui { style, ..self }
    }

    proof fn lemma_tui(&self) {
    }

    fn tui_mut(&mut self) -> (style: &mut TuiStyle) {
        &mut self.style
    }
}

impl RenderTui for PlaybackModeTui {
    open spec fn event_capability(&self) -> bool {
        false
    }

    open spec fn border_capability(&self) -> bool {
        false
    }

    open spec fn draws(&self, rect: Rect, drawn: Seq<DrawView>) -> bool {
        drawn == self.scene(rect)
    }

    fn render(&self, frame: &mut Frame, rect: Rect)
        ensures
            final(frame)@ == old(frame)@ + self.scene(rect),
    {
        let widget = Paragraph {
            text: Text::Line(self.build_mode_line()),
            style: Style::new(),
            alignment: self.tui_alignment(),
        };
        frame.render_widget(Shape::Paragraph(widget), rect);
        assert(frame@ =~= old(frame)@ + self.scene(rect));
        assert(self.draws(rect, self.scene(rect)));
    }

    fn as_event(&self) -> (found: Option<&Self>) {
        None
    }

    fn as_event_mut(&mut self) -> (found: Option<&mut Self>) {
        None
    }

    fn as_border_mut(&mut self) -> (found: Option<&mut Self>) {
        None
    }
}

impl Downcast for PlaybackModeTui {
    open spec fn is_in(widget: &Widget) -> bool {
        widget is PlaybackMode
    }

    open spec fn of(widget: &Widget) -> Self {
        widget->PlaybackMode_0
    }

    open spec fn wrap(self) -> Widget {
        Widget::PlaybackMode(self)
    }

    proof fn lemma_wrap(widget: &Widget) {
    }

    fn downcast_ref(widget: &Widget) -> (found: Option<&Self>) {
        match widget {
            Widget::PlaybackMode(inner) => Some(inner),
            _ => None,
        }
    }

    fn downcast_mut(widget: &mut Widget) -> (found: Option<&mut Self>) {
        match widget {
            Widget::PlaybackMode(inner) => Some(inner),
            _ => None,
        }
    }
}

} // verus!
