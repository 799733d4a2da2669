//! The playback state and its icon.

use vstd::prelude::*;
use crate::style::{Alignment, HasTuiStyle, HasTuiStyleSetter, TuiStyle};
use crate::tui::frame::{DrawView, Frame, Paragraph, Shape, ShapeView, Text, TextView};
use crate::tui::traits::{Downcast, RenderTui};
use crate::tui::types::Rect;
use crate::tui::widget::Widget;

verus! {

/// Whether a track is playing.
#[derive(Clone, Copy, Debug, PartialEq, Eq, Structural)]
pub enum PlaybackState {
    Playing,
    Paused,
    Stopped,
}

impl Default for PlaybackState {
    fn default() -> (state: PlaybackState)
        ensures
            state == PlaybackState::Stopped,
    {
        PlaybackState::Stopped
    }
}

impl PlaybackState {
    /// The state after a toggle: paused where it was playing, playing
    /// otherwise.
    pub open spec fn toggled(self) -> PlaybackState {
        match self {
            PlaybackState::Playing => PlaybackState::Paused,
            PlaybackState::Paused | PlaybackState::Stopped => PlaybackState::Playing,
        }
    }

    /// The icon and name of the state.
    pub open spec fn icon(self) -> Seq<char> {
        match self {
            PlaybackState::Playing => " \u{f04b}  Playing"@,
            PlaybackState::Paused => " \u{f04c}  Paused"@,
            PlaybackState::Stopped => " \u{f04d}  Stopped"@,
        }
    }
}

/// Toggling never leads to `Stopped`, and from then on it alternates between
/// two states: a second toggle undoes a toggle, except that `Stopped` is not
/// come back to.
pub proof fn law_toggle_is_two_cycle(state: PlaybackState)
    ensures
        state.toggled() != PlaybackState::Stopped,
        state.toggled().toggled().toggled() == state.toggled(),
        state != PlaybackState::Stopped ==> state.toggled().toggled() == state,
        state == PlaybackState::Stopped ==> state.toggled().toggled() == PlaybackState::Paused,
{
}

/// Shows the playback state.
#[derive(Debug)]
pub struct PlaybackTui {
    pub style: TuiStyle,
    pub state: PlaybackState,
}

impl PlaybackTui {
    /// Whether this is the widget that the player starts with: stopped,
    /// aligned to the left.
    pub open spec fn is_default(&self) -> bool {
        self.state == PlaybackState::Stopped && self.style == TuiStyle::aligned_spec(
            Alignment::Left,
        )
    }

    /// What the widget draws.
    pub open spec fn scene(&self, rect: Rect) -> Seq<DrawView> {
        seq![
            DrawView {
                shape: ShapeView::Paragraph {
                    text: TextView::Raw(self.state.icon()),
                    style: self.style.style(),
                    alignment: self.style.alignment,
                },
                area: rect,
            },
        ]
    }

    pub fn set_playback_state(&mut self, state: PlaybackState)
        ensures
            *final(self) == (PlaybackTui { state, ..*old(self) }),
    {
        self.state = state;
    }

    pub fn state(&self) -> (state: PlaybackState)
        ensures
            state == self.state,
    {
        self.state
    }

    /// The icon and name of the current state.
    pub fn get_playback_icon(&self) -> (icon: &'static str)
        ensures
            icon@ == self.state.icon(),
    {
        match self.state {
            PlaybackState::Playing => " \u{f04b}  Playing",
            PlaybackState::Paused => " \u{f04c}  Paused",
            PlaybackState::Stopped => " \u{f04d}  Stopped",
        }
    }

    /// Pauses what is playing, and plays what is paused or stopped.
    pub fn toggle_state(&mut self)
        ensures
            *final(self) == (PlaybackTui { state: old(self).state.toggled(), ..*old(self) }),
    {
        self.state = match self.state {
            PlaybackState::Playing => PlaybackState::Paused,
            PlaybackState::Paused | PlaybackState::Stopped => PlaybackState::Playing,
        };
    }
}

impl Default for PlaybackTui {
    fn default() -> (widget: PlaybackTui)
        ensures
            widget.is_default(),
    {
        PlaybackTui { style: TuiStyle::aligned(Alignment::Left), state: PlaybackState::Stopped }
    }
}

impl HasTuiStyle for PlaybackTui {
    open spec fn tui_facet(&self) -> TuiStyle {
        self.style
    }

    fn tui_ref(&self) -> (style: &TuiStyle) {
        &self.style
    }
}

impl HasTuiStyleSetter for PlaybackTui {
    open spec fn with_tui(self, style: TuiStyle) -> Self {
        PlaybackTui { style, ..self }
    }

    proof fn lemma_tui(&self) {
    }

    fn tui_mut(&mut self) -> (style: &mut TuiStyle) {
        &mut self.style
    }
}

impl RenderTui for PlaybackTui {
    open spec fn event_capability(&self) -> bool {
        false
    }

    open spec fn border_capability(&self) -> bool {
        false
    }

    open spec fn draws(&self, rect: Rect, drawn: Seq<DrawView>) -> bool {
        drawn == self.scene(rect)
    }

    fn render(&self, frame: &mut Frame, rect: Rect)
        ensures
            final(frame)@ == old(frame)@ + self.scene(rect),
    {
        let widget = Paragraph {
            text: Text::Raw(self.get_playback_icon().to_owned()),
            style: self.tui_style(),
            alignment: self.tui_alignment(),
        };
        frame.render_widget(Shape::Paragraph(widget), rect);
        assert(frame@ =~= old(frame)@ + self.scene(rect));
        assert(self.draws(rect, self.scene(rect)));
    }

    fn as_event(&self) -> (found: Option<&Self>) {
        None
    }

    fn as_event_mut(&mut self) -> (found: Option<&mut Self>) {
        None
    }

    fn as_border_mut(&mut self) -> (found: Option<&mut Self>) {
        None
    }
}

impl Downcast for PlaybackTui {
    open spec fn is_in(widget: &Widget) -> bool {
        widget is Playback
    }

    open spec fn of(widget: &Widget) -> Self {
        widget->Playback_0
    }

    open spec fn wrap(self) -> Widget {
        Widget::Playback(self)
    }

    proof fn lemma_wrap(widget: &Widget) {
    }

    fn downcast_ref(widget: &Widget) -> (found: Option<&Self>) {
        match widget {
            Widget::Playback(inner) => Some(inner),
            _ => None,
        }
    }

    fn downcast_mut(widget: &mut Widget) -> (found: Option<&mut Self>) {
        match widget {
            Widget::Playback(inner) => Some(inner),
            _ => None,
        }
    }
}

} // verus!
