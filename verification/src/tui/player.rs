//! The player panel: six widgets in two rows of three.

pub mod artist;
pub mod playback;
pub mod playback_mode;
pub mod playback_progress;
pub mod track;
pub mod volume;

use vstd::prelude::*;
use crate::style::{
    BorderStyle, HasBorderStyle, HasBorderStyleSetter, HasTitleStyle, HasTitleStyleSetter,
    HasTuiStyle, HasTuiStyleSetter, TitleStyle, TuiStyle,
};
use crate::tui::frame::{DrawView, Frame, Shape};
use crate::tui::layout::{columns_of, horizontal, rows_of, vertical};
use crate::tui::player::artist::ArtistTui;
use crate::tui::player::playback::PlaybackTui;
use crate::tui::player::playback_mode::PlaybackModeTui;
use crate::tui::player::playback_progress::PlaybackProgressTui;
use crate::tui::player::track::TrackTui;
use crate::tui::player::volume::{clamp_volume, VolumeTui};
use crate::tui::traits::{
    block_view, changed_first, inner_view, Downcast, HasWidgets, RenderTui, TuiBlock,
    TuiEventHandle,
};
use crate::tui::types::{Constraint, Rect, TuiEnent};
use crate::tui::widget::{
    children_draw, player_draws_in, regions, render_children, shorter, Widget,
};

verus! {

/// The whole player: playback state, track and volume in the first row,
/// progress, artist and playback mode in the second.
#[derive(Debug)]
pub struct PlayerTui {
    pub title: TitleStyle,
    pub border: BorderStyle,
    pub style: TuiStyle,
    pub widgets: Vec<Widget>,
}

impl PlayerTui {
    /// Whether this is the panel that the program starts with: the default
    /// facets, and the six widgets as they start, in their order.
    pub open spec fn is_default(&self) -> bool {
        &&& self.title.is_default()
        &&& self.border == BorderStyle::default_spec()
        &&& self.style == TuiStyle::aligned_spec(crate::style::Alignment::Left)
        &&& self.widgets@.len() == 6
        &&& self.widgets@[0] matches Widget::Playback(w) && w.is_default()
        &&& self.widgets@[1] matches Widget::Track(w) && w.is_default()
        &&& self.widgets@[2] matches Widget::Volume(w) && w.is_default()
        &&& self.widgets@[3] matches Widget::PlaybackProgress(w) && w.is_default()
        &&& self.widgets@[4] matches Widget::Artist(w) && w.is_default()
        &&& self.widgets@[5] matches Widget::PlaybackMode(w) && w.is_default()
    }

    /// What the panel asks of the layout from top to bottom: two rows of
    /// equal height.
    pub open spec fn rows_spec() -> Seq<Constraint> {
        seq![Constraint::Percentage(50), Constraint::Percentage(50)]
    }

    /// What the panel asks of the layout in each row: three columns, the
    /// first three tenths wide, the second at least forty cells, the third
    /// at least thirty.
    pub open spec fn columns_spec() -> Seq<Constraint> {
        seq![Constraint::Percentage(30), Constraint::Min(40), Constraint::Min(30)]
    }

    /// What the panel asks of the layout from top to bottom.
    pub fn rows() -> (wanted: Vec<Constraint>)
        ensures
            wanted@ == PlayerTui::rows_spec(),
    {
        let mut wanted: Vec<Constraint> = Vec::new();
        wanted.push(Constraint::Percentage(50));
        wanted.push(Constraint::Percentage(50));
        assert(wanted@ =~= PlayerTui::rows_spec());
        wanted
    }

    /// What the panel asks of the layout in each row.
    pub fn columns() -> (wanted: Vec<Constraint>)
        ensures
            wanted@ == PlayerTui::columns_spec(),
    {
        let mut wanted: Vec<Constraint> = Vec::new();
        wanted.push(Constraint::Percentage(30));
        wanted.push(Constraint::Min(40));
        wanted.push(Constraint::Min(30));
        assert(wanted@ =~= PlayerTui::columns_spec());
        wanted
    }

    /// Whether the six regions lie in the interior of the panel as its
    /// layout cuts it: two rows as wide as the interior, the first three
    /// regions columns of the first row, the last three columns of the
    /// second.
    pub open spec fn regions_fit(&self, rect: Rect, areas: Seq<Rect>) -> bool {
        exists|rows: Seq<Rect>|
            #[trigger] regions(rows, 2) && rows_of(rows, inner_view(self, rect)) && columns_of(
                areas.subrange(0, 3),
                rows[0],
            ) && columns_of(areas.subrange(3, 6), rows[1])
    }

    /// The block of the panel, drawn into `rect`.
    pub open spec fn block_draw(&self, rect: Rect) -> DrawView {
        DrawView { shape: block_view(self), area: rect }
    }

    /// Draws the panel with its children in the given regions: the block of
    /// the panel into `rect`, then each child into the region of its
    /// position, as far as there are regions.
    pub fn render_in(&self, frame: &mut Frame, rect: Rect, areas: &Vec<Rect>)
        ensures
            final(frame).whole() == old(frame).whole(),
            exists|drawn: Seq<DrawView>|
                #[trigger] player_draws_in(self, rect, areas@, drawn) && final(frame)@ == old(
                    frame,
                )@ + drawn,
        decreases self, 1int,
    {
        frame.render_widget(Shape::Block(self.to_block()), rect);
        let ghost framed = frame@;
        render_children(&self.widgets, frame, areas);
        proof {
            let rest = choose|rest: Seq<DrawView>|
                #[trigger] children_draw(
                    self.widgets@,
                    areas@,
                    shorter(self.widgets@.len(), areas@.len()),
                    rest,
                ) && frame@ == framed + rest;
            let drawn = seq![self.block_draw(rect)] + rest;
            assert(drawn.skip(1) =~= rest);
            assert(frame@ =~= old(frame)@ + drawn);
            assert(player_draws_in(self, rect, areas@, drawn));
        }
    }
}

impl Default for PlayerTui {
    fn default() -> (widget: PlayerTui)
        ensures
            widget.is_default(),
    {
        let mut widgets: Vec<Widget> = Vec::new();
        widgets.push(Widget::Playback(PlaybackTui::default()));
        widgets.push(Widget::Track(TrackTui::default()));
        widgets.push(Widget::Volume(VolumeTui::default()));
        widgets.push(Widget::PlaybackProgress(PlaybackProgressTui::default()));
        widgets.push(Widget::Artist(ArtistTui::default()));
        widgets.push(Widget::PlaybackMode(PlaybackModeTui::default()));
        PlayerTui {
            title: TitleStyle::default(),
            border: BorderStyle::default(),
            style: TuiStyle::default(),
            widgets,
        }
    }
}

impl HasTitleStyle for PlayerTui {
    open spec fn title_facet(&self) -> TitleStyle {
        self.title
    }

    fn title_ref(&self) -> (title: &TitleStyle) {
        &self.title
    }
}

impl HasTitleStyleSetter for PlayerTui {
    open spec fn with_title(self, title: TitleStyle) -> Self {
        PlayerTui { title, ..self }
    }

    proof fn lemma_title(&self) {
    }

    fn title_mut(&mut self) -> (title: &mut TitleStyle) {
        &mut self.title
    }
}

impl HasBorderStyle for PlayerTui {
    open spec fn border_facet(&self) -> BorderStyle {
        self.border
    }

    fn border_ref(&self) -> (border: &BorderStyle) {
        &self.border
    }
}

impl HasBorderStyleSetter for PlayerTui {
    open spec fn with_border(self, border: BorderStyle) -> Self {
        PlayerTui { border, ..self }
    }

    proof fn lemma_border(&self) {
    }

    fn border_mut(&mut self) -> (border: &mut BorderStyle) {
        &mut self.border
    }
}

impl HasTuiStyle for PlayerTui {
    open spec fn tui_facet(&self) -> TuiStyle {
        self.style
    }

    fn tui_ref(&self) -> (style: &TuiStyle) {
        &self.style
    }
}

impl HasTuiStyleSetter for PlayerTui {
    open spec fn with_tui(self, style: TuiStyle) -> Self {
        PlayerTui { style, ..self }
    }

    proof fn lemma_tui(&self) {
    }

    fn tui_mut(&mut self) -> (style: &mut TuiStyle) {
        &mut self.style
    }
}

impl HasWidgets for PlayerTui {
    open spec fn children(&self) -> Vec<Widget> {
        self.widgets
    }

    open spec fn with_children(self, children: Vec<Widget>) -> Self {
        PlayerTui { widgets: children, ..self }
    }

    proof fn lemma_children(&self) {
    }

    fn get_widgets(&self) -> (widgets: &Vec<Widget>) {
        &self.widgets
    }

    fn get_widgets_mut(&mut self) -> (widgets: &mut Vec<Widget>) {
        &mut self.widgets
    }
}

impl RenderTui for PlayerTui {
    open spec fn event_capability(&self) -> bool {
        true
    }

    open spec fn border_capability(&self) -> bool {
        true
    }

    /// The panel may draw what it draws with its children in any six
    /// regions that fit its interior.
    open spec fn draws(&self, rect: Rect, drawn: Seq<DrawView>) -> bool {
        exists|areas: Seq<Rect>|
            #[trigger] regions(areas, 6) && self.regions_fit(rect, areas) && player_draws_in(
                self,
                rect,
                areas,
                drawn,
            )
    }

    /// Draws the block of the panel into `rect`, cuts what is inside into
    /// two rows of three columns, and draws the children into them, row by
    /// row.
    fn render(&self, frame: &mut Frame, rect: Rect)
        decreases self, 2int,
    {
        let inner = self.get_inner(rect);
        let rows = vertical(&PlayerTui::rows(), inner);
        let columns = PlayerTui::columns();
        let mut areas = horizontal(&columns, rows[0]);
        let mut second = horizontal(&columns, rows[1]);
        let ghost first_row = areas@;
        let ghost second_row = second@;
        areas.append(&mut second);
        proof {
            assert(areas@.subrange(0, 3) =~= first_row);
            assert(areas@.subrange(3, 6) =~= second_row);
            assert(regions(rows@, 2));
            assert(self.regions_fit(rect, areas@));
        }
        self.render_in(frame, rect, &areas);
        proof {
            let drawn = choose|drawn: Seq<DrawView>|
                #[trigger] player_draws_in(self, rect, areas@, drawn) && frame@ == old(frame)@
                    + drawn;
            assert(regions(areas@, 6));
            assert(self.draws(rect, drawn));
        }
    }

    fn as_event(&self) -> (found: Option<&Self>) {
        Some(self)
    }

    fn as_event_mut(&mut self) -> (found: Option<&mut Self>) {
        Some(self)
    }

    fn as_border_mut(&mut self) -> (found: Option<&mut Self>) {
        Some(self)
    }
}

impl TuiEventHandle for PlayerTui {
    /// Each event goes to the first child of one type, and changes nothing
    /// else: a playback event toggles the playback state; a volume event
    /// changes the volume; a progress event sets the time played and the
    /// length; a mode event goes on to the next mode; artist and track
    /// events set the names. Any other event, and any event whose child is
    /// missing, changes nothing.
    open spec fn handled(&self, event: TuiEnent, after: &Self) -> bool {
        &&& after.title == self.title
        &&& after.border == self.border
        &&& after.style == self.style
        &&& match event {
            TuiEnent::Playback => changed_first::<PlaybackTui>(
                self.widgets@,
                after.widgets@,
                |w: PlaybackTui, n: PlaybackTui| n == (PlaybackTui { state: w.state.toggled(), ..w }),
            ),
            TuiEnent::Volume(delta) => changed_first::<VolumeTui>(
                self.widgets@,
                after.widgets@,
                |w: VolumeTui, n: VolumeTui|
                    n == (VolumeTui { volume: clamp_volume(w.volume as int + delta as int), ..w }),
            ),
            TuiEnent::PlaybackProgress(elapsed, total) => changed_first::<PlaybackProgressTui>(
                self.widgets@,
                after.widgets@,
                |w: PlaybackProgressTui, n: PlaybackProgressTui|
                    n == (PlaybackProgressTui { progress: elapsed, duration: total, ..w }),
            ),
            TuiEnent::PlaybackMode => changed_first::<PlaybackModeTui>(
                self.widgets@,
                after.widgets@,
                |w: PlaybackModeTui, n: PlaybackModeTui|
                    n == (PlaybackModeTui { mode: w.mode.next_spec(), ..w }),
            ),
            TuiEnent::Artist(name) => changed_first::<ArtistTui>(
                self.widgets@,
                after.widgets@,
                |w: ArtistTui, n: ArtistTui| n.artist@ == name@ && n.style == w.style,
            ),
            TuiEnent::Track(name) => changed_first::<TrackTui>(
                self.widgets@,
                after.widgets@,
                |w: TrackTui, n: TrackTui| n.track@ == name@ && n.style == w.style,
            ),
            _ => after.widgets@ == self.widgets@,
        }
    }

    fn event_handle(&mut self, event: TuiEnent) {
        proof {
            self.lemma_children();
        }
        match event {
            TuiEnent::Playback => {
                if let Some(w) = self.get_widget_mut::<PlaybackTui>() {
                    w.toggle_state();
                }
            },
            TuiEnent::Volume(delta) => {
                if let Some(w) = self.get_widget_mut::<VolumeTui>() {
                    w.adjust_volume(delta);
                }
            },
            TuiEnent::PlaybackProgress(elapsed, total) => {
                if let Some(w) = self.get_widget_mut::<PlaybackProgressTui>() {
                    w.set_progress(elapsed);
                    w.set_duration(total);
                }
            },
            TuiEnent::PlaybackMode => {
                if let Some(w) = self.get_widget_mut::<PlaybackModeTui>() {
                    w.toggle_mode();
                }
            },
            TuiEnent::Artist(name) => {
                if let Some(w) = self.get_widget_mut::<ArtistTui>() {
                    w.set_artist(name.as_str());
                }
            },
            TuiEnent::Track(name) => {
                if let Some(w) = self.get_widget_mut::<TrackTui>() {
                    w.set_track(name.as_str());
                }
            },
            _ => {},
        }
    }
}

impl Downcast for PlayerTui {
    open spec fn is_in(widget: &Widget) -> bool {
        widget is Player
    }

    open spec fn of(widget: &Widget) -> Self {
        widget->Player_0
    }

    open spec fn wrap(self) -> Widget {
        Widget::Player(self)
    }

    proof fn lemma_wrap(widget: &Widget) {
    }

    fn downcast_ref(widget: &Widget) -> (found: Option<&Self>) {
        match widget {
            Widget::Player(inner) => Some(inner),
            _ => None,
        }
    }

    fn downcast_mut(widget: &mut Widget) -> (found: Option<&mut Self>) {
        match widget {
            Widget::Player(inner) => Some(inner),
            _ => None,
        }
    }
}

} // verus!
