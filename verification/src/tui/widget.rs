//! The nodes of the widget tree: every concrete widget, as one closed type.

use vstd::prelude::*;
use crate::style::HasBorderStyleSetter;
use crate::tui::frame::{DrawView, Frame};
use crate::tui::navbar::NavbarTui;
use crate::tui::player::artist::ArtistTui;
use crate::tui::player::playback::PlaybackTui;
use crate::tui::player::playback_mode::PlaybackModeTui;
use crate::tui::player::playback_progress::PlaybackProgressTui;
use crate::tui::player::track::TrackTui;
use crate::tui::player::volume::VolumeTui;
use crate::tui::player::PlayerTui;
use crate::tui::progress::ProgressTui;
use crate::tui::router_view::RouterViewTui;
use crate::tui::layout::columns_of;
use crate::tui::traits::{inner_view, RenderTui, TuiEventHandle};
use crate::tui::types::{Rect, TuiEnent};

verus! {

/// A member of the widget tree.
#[derive(Debug)]
pub enum Widget {
    Playback(PlaybackTui),
    Track(TrackTui),
    Volume(VolumeTui),
    PlaybackProgress(PlaybackProgressTui),
    Artist(ArtistTui),
    PlaybackMode(PlaybackModeTui),
    Player(PlayerTui),
    Navbar(NavbarTui),
    Progress(ProgressTui),
    RouterView(RouterViewTui),
}

/// The smaller of two lengths.
pub open spec fn shorter(a: nat, b: nat) -> int {
    if a <= b {
        a as int
    } else {
        b as int
    }
}

/// Whether there are exactly `count` regions.
pub open spec fn regions(areas: Seq<Rect>, count: nat) -> bool {
    areas.len() == count
}

/// A position at which a drawing can be cut in two.
pub open spec fn cuts(drawn: Seq<DrawView>, at: int) -> bool {
    0 <= at <= drawn.len()
}

/// Whether `drawn` is what the widget may draw into `rect`. Most widgets
/// draw in one way only. The progress bar and the player leave the regions
/// of their parts to the layout solver: they may draw what they draw for
/// any three columns of their interior, or any two rows of it with three
/// columns each.
pub open spec fn widget_draws(widget: &Widget, rect: Rect, drawn: Seq<DrawView>) -> bool
    decreases widget, 0int,
{
    match widget {
        Widget::Playback(w) => drawn == w.scene(rect),
        Widget::Track(w) => drawn == w.scene(rect),
        Widget::Volume(w) => drawn == w.scene(rect),
        Widget::PlaybackProgress(w) => drawn == w.scene(rect),
        Widget::Artist(w) => drawn == w.scene(rect),
        Widget::PlaybackMode(w) => drawn == w.scene(rect),
        Widget::Navbar(w) => drawn == w.scene(rect),
        Widget::RouterView(w) => drawn == w.scene(rect),
        Widget::Progress(w) => exists|row: Seq<Rect>|
            #[trigger] regions(row, 3) && columns_of(row, inner_view(w, rect)) && drawn
                == w.scene_in(rect, row),
        Widget::Player(w) => exists|areas: Seq<Rect>|
            #[trigger] regions(areas, 6) && w.regions_fit(rect, areas) && player_draws_in(
                w,
                rect,
                areas,
                drawn,
            ),
    }
}

/// Whether `drawn` is what the player may draw into `rect` with its
/// children in the given regions: its block, then what the children draw.
pub open spec fn player_draws_in(
    player: &PlayerTui,
    rect: Rect,
    areas: Seq<Rect>,
    drawn: Seq<DrawView>,
) -> bool
    decreases player, 0int,
{
    &&& drawn.len() >= 1
    &&& drawn[0] == player.block_draw(rect)
    &&& children_draw(
        player.widgets@,
        areas,
        shorter(player.widgets@.len(), areas.len()),
        drawn.skip(1),
    )
}

/// Whether `drawn` is what the first `count` children may draw, one after
/// the other, each into the region of its position.
pub open spec fn children_draw(
    children: Seq<Widget>,
    areas: Seq<Rect>,
    count: int,
    drawn: Seq<DrawView>,
) -> bool
    decreases children, count,
{
    if count <= 0 || count > children.len() {
        drawn.len() == 0
    } else {
        exists|at: int|
            #[trigger] cuts(drawn, at) && children_draw(children, areas, count - 1, drawn.take(at))
                && widget_draws(&children[count - 1], areas[count - 1], drawn.skip(at))
    }
}

/// Draws the children in order, each into the region of its position, as
/// far as there are regions: a child without a region is not drawn.
pub fn render_children(children: &Vec<Widget>, frame: &mut Frame, areas: &Vec<Rect>)
    ensures
        final(frame).whole() == old(frame).whole(),
        exists|drawn: Seq<DrawView>|
            #[trigger] children_draw(
                children@,
                areas@,
                shorter(children@.len(), areas@.len()),
                drawn,
            ) && final(frame)@ == old(frame)@ + drawn,
    decreases children, 0int,
{
    let count: usize = if children.len() <= areas.len() {
        children.len()
    } else {
        areas.len()
    };
    let mut i: usize = 0;
    let ghost mut so_far = Seq::<DrawView>::empty();
    assert(frame@ =~= old(frame)@ + so_far);
    while i < count
        invariant
            i <= count,
            count == shorter(children@.len(), areas@.len()),
            frame.whole() == old(frame).whole(),
            children_draw(children@, areas@, i as int, so_far),
            frame@ == old(frame)@ + so_far,
        decreases count - i,
    {
        let ghost before = frame@;
        children[i].render(frame, areas[i]);
        proof {
            let last = choose|last: Seq<DrawView>|
                #[trigger] children@[i as int].draws(areas@[i as int], last) && frame@ == before
                    + last;
            let all = so_far + last;
            let split = so_far.len() as int;
            assert(all.take(split) =~= so_far);
            assert(all.skip(split) =~= last);
            assert(cuts(all, split));
            assert(children_draw(children@, areas@, i + 1, all));
            assert(frame@ =~= old(frame)@ + all);
            so_far = all;
        }
        i += 1;
    }
}

/// Whether `after` is the widget `before` once it and all widgets below it
/// have toggled the border they expose: a widget with a border facet shows
/// all edges where it showed none, and none where it showed any; a widget
/// without one stays as it is.
pub open spec fn borders_toggled(before: &Widget, after: &Widget) -> bool
    decreases before,
{
    match (before, after) {
        (Widget::Player(b), Widget::Player(a)) => {
            &&& a.title == b.title
            &&& a.style == b.style
            &&& a.border == b.border.toggled()
            &&& a.widgets@.len() == b.widgets@.len()
            &&& forall|i: int|
                0 <= i < b.widgets@.len() ==> borders_toggled(
                    &#[trigger] b.widgets@[i],
                    &a.widgets@[i],
                )
        },
        (Widget::RouterView(b), Widget::RouterView(a)) => {
            &&& a.title == b.title
            &&& a.style == b.style
            &&& a.border == b.border.toggled()
            &&& a.widgets@.len() == b.widgets@.len()
            &&& forall|i: int|
                0 <= i < b.widgets@.len() ==> borders_toggled(
                    &#[trigger] b.widgets@[i],
                    &a.widgets@[i],
                )
        },
        (Widget::Navbar(b), Widget::Navbar(a)) => *a == b.with_border(b.border.toggled()),
        (Widget::Progress(b), Widget::Progress(a)) => *a == b.with_border(b.border.toggled()),
        (Widget::Playback(_), _)
        | (Widget::Track(_), _)
        | (Widget::Volume(_), _)
        | (Widget::PlaybackProgress(_), _)
        | (Widget::Artist(_), _)
        | (Widget::PlaybackMode(_), _) => *after == *before,
        _ => false,
    }
}

/// Whether every widget of `after` is the widget of `before` at its
/// position with the borders toggled.
pub open spec fn all_borders_toggled(before: Seq<Widget>, after: Seq<Widget>) -> bool {
    &&& after.len() == before.len()
    &&& forall|i: int|
        0 <= i < before.len() ==> borders_toggled(&#[trigger] before[i], &after[i])
}

/// Toggles the borders of all widgets of the list, and of all widgets below
/// them.
pub fn toggle_children_borders(children: &mut Vec<Widget>)
    ensures
        all_borders_toggled(old(children)@, final(children)@),
    decreases *old(children), 0int,
{
    let mut i: usize = 0;
    while i < children.len()
        invariant
            i <= children@.len(),
            children@.len() == old(children)@.len(),
            forall|j: int|
                0 <= j < i ==> borders_toggled(&#[trigger] old(children)@[j], &children@[j]),
            forall|j: int| i <= j < children@.len() ==> #[trigger] children@[j] == old(children)@[j],
        decreases children@.len() - i,
    {
        children[i].toggle_all_border();
        i += 1;
    }
}

impl Widget {
    /// Toggles the border of this widget, if it exposes one, and the
    /// borders of all widgets below it.
    pub fn toggle_all_border(&mut self)
        ensures
            borders_toggled(old(self), final(self)),
        decreases *old(self), 1int,
    {
        match self {
            Widget::Player(w) => {
                w.toggle_border();
                toggle_children_borders(&mut w.widgets);
            },
            Widget::RouterView(w) => {
                w.toggle_border();
                toggle_children_borders(&mut w.widgets);
            },
            Widget::Navbar(w) => {
                w.toggle_border();
            },
            Widget::Progress(w) => {
                w.toggle_border();
            },
            _ => {},
        }
    }
}

impl RenderTui for Widget {
    open spec fn event_capability(&self) -> bool {
        self is Player || self is Navbar || self is RouterView
    }

    open spec fn border_capability(&self) -> bool {
        self is Player || self is Navbar || self is Progress || self is RouterView
    }

    open spec fn draws(&self, rect: Rect, drawn: Seq<DrawView>) -> bool {
        widget_draws(self, rect, drawn)
    }

    fn render(&self, frame: &mut Frame, rect: Rect)
        decreases self, 1int,
    {
        match self {
            Widget::Playback(w) => {
                w.render(frame, rect);
                assert(self.draws(rect, w.scene(rect)));
            },
            Widget::Track(w) => {
                w.render(frame, rect);
                assert(self.draws(rect, w.scene(rect)));
            },
            Widget::Volume(w) => {
                w.render(frame, rect);
                assert(self.draws(rect, w.scene(rect)));
            },
            Widget::PlaybackProgress(w) => {
                w.render(frame, rect);
                assert(self.draws(rect, w.scene(rect)));
            },
            Widget::Artist(w) => {
                w.render(frame, rect);
                assert(self.draws(rect, w.scene(rect)));
            },
            Widget::PlaybackMode(w) => {
                w.render(frame, rect);
                assert(self.draws(rect, w.scene(rect)));
            },
            Widget::Navbar(w) => {
                w.render(frame, rect);
                assert(self.draws(rect, w.scene(rect)));
            },
            Widget::RouterView(w) => {
                w.render(frame, rect);
                assert(self.draws(rect, w.scene(rect)));
            },
            Widget::Player(w) => {
                w.render(frame, rect);
                proof {
                    let drawn = choose|drawn: Seq<DrawView>|
                        #[trigger] w.draws(rect, drawn) && frame@ == old(frame)@ + drawn;
                    assert(self.draws(rect, drawn));
                }
            },
            Widget::Progress(w) => {
                w.render(frame, rect);
                proof {
                    let drawn = choose|drawn: Seq<DrawView>|
                        #[trigger] w.draws(rect, drawn) && frame@ == old(frame)@ + drawn;
                    assert(self.draws(rect, drawn));
                }
            },
        }
    }

    fn as_event(&self) -> (found: Option<&Self>) {
        match self {
            Widget::Player(_) | Widget::Navbar(_) | Widget::RouterView(_) => Some(self),
            _ => None,
        }
    }

    fn as_event_mut(&mut self) -> (found: Option<&mut Self>) {
        match self {
            Widget::Player(_) | Widget::Navbar(_) | Widget::RouterView(_) => Some(self),
            _ => None,
        }
    }

    fn as_border_mut(&mut self) -> (found: Option<&mut Self>) {
        match self {
            Widget::Player(_) | Widget::Navbar(_) | Widget::Progress(_) | Widget::RouterView(_) => {
                Some(self)
            },
            _ => None,
        }
    }
}

impl TuiEventHandle for Widget {
    /// A widget that handles events handles the event as its type says; any
    /// other widget stays as it is. The kind of the widget never changes.
    open spec fn handled(&self, event: TuiEnent, after: &Self) -> bool {
        match (self, after) {
            (Widget::Player(b), Widget::Player(a)) => b.handled(event, a),
            (Widget::Navbar(b), Widget::Navbar(a)) => b.handled(event, a),
            (Widget::RouterView(b), Widget::RouterView(a)) => b.handled(event, a),
            (Widget::Player(_), _) | (Widget::Navbar(_), _) | (Widget::RouterView(_), _) => false,
            _ => *after == *self,
        }
    }

    fn event_handle(&mut self, event: TuiEnent) {
        match self {
            Widget::Player(w) => w.event_handle(event),
            Widget::Navbar(w) => w.event_handle(event),
            Widget::RouterView(w) => w.event_handle(event),
            _ => {},
        }
    }
}

/// A widget that has handled an event has the capabilities that it had
/// before: what a widget offers goes by its kind, and its kind never changes.
pub proof fn law_capabilities_outlast_events(before: Widget, event: TuiEnent, after: Widget)
    requires
        before.handled(event, &after),
    ensures
        after.event_capability() == before.event_capability(),
        after.border_capability() == before.border_capability(),
{
}

/// A widget whose borders were toggled has the capabilities that it had
/// before.
pub proof fn law_capabilities_outlast_toggles(before: Widget, after: Widget)
    requires
        borders_toggled(&before, &after),
    ensures
        after.event_capability() == before.event_capability(),
        after.border_capability() == before.border_capability(),
{
}

} // verus!
