//! The root of the widget tree: the player, the navigation bar and the
//! progress bar, one below the other.

use vstd::prelude::*;
use crate::style::{
    BorderStyle, HasBorderStyle, HasBorderStyleSetter, HasTitleStyle, HasTitleStyleSetter,
    HasTuiStyle, HasTuiStyleSetter, TitleStyle, TuiStyle,
};
use crate::tui::frame::{DrawView, Frame, Shape};
use crate::tui::layout::{rows_of, vertical};
use crate::tui::navbar::NavbarTui;
use crate::tui::player::PlayerTui;
use crate::tui::progress::{ProgressTui, Ratio};
use crate::tui::traits::{
    block_view, changed_first, inner_view, is_first, Downcast, HasWidgets, RenderTui,
    TuiBlock, TuiEventHandle,
};
use crate::tui::types::{Constraint, Rect, TuiEnent};
use crate::tui::widget::{
    all_borders_toggled, children_draw, regions, render_children, shorter,
    toggle_children_borders, Widget,
};

verus! {

/// The container of the whole interface.
#[derive(Debug)]
pub struct RootTui {
    pub title: TitleStyle,
    pub border: BorderStyle,
    pub style: TuiStyle,
    pub widgets: Vec<Widget>,
}

impl RootTui {
    /// Whether this is the root that the program starts with: the default
    /// facets, and below it the player, the navigation bar and the
    /// progress bar as they start.
    pub open spec fn is_default(&self) -> bool {
        &&& self.title.is_default()
        &&& self.border == BorderStyle::default_spec()
        &&& self.style == TuiStyle::aligned_spec(crate::style::Alignment::Left)
        &&& self.widgets@.len() == 3
        &&& self.widgets@[0] matches Widget::Player(w) && w.is_default()
        &&& self.widgets@[1] matches Widget::Navbar(w) && w.is_default()
        &&& self.widgets@[2] matches Widget::Progress(w) && w.is_default()
    }

    /// The block of the root, drawn into `rect`.
    pub open spec fn block_draw(&self, rect: Rect) -> DrawView {
        DrawView { shape: block_view(self), area: rect }
    }

    /// Whether the first child of type `T` shows a border; false where
    /// there is no such child.
    pub open spec fn child_has_border<T: Downcast + HasBorderStyle>(&self) -> bool {
        exists|at: int|
            is_first::<T>(self.widgets@, at) && T::of(&self.widgets@[at]).border_facet().border.bits
                != 0
    }

    /// The height that the last row of the layout may take: one row for a
    /// progress bar without border, three for one with a border.
    pub open spec fn progress_height(&self) -> u16 {
        if self.child_has_border::<ProgressTui>() {
            3
        } else {
            1
        }
    }

    /// What the root asks of the layout: four rows from the top, at least
    /// four cells for the player, at least three for the navigation bar, a
    /// row that fills what is left, and a last row of at most
    /// `progress_height` cells.
    pub open spec fn layout_spec(&self) -> Seq<Constraint> {
        seq![
            Constraint::Min(4),
            Constraint::Min(3),
            Constraint::Fill(20),
            Constraint::Max(self.progress_height()),
        ]
    }

    /// What the root asks of the layout.
    pub fn layout(&self) -> (wanted: Vec<Constraint>)
        ensures
            wanted@ == self.layout_spec(),
    {
        let last: u16 = if self.has_widgets_border::<ProgressTui>() {
            3
        } else {
            1
        };
        let mut wanted: Vec<Constraint> = Vec::new();
        wanted.push(Constraint::Min(4));
        wanted.push(Constraint::Min(3));
        wanted.push(Constraint::Fill(20));
        wanted.push(Constraint::Max(last));
        assert(wanted@ =~= self.layout_spec());
        wanted
    }

    /// Toggles the border of the root and of every widget below it that
    /// exposes one.
    pub fn toggle_all_border(&mut self)
        ensures
            final(self).title == old(self).title,
            final(self).style == old(self).style,
            final(self).border == old(self).border.toggled(),
            all_borders_toggled(old(self).widgets@, final(self).widgets@),
    {
        self.toggle_border();
        toggle_children_borders(&mut self.widgets);
    }

    /// Whether the first child of type `T` shows a border; false where
    /// there is no such child.
    pub fn has_widgets_border<T: Downcast + HasBorderStyle>(&self) -> (shown: bool)
        ensures
            shown == self.child_has_border::<T>(),
    {
        match self.get_widget::<T>() {
            Some(widget) => widget.has_border(),
            None => false,
        }
    }

    /// Sets how far the progress bar is filled. Nothing changes where the
    /// root has no progress bar.
    pub fn update_progress(&mut self, progress: Ratio)
        ensures
            final(self).title == old(self).title,
            final(self).border == old(self).border,
            final(self).style == old(self).style,
            changed_first::<ProgressTui>(
                old(self).widgets@,
                final(self).widgets@,
                |w: ProgressTui, n: ProgressTui| n == (ProgressTui { ratio: progress.clamped(), ..w }),
            ),
    {
        proof {
            self.lemma_children();
        }
        if let Some(bar) = self.get_widget_mut::<ProgressTui>() {
            bar.set_ratio(progress);
        }
    }

    /// Draws the root with its children in the given regions: the block of
    /// the root into `rect`, then each child into the region of its
    /// position, as far as there are regions.
    pub fn render_in(&self, frame: &mut Frame, rect: Rect, areas: &Vec<Rect>)
        ensures
            final(frame).whole() == old(frame).whole(),
            exists|drawn: Seq<DrawView>|
                #[trigger] self.draws_in(rect, areas@, drawn) && final(frame)@ == old(frame)@
                    + drawn,
    {
        frame.render_widget(Shape::Block(self.to_block()), rect);
        let ghost framed = frame@;
        render_children(&self.widgets, frame, areas);
        proof {
            let rest = choose|rest: Seq<DrawView>|
                #[trigger] children_draw(
                    self.widgets@,
                    areas@,
                    shorter(self.widgets@.len(), areas@.len()),
                    rest,
                ) && frame@ == framed + rest;
            let drawn = seq![self.block_draw(rect)] + rest;
            assert(drawn.skip(1) =~= rest);
            assert(frame@ =~= old(frame)@ + drawn);
            assert(self.draws_in(rect, areas@, drawn));
        }
    }

    /// Whether `drawn` is what the root may draw into `rect` with its
    /// children in the given regions: its block, then what the children
    /// draw.
    pub open spec fn draws_in(&self, rect: Rect, areas: Seq<Rect>, drawn: Seq<DrawView>) -> bool {
        &&& drawn.len() >= 1
        &&& drawn[0] == self.block_draw(rect)
        &&& children_draw(
            self.widgets@,
            areas,
            shorter(self.widgets@.len(), areas.len()),
            drawn.skip(1),
        )
    }
}

impl Default for RootTui {
    fn default() -> (widget: RootTui)
        ensures
            widget.is_default(),
    {
        let mut widgets: Vec<Widget> = Vec::new();
        widgets.push(Widget::Player(PlayerTui::default()));
        widgets.push(Widget::Navbar(NavbarTui::default()));
        widgets.push(Widget::Progress(ProgressTui::default()));
        RootTui {
            title: TitleStyle::default(),
            border: BorderStyle::default(),
            style: TuiStyle::default(),
            widgets,
        }
    }
}

impl HasTitleStyle for RootTui {
    open spec fn title_facet(&self) -> TitleStyle {
        self.title
    }

    fn title_ref(&self) -> (title: &TitleStyle) {
        &self.title
    }
}

impl HasTitleStyleSetter for RootTui {
    open spec fn with_title(self, title: TitleStyle) -> Self {
        RootTui { title, ..self }
    }

    proof fn lemma_title(&self) {
    }

    fn title_mut(&mut self) -> (title: &mut TitleStyle) {
        &mut self.title
    }
}

impl HasBorderStyle for RootTui {
    open spec fn border_facet(&self) -> BorderStyle {
        self.border
    }

    fn border_ref(&self) -> (border: &BorderStyle) {
        &self.border
    }
}

impl HasBorderStyleSetter for RootTui {
    open spec fn with_border(self, border: BorderStyle) -> Self {
        RootTui { border, ..self }
    }

    proof fn lemma_border(&self) {
    }

    fn border_mut(&mut self) -> (border: &mut BorderStyle) {
        &mut self.border
    }
}

impl HasTuiStyle for RootTui {
    open spec fn tui_facet(&self) -> TuiStyle {
        self.style
    }

    fn tui_ref(&self) -> (style: &TuiStyle) {
        &self.style
    }
}

impl HasTuiStyleSetter for RootTui {
    open spec fn with_tui(self, style: TuiStyle) -> Self {
        RootTui { style, ..self }
    }

    proof fn lemma_tui(&self) {
    }

    fn tui_mut(&mut self) -> (style: &mut TuiStyle) {
        &mut self.style
    }
}

impl HasWidgets for RootTui {
    open spec fn children(&self) -> Vec<Widget> {
        self.widgets
    }

    open spec fn with_children(self, children: Vec<Widget>) -> Self {
        RootTui { widgets: children, ..self }
    }

    proof fn lemma_children(&self) {
    }

    fn get_widgets(&self) -> (widgets: &Vec<Widget>) {
        &self.widgets
    }

    fn get_widgets_mut(&mut self) -> (widgets: &mut Vec<Widget>) {
        &mut self.widgets
    }
}

impl RenderTui for RootTui {
    open spec fn event_capability(&self) -> bool {
        true
    }

    open spec fn border_capability(&self) -> bool {
        true
    }

    /// The root may draw what it draws with its children in any four rows
    /// of its interior.
    open spec fn draws(&self, rect: Rect, drawn: Seq<DrawView>) -> bool {
        exists|areas: Seq<Rect>|
            #[trigger] regions(areas, 4) && rows_of(areas, inner_view(self, rect))
                && self.draws_in(rect, areas, drawn)
    }

    /// Draws the block of the root into `rect`, cuts what is inside into
    /// four rows, and draws the children into them from the top.
    fn render(&self, frame: &mut Frame, rect: Rect) {
        let inner = self.get_inner(rect);
        let wanted = self.layout();
        let chunks = vertical(&wanted, inner);
        self.render_in(frame, rect, &chunks);
        proof {
            let drawn = choose|drawn: Seq<DrawView>|
                #[trigger] self.draws_in(rect, chunks@, drawn) && frame@ == old(frame)@ + drawn;
            assert(regions(chunks@, 4));
            assert(self.draws(rect, drawn));
        }
    }

    fn as_event(&self) -> (found: Option<&Self>) {
        Some(self)
    }

    fn as_event_mut(&mut self) -> (found: Option<&mut Self>) {
        Some(self)
    }

    fn as_border_mut(&mut self) -> (found: Option<&mut Self>) {
        Some(self)
    }
}

impl TuiEventHandle for RootTui {
    /// A navigation event or an icon event goes to the first navigation bar
    /// among the children; every other event goes to the first player. The
    /// child handles the event as its type says; nothing else changes, and
    /// nothing at all where the child is missing.
    open spec fn handled(&self, event: TuiEnent, after: &Self) -> bool {
        &&& after.title == self.title
        &&& after.border == self.border
        &&& after.style == self.style
        &&& match event {
            TuiEnent::Navbar(_) | TuiEnent::NavbarIcon(_, _) => changed_first::<NavbarTui>(
                self.widgets@,
                after.widgets@,
                |w: NavbarTui, n: NavbarTui| w.handled(event, &n),
            ),
            _ => changed_first::<PlayerTui>(
                self.widgets@,
                after.widgets@,
                |w: PlayerTui, n: PlayerTui| w.handled(event, &n),
            ),
        }
    }

    fn event_handle(&mut self, event: TuiEnent) {
        proof {
            self.lemma_children();
        }
        match event {
            TuiEnent::Navbar(_) | TuiEnent::NavbarIcon(_, _) => {
                if let Some(w) = self.get_widget_mut::<NavbarTui>() {
                    w.event_handle(event);
                }
            },
            _ => {
                if let Some(w) = self.get_widget_mut::<PlayerTui>() {
                    w.event_handle(event);
                }
            },
        }
    }
}

} // verus!
