//! The main content region, which is to show one of several views.

use vstd::prelude::*;
use crate::style::{
    BorderStyle, HasBorderStyle, HasBorderStyleSetter, HasTitleStyle, HasTitleStyleSetter,
    HasTuiStyle, HasTuiStyleSetter, TitleStyle, TuiStyle,
};
use crate::tui::frame::{DrawView, Frame, Shape};
use crate::tui::traits::{block_view, Downcast, HasWidgets, RenderTui, TuiBlock, TuiEventHandle};
use crate::tui::types::{Rect, TuiEnent};
use crate::tui::widget::Widget;

verus! {

/// A container for the views of the main region. It draws its block; it
/// shows none of its views yet and takes events without acting on them.
#[derive(Debug)]
pub struct RouterViewTui {
    pub title: TitleStyle,
    pub border: BorderStyle,
    pub style: TuiStyle,
    pub widgets: Vec<Widget>,
}

impl RouterViewTui {
    /// Whether this is the container that the program starts with: the
    /// default facets and no views.
    pub open spec fn is_default(&self) -> bool {
        &&& self.title.is_default()
        &&& self.border == BorderStyle::default_spec()
        &&& self.style == TuiStyle::aligned_spec(crate::style::Alignment::Left)
        &&& self.widgets@.len() == 0
    }

    /// What the widget draws: its block.
    pub open spec fn scene(&self, rect: Rect) -> Seq<DrawView> {
        seq![DrawView { shape: block_view(self), area: rect }]
    }
}

impl Default for RouterViewTui {
    fn default() -> (widget: RouterViewTui)
        ensures
            widget.is_default(),
    {
        RouterViewTui {
            title: TitleStyle::default(),
            border: BorderStyle::default(),
            style: TuiStyle::default(),
            widgets: Vec::new(),
        }
    }
}

impl HasTitleStyle for RouterViewTui {
    open spec fn title_facet(&self) -> TitleStyle {
        self.title
    }

    fn title_ref(&self) -> (title: &TitleStyle) {
        &self.title
    }
}

impl HasTitleStyleSetter for RouterViewTui {
    open spec fn with_title(self, title: TitleStyle) -> Self {
        RouterViewTui { title, ..self }
    }

    proof fn lemma_title(&self) {
    }

    fn title_mut(&mut self) -> (title: &mut TitleStyle) {
        &mut self.title
    }
}

impl HasBorderStyle for RouterViewTui {
    open spec fn border_facet(&self) -> BorderStyle {
        self.border
    }

    fn border_ref(&self) -> (border: &BorderStyle) {
        &self.border
    }
}

impl HasBorderStyleSetter for RouterViewTui {
    open spec fn with_border(self, border: BorderStyle) -> Self {
        RouterViewTui { border, ..self }
    }

    proof fn lemma_border(&self) {
    }

    fn border_mut(&mut self) -> (border: &mut BorderStyle) {
        &mut self.border
    }
}

impl HasTuiStyle for RouterViewTui {
    open spec fn tui_facet(&self) -> TuiStyle {
        self.style
    }

    fn tui_ref(&self) -> (style: &TuiStyle) {
        &self.style
    }
}

impl HasTuiStyleSetter for RouterViewTui {
    open spec fn with_tui(self, style: TuiStyle) -> Self {
        RouterViewTui { style, ..self }
    }

    proof fn lemma_tui(&self) {
    }

    fn tui_mut(&mut self) -> (style: &mut TuiStyle) {
        &mut self.style
    }
}

impl HasWidgets for RouterViewTui {
    open spec fn children(&self) -> Vec<Widget> {
        self.widgets
    }

    open spec fn with_children(self, children: Vec<Widget>) -> Self {
        RouterViewTui { widgets: children, ..self }
    }

    proof fn lemma_children(&self) {
    }

    fn get_widgets(&self) -> (widgets: &Vec<Widget>) {
        &self.widgets
    }

    fn get_widgets_mut(&mut self) -> (widgets: &mut Vec<Widget>) {
        &mut self.widgets
    }
}

impl RenderTui for RouterViewTui {
    open spec fn event_capability(&self) -> bool {
        true
    }

    open spec fn border_capability(&self) -> bool {
        true
    }

    open spec fn draws(&self, rect: Rect, drawn: Seq<DrawView>) -> bool {
        drawn == self.scene(rect)
    }

    fn render(&self, frame: &mut Frame, rect: Rect)
        ensures
            final(frame)@ == old(frame)@ + self.scene(rect),
    {
        frame.render_widget(Shape::Block(self.to_block()), rect);
        assert(frame@ =~= old(frame)@ + self.scene(rect));
        assert(self.draws(rect, self.scene(rect)));
    }

    fn as_event(&self) -> (found: Option<&Self>) {
        Some(self)
    }

    fn as_event_mut(&mut self) -> (found: Option<&mut Self>) {
        Some(self)
    }

    fn as_border_mut(&mut self) -> (found: Option<&mut Self>) {
        Some(self)
    }
}

impl TuiEventHandle for RouterViewTui {
    /// No event changes anything.
    open spec fn handled(&self, event: TuiEnent, after: &Self) -> bool {
        *after == *self
    }

    fn event_handle(&mut self, event: TuiEnent) {
    }
}

impl Downcast for RouterViewTui {
    open spec fn is_in(widget: &Widget) -> bool {
        widget is RouterView
    }

    open spec fn of(widget: &Widget) -> Self {
        widget->RouterView_0
    }

    open spec fn wrap(self) -> Widget {
        Widget::RouterView(self)
    }

    proof fn lemma_wrap(widget: &Widget) {
    }

    fn downcast_ref(widget: &Widget) -> (found: Option<&Self>) {
        match widget {
            Widget::RouterView(inner) => Some(inner),
            _ => None,
        }
    }

    fn downcast_mut(widget: &mut Widget) -> (found: Option<&mut Self>) {
        match widget {
            Widget::RouterView(inner) => Some(inner),
            _ => None,
        }
    }
}

} // verus!
