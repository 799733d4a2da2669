//! What every member of the widget tree offers: rendering, its optional
//! capabilities, and the lookup of a child by its concrete type.

use vstd::prelude::*;
use crate::style::{Borders, HasBorderStyle, HasTitleStyle, HasTuiStyle};
use crate::tui::frame::{Block, DrawView, Frame, Shape, ShapeView};
use crate::tui::layout::{block_inner, inner_area};
use crate::tui::types::{Rect, TuiEnent};
use crate::tui::widget::Widget;

verus! {

/// The block that a widget with all three facets draws around itself.
pub open spec fn block_view<T: HasTitleStyle + HasBorderStyle + HasTuiStyle>(
    widget: &T,
) -> ShapeView {
    ShapeView::Block {
        title: widget.title_facet().text@,
        title_style: widget.title_facet().style(),
        title_alignment: widget.title_facet().alignment,
        borders: widget.border_facet().border,
        border_style: widget.border_facet().style(),
        style: widget.tui_facet().style(),
    }
}

/// The region that a widget with a border facet leaves to its content: the
/// whole region where no edge shows, the inside of its block otherwise.
pub open spec fn inner_view<T: HasBorderStyle>(widget: &T, rect: Rect) -> Rect {
    if widget.border_facet().border.bits != Borders::NONE {
        inner_area(widget.border_facet().border, rect)
    } else {
        rect
    }
}

/// A widget that draws a titled, bordered block around its content.
pub trait TuiBlock: HasTitleStyle + HasBorderStyle + HasTuiStyle + Sized {
    /// The block of the widget, from its three facets.
    fn to_block(&self) -> (block: Block)
        ensures
            Shape::Block(block)@ == block_view(self),
    {
        Block {
            title: self.title_text().to_owned(),
            title_style: self.title_style(),
            title_alignment: self.title_alignment(),
            borders: self.borders(),
            border_style: self.border_style(),
            style: self.tui_style(),
        }
    }

    /// The region left to the content.
    fn get_inner(&self, rect: Rect) -> (inner: Rect)
        ensures
            inner == inner_view(self, rect),
    {
        if self.has_border() {
            block_inner(self.title_text(), self.borders(), rect)
        } else {
            rect
        }
    }
}

impl<U: HasBorderStyle + HasTitleStyle + HasTuiStyle + Sized> TuiBlock for U {

}

/// A concrete widget type, as one kind of node of the tree.
pub trait Downcast: Sized {
    /// Whether the node is a widget of this type.
    spec fn is_in(widget: &Widget) -> bool;

    /// The widget of this type that the node is.
    spec fn of(widget: &Widget) -> Self;

    /// The node that a widget of this type is.
    spec fn wrap(self) -> Widget;

    /// A node that is a widget of this type is the node of that widget, and
    /// the node of a widget is a node of its type and holds that widget.
    proof fn lemma_wrap(widget: &Widget)
        ensures
            Self::is_in(widget) ==> Self::of(widget).wrap() == *widget,
            forall|inner: Self|
                Self::is_in(&#[trigger] inner.wrap()) && Self::of(&inner.wrap()) == inner,
    ;

    /// The node as a widget of this type, if it is one.
    fn downcast_ref(widget: &Widget) -> (found: Option<&Self>)
        ensures
            found is Some <==> Self::is_in(widget),
            found matches Some(inner) ==> *inner == Self::of(widget),
    ;

    /// The node as a widget of this type, to be changed in place, if it is
    /// one.
    fn downcast_mut(widget: &mut Widget) -> (found: Option<&mut Self>)
        ensures
            found is Some <==> Self::is_in(old(widget)),
            found matches Some(inner) ==> *inner == Self::of(old(widget)) && *final(widget) == (
            *final(inner)).wrap(),
            found is None ==> *final(widget) == *old(widget),
    ;
}

/// Whether `at` is the first node that is a widget of type `T`.
pub open spec fn is_first<T: Downcast>(widgets: Seq<Widget>, at: int) -> bool {
    &&& 0 <= at < widgets.len()
    &&& T::is_in(&widgets[at])
    &&& forall|j: int| 0 <= j < at ==> !T::is_in(&#[trigger] widgets[j])
}

/// Whether no node is a widget of type `T`.
pub open spec fn has_none<T: Downcast>(widgets: Seq<Widget>) -> bool {
    forall|j: int| 0 <= j < widgets.len() ==> !T::is_in(&#[trigger] widgets[j])
}

/// Whether `after` is `before` with its first widget of type `T` changed as
/// `change` says, and nothing else; where there is no such widget, nothing
/// is changed at all.
pub open spec fn changed_first<T: Downcast>(
    before: Seq<Widget>,
    after: Seq<Widget>,
    change: spec_fn(T, T) -> bool,
) -> bool {
    &&& has_none::<T>(before) ==> after == before
    &&& forall|at: int| #[trigger]
        is_first::<T>(before, at) ==> {
            &&& T::is_in(&after[at])
            &&& after == before.update(at, after[at])
            &&& change(T::of(&before[at]), T::of(&after[at]))
        }
}

/// The position of the first node that is a widget of type `T`.
pub fn find_widget<T: Downcast>(widgets: &Vec<Widget>) -> (found: Option<usize>)
    ensures
        match found {
            Some(at) => is_first::<T>(widgets@, at as int),
            None => has_none::<T>(widgets@),
        },
{
    let mut i: usize = 0;
    while i < widgets.len()
        invariant
            i <= widgets@.len(),
            forall|j: int| 0 <= j < i ==> !T::is_in(&#[trigger] widgets@[j]),
        decreases widgets@.len() - i,
    {
        if T::downcast_ref(&widgets[i]).is_some() {
            return Some(i);
        }
        i += 1;
    }
    None
}

/// A member of the widget tree.
pub trait RenderTui: Sized {
    /// Whether the node handles events. This never changes for a node.
    spec fn event_capability(&self) -> bool;

    /// Whether the node lets its border be changed. This never changes for
    /// a node.
    spec fn border_capability(&self) -> bool;

    /// Whether `drawn` is what the node may draw into `rect`. A node that
    /// leaves regions to the layout solver may draw in more than one way.
    spec fn draws(&self, rect: Rect, drawn: Seq<DrawView>) -> bool;

    /// Draws the node into `rect`: what it draws comes after everything
    /// that was drawn before.
    fn render(&self, frame: &mut Frame, rect: Rect)
        ensures
            final(frame).whole() == old(frame).whole(),
            exists|drawn: Seq<DrawView>|
                #[trigger] self.draws(rect, drawn) && final(frame)@ == old(frame)@ + drawn,
    ;

    /// The node as a handler of events; `None` for a node that handles
    /// none.
    fn as_event(&self) -> (found: Option<&Self>)
        ensures
            found is Some <==> self.event_capability(),
            found matches Some(handler) ==> *handler == *self,
    ;

    /// The node as a handler of events, to be changed in place; `None` for
    /// a node that handles none.
    fn as_event_mut(&mut self) -> (found: Option<&mut Self>)
        ensures
            found is Some <==> old(self).event_capability(),
            found matches Some(handler) ==> *handler == *old(self) && *final(self) == *final(handler),
            found is None ==> *final(self) == *old(self),
    ;

    /// The node as the owner of a border, to be changed in place; `None`
    /// for a node without a border facet.
    fn as_border_mut(&mut self) -> (found: Option<&mut Self>)
        ensures
            found is Some <==> old(self).border_capability(),
            found matches Some(owner) ==> *owner == *old(self) && *final(self) == *final(owner),
            found is None ==> *final(self) == *old(self),
    ;
}

/// A widget that holds other widgets, in a fixed order.
pub trait HasWidgets: Sized {
    /// The children, in order.
    spec fn children(&self) -> Vec<Widget>;

    /// This widget with other children.
    spec fn with_children(self, children: Vec<Widget>) -> Self;

    /// The children of a widget with other children are those.
    proof fn lemma_children(&self)
        ensures
            forall|children: Vec<Widget>|
                (#[trigger] self.with_children(children)).children() == children,
    ;

    fn get_widgets(&self) -> (widgets: &Vec<Widget>)
        ensures
            *widgets == self.children(),
    ;

    fn get_widgets_mut(&mut self) -> (widgets: &mut Vec<Widget>)
        ensures
            *widgets == old(self).children(),
            *final(self) == old(self).with_children(*final(widgets)),
    ;

    /// The first child that is a widget of type `T`; `None` where there is
    /// no such child.
    fn get_widget<T: Downcast>(&self) -> (found: Option<&T>)
        ensures
            match found {
                Some(inner) => exists|at: int|
                    is_first::<T>(self.children()@, at) && *inner == T::of(
                        &self.children()@[at],
                    ),
                None => has_none::<T>(self.children()@),
            },
    {
        let widgets = self.get_widgets();
        match find_widget::<T>(widgets) {
            Some(at) => T::downcast_ref(&widgets[at]),
            None => None,
        }
    }

    /// The first child that is a widget of type `T`, to be changed in
    /// place; `None` where there is no such child. Nothing but that child
    /// changes.
    fn get_widget_mut<T: Downcast>(&mut self) -> (found: Option<&mut T>)
        ensures
            match found {
                Some(inner) => exists|at: int|
                    is_first::<T>(old(self).children()@, at) && *inner == T::of(
                        &old(self).children()@[at],
                    ) && final(self).children()@ == old(self).children()@.update(
                        at,
                        (*final(inner)).wrap(),
                    ),
                None => has_none::<T>(old(self).children()@) && final(self).children()@ == old(
                    self,
                ).children()@,
            },
            *final(self) == old(self).with_children(final(self).children()),
    {
        proof {
            self.lemma_children();
        }
        let widgets = self.get_widgets_mut();
        match find_widget::<T>(widgets) {
            Some(at) => T::downcast_mut(&mut widgets[at]),
            None => None,
        }
    }
}

/// A widget that handles the events of the user interface.
pub trait TuiEventHandle: Sized {
    /// Whether `after` is this widget once it has handled `event`.
    spec fn handled(&self, event: TuiEnent, after: &Self) -> bool;

    fn event_handle(&mut self, event: TuiEnent)
        ensures
            old(self).handled(event, final(self)),
    ;
}

} // verus!
