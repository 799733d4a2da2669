//! The drawing surface. A widget renders by handing shapes to a frame; the
//! frame keeps them in order, each with its region, for the terminal backend
//! to draw.

use vstd::prelude::*;
use crate::style::{Alignment, Borders, Style};
use crate::tui::progress::Ratio;
use crate::tui::types::Rect;

verus! {

/// A piece of text in one style.
#[derive(Clone, Debug)]
pub struct Span {
    pub content: String,
    pub style: Style,
}

/// What a span holds.
pub struct SpanView {
    pub content: Seq<char>,
    pub style: Style,
}

impl View for Span {
    type V = SpanView;

    open spec fn view(&self) -> SpanView {
        SpanView { content: self.content@, style: self.style }
    }
}

impl Span {
    /// A span in the given style.
    pub fn styled(content: String, style: Style) -> (span: Span)
        ensures
            span@ == (SpanView { content: content@, style }),
    {
        Span { content, style }
    }
}

/// What the spans of a line hold.
pub open spec fn spans_view(spans: Seq<Span>) -> Seq<SpanView> {
    Seq::new(spans.len(), |i: int| spans[i]@)
}

/// The text of a paragraph.
#[derive(Clone, Debug)]
pub enum Text {
    /// A text in no style of its own; its line breaks separate lines.
    Raw(String),
    /// One line of spans.
    Line(Vec<Span>),
}

/// What a text holds.
pub enum TextView {
    Raw(Seq<char>),
    Line(Seq<SpanView>),
}

impl View for Text {
    type V = TextView;

    open spec fn view(&self) -> TextView {
        match self {
            Text::Raw(text) => TextView::Raw(text@),
            Text::Line(spans) => TextView::Line(spans_view(spans@)),
        }
    }
}

/// A frame around a region, with a title in its top edge.
#[derive(Clone, Debug)]
pub struct Block {
    pub title: String,
    pub title_style: Style,
    pub title_alignment: Alignment,
    pub borders: Borders,
    pub border_style: Style,
    pub style: Style,
}

/// A text with a style and an alignment for the whole of it.
#[derive(Clone, Debug)]
pub struct Paragraph {
    pub text: Text,
    pub style: Style,
    pub alignment: Alignment,
}

/// A bar that is filled up to a ratio.
#[derive(Clone, Debug)]
pub struct Gauge {
    pub gauge_style: Style,
    pub label: String,
    pub ratio: Ratio,
}

/// What can be drawn.
#[derive(Clone, Debug)]
pub enum Shape {
    Block(Block),
    Paragraph(Paragraph),
    Gauge(Gauge),
}

/// What a shape holds.
pub enum ShapeView {
    Block {
        title: Seq<char>,
        title_style: Style,
        title_alignment: Alignment,
        borders: Borders,
        border_style: Style,
        style: Style,
    },
    Paragraph { text: TextView, style: Style, alignment: Alignment },
    Gauge { gauge_style: Style, label: Seq<char>, ratio: Ratio },
}

impl View for Shape {
    type V = ShapeView;

    open spec fn view(&self) -> ShapeView {
        match self {
            Shape::Block(block) => ShapeView::Block {
                title: block.title@,
                title_style: block.title_style,
                title_alignment: block.title_alignment,
                borders: block.borders,
                border_style: block.border_style,
                style: block.style,
            },
            Shape::Paragraph(paragraph) => ShapeView::Paragraph {
                text: paragraph.text@,
                style: paragraph.style,
                alignment: paragraph.alignment,
            },
            Shape::Gauge(gauge) => ShapeView::Gauge {
                gauge_style: gauge.gauge_style,
                label: gauge.label@,
                ratio: gauge.ratio,
            },
        }
    }
}

/// A shape and the region it is drawn into.
#[derive(Clone, Debug)]
pub struct Draw {
    pub shape: Shape,
    pub area: Rect,
}

/// What a draw command holds.
pub struct DrawView {
    pub shape: ShapeView,
    pub area: Rect,
}

impl View for Draw {
    type V = DrawView;

    open spec fn view(&self) -> DrawView {
        DrawView { shape: self.shape@, area: self.area }
    }
}

/// What a list of draw commands holds.
pub open spec fn draws_view(draws: Seq<Draw>) -> Seq<DrawView> {
    Seq::new(draws.len(), |i: int| draws[i]@)
}

/// One pass of drawing: the region of the terminal and what was drawn so
/// far, in order.
#[derive(Debug)]
pub struct Frame {
    area: Rect,
    draws: Vec<Draw>,
}

impl View for Frame {
    type V = Seq<DrawView>;

    closed spec fn view(&self) -> Seq<DrawView> {
        draws_view(self.draws@)
    }
}

impl Frame {
    /// The region of the whole terminal.
    pub closed spec fn whole(&self) -> Rect {
        self.area
    }

    /// An empty frame for a terminal of the given region.
    pub fn new(area: Rect) -> (frame: Frame)
        ensures
            frame@ == Seq::<DrawView>::empty(),
            frame.whole() == area,
    {
        let frame = Frame { area, draws: Vec::new() };
        assert(frame@ =~= Seq::<DrawView>::empty());
        frame
    }

    /// The region of the whole terminal.
    pub fn area(&self) -> (area: Rect)
        ensures
            area == self.whole(),
    {
        self.area
    }

    /// What was drawn so far, in order.
    pub fn draws(&self) -> (draws: &Vec<Draw>)
        ensures
            draws_view(draws@) == self@,
    {
        &self.draws
    }

    /// Draws a shape into a region: it comes after everything drawn before.
    pub fn render_widget(&mut self, shape: Shape, area: Rect)
        ensures
            final(self)@ == old(self)@.push(DrawView { shape: shape@, area }),
            final(self).whole() == old(self).whole(),
    {
        self.draws.push(Draw { shape, area });
        assert(self@ =~= old(self)@.push(DrawView { shape: shape@, area }));
    }
}

} // verus!
