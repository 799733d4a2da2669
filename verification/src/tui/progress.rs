//! The progress bar: a gauge between two half circles.

use vstd::prelude::*;
use crate::style::{
    Alignment, BorderStyle, Color, HasBorderStyle, HasBorderStyleSetter, HasTitleStyle,
    HasTitleStyleSetter, HasTuiStyle, HasTuiStyleSetter, Style, TitleStyle, TuiStyle,
};
use crate::tui::frame::{
    Block, DrawView, Frame, Gauge, Paragraph, Shape, ShapeView, Text, TextView,
};
use crate::tui::layout::{columns_of, horizontal};
use crate::tui::traits::{inner_view, Downcast, RenderTui, TuiBlock};
use crate::tui::types::{Constraint, Rect};
use crate::tui::widget::{regions, Widget};

verus! {

/// How far the bar is filled: a number between nothing and all of it, kept
/// as the 64 bits of its binary64 form. The top bit is the sign; the bits
/// below it grow with the size of the number.
#[derive(Clone, Copy, Debug, PartialEq, Eq, Hash, Structural)]
pub struct Ratio {
    pub bits: u64,
}

impl Ratio {
    /// The bits of the number one.
    pub const ONE: u64 = 0x3ff0_0000_0000_0000;

    /// The sign bit.
    pub const SIGN: u64 = 0x8000_0000_0000_0000;

    /// The bits above which, sign apart, a pattern is no number.
    pub const INFINITY: u64 = 0x7ff0_0000_0000_0000;

    /// The bits without the sign.
    pub open spec fn magnitude(self) -> u64 {
        self.bits & !Ratio::SIGN
    }

    /// Whether the bits stand for zero, of either sign.
    pub open spec fn is_zero_spec(self) -> bool {
        self.magnitude() == 0
    }

    /// The ratio held between nothing and all: what is below zero becomes
    /// zero, what is above one becomes one. Zero of either sign stays, and
    /// so does a pattern that is no number.
    pub open spec fn clamped(self) -> Ratio {
        if self.magnitude() > Ratio::INFINITY {
            self
        } else if self.bits & Ratio::SIGN != 0 {
            if self.magnitude() == 0 {
                self
            } else {
                Ratio { bits: 0 }
            }
        } else if self.bits > Ratio::ONE {
            Ratio { bits: Ratio::ONE }
        } else {
            self
        }
    }

    /// Nothing filled.
    pub fn zero() -> (ratio: Ratio)
        ensures
            ratio.bits == 0,
    {
        Ratio { bits: 0 }
    }

    /// The ratio with exactly these bits.
    pub fn from_bits(bits: u64) -> (ratio: Ratio)
        ensures
            ratio.bits == bits,
    {
        Ratio { bits }
    }

    /// The bits of the ratio.
    pub fn to_bits(self) -> (bits: u64)
        ensures
            bits == self.bits,
    {
        self.bits
    }

    /// Whether the ratio is zero.
    pub fn is_zero(self) -> (zero: bool)
        ensures
            zero == self.is_zero_spec(),
    {
        self.bits & !Ratio::SIGN == 0
    }

    /// The ratio held between nothing and all.
    pub fn clamp(self) -> (ratio: Ratio)
        ensures
            ratio == self.clamped(),
    {
        let magnitude: u64 = self.bits & !Ratio::SIGN;
        if magnitude > Ratio::INFINITY {
            self
        } else if self.bits & Ratio::SIGN != 0 {
            if magnitude == 0 {
                self
            } else {
                Ratio { bits: 0 }
            }
        } else if self.bits > Ratio::ONE {
            Ratio { bits: Ratio::ONE }
        } else {
            self
        }
    }
}

/// The progress bar.
#[derive(Debug)]
pub struct ProgressTui {
    pub title: TitleStyle,
    pub border: BorderStyle,
    pub style: TuiStyle,
    pub ratio: Ratio,
}

impl ProgressTui {
    /// Whether this is the bar that the program starts with: the default
    /// facets on a lighter background, nothing filled.
    pub open spec fn is_default(&self) -> bool {
        &&& self.title.is_default()
        &&& self.border == BorderStyle::default_spec()
        &&& self.style == (TuiStyle {
            bg: Color::Rgb(47, 51, 77),
            ..TuiStyle::aligned_spec(Alignment::Left)
        })
        &&& self.ratio.bits == 0
    }

    /// The block of the bar, on the background of its border.
    pub open spec fn block_draw(&self, rect: Rect) -> DrawView {
        DrawView {
            shape: ShapeView::Block {
                title: self.title.text@,
                title_style: self.title.style(),
                title_alignment: self.title.alignment,
                borders: self.border.border,
                border_style: self.border.style(),
                style: self.style.style().with_bg(self.border.bg),
            },
            area: rect,
        }
    }

    /// What the bar draws into the three parts of its row: a left half
    /// circle, in the foreground colour once anything is filled and in the
    /// background colour before; the gauge; a right half circle in the
    /// background colour.
    pub open spec fn parts(&self, row: Seq<Rect>) -> Seq<DrawView> {
        seq![
            DrawView {
                shape: ShapeView::Paragraph {
                    text: TextView::Raw("\u{e0b6}"@),
                    style: Style::plain().with_fg(
                        if self.ratio.is_zero_spec() {
                            self.style.bg
                        } else {
                            self.style.fg
                        },
                    ),
                    alignment: Alignment::Right,
                },
                area: row[0],
            },
            DrawView {
                shape: ShapeView::Gauge {
                    gauge_style: self.style.style(),
                    label: Seq::<char>::empty(),
                    ratio: self.ratio,
                },
                area: row[1],
            },
            DrawView {
                shape: ShapeView::Paragraph {
                    text: TextView::Raw("\u{e0b4}"@),
                    style: Style::plain().with_fg(self.style.bg),
                    alignment: Alignment::Left,
                },
                area: row[2],
            },
        ]
    }

    /// What the bar asks of the layout: a row of three parts, at least two
    /// cells for each half circle and the rest for the gauge.
    pub open spec fn row_spec() -> Seq<Constraint> {
        seq![Constraint::Min(2), Constraint::Percentage(98), Constraint::Min(2)]
    }

    /// What the bar asks of the layout.
    pub fn row() -> (wanted: Vec<Constraint>)
        ensures
            wanted@ == ProgressTui::row_spec(),
    {
        let mut wanted: Vec<Constraint> = Vec::new();
        wanted.push(Constraint::Min(2));
        wanted.push(Constraint::Percentage(98));
        wanted.push(Constraint::Min(2));
        assert(wanted@ =~= ProgressTui::row_spec());
        wanted
    }

    /// What the bar draws with its parts in the given regions: the block
    /// in `rect`, then the left half circle, the gauge and the right half
    /// circle in the first three regions of `row`. A row of fewer regions
    /// gets the block only.
    pub open spec fn scene_in(&self, rect: Rect, row: Seq<Rect>) -> Seq<DrawView> {
        seq![self.block_draw(rect)] + if row.len() >= 3 {
            self.parts(row)
        } else {
            Seq::<DrawView>::empty()
        }
    }

    /// Draws the bar with its parts in the given regions.
    pub fn render_in(&self, frame: &mut Frame, rect: Rect, row: &Vec<Rect>)
        ensures
            final(frame)@ == old(frame)@ + self.scene_in(rect, row@),
            final(frame).whole() == old(frame).whole(),
    {
        let block = self.to_block();
        let on_border = Block { style: block.style.bg(self.border.bg()), ..block };
        frame.render_widget(Shape::Block(on_border), rect);
        if row.len() >= 3 {
            let left = Paragraph {
                text: Text::Raw("\u{e0b6}".to_owned()),
                style: Style::new().fg(
                    if self.ratio.is_zero() {
                        self.style.bg()
                    } else {
                        self.style.fg()
                    },
                ),
                alignment: Alignment::Right,
            };
            let bars = Gauge { gauge_style: self.tui_style(), label: String::new(), ratio: self.ratio };
            let right = Paragraph {
                text: Text::Raw("\u{e0b4}".to_owned()),
                style: Style::new().fg(self.style.bg()),
                alignment: Alignment::Left,
            };
            frame.render_widget(Shape::Paragraph(left), row[0]);
            frame.render_widget(Shape::Gauge(bars), row[1]);
            frame.render_widget(Shape::Paragraph(right), row[2]);
            assert(frame@ =~= old(frame)@ + self.scene_in(rect, row@));
        } else {
            assert(frame@ =~= old(frame)@ + self.scene_in(rect, row@));
        }
    }

    /// Sets how far the bar is filled, held between nothing and all.
    pub fn set_ratio(&mut self, ratio: Ratio)
        ensures
            *final(self) == (ProgressTui { ratio: ratio.clamped(), ..*old(self) }),
    {
        self.ratio = ratio.clamp();
    }

    /// How far the bar is filled.
    pub fn ratio(&self) -> (ratio: Ratio)
        ensures
            ratio == self.ratio,
    {
        self.ratio
    }

    /// Empties the bar.
    pub fn reset_ratio(&mut self)
        ensures
            *final(self) == (ProgressTui { ratio: Ratio { bits: 0 }, ..*old(self) }),
    {
        self.ratio = Ratio::zero();
    }
}

impl Default for ProgressTui {
    fn default() -> (widget: ProgressTui)
        ensures
            widget.is_default(),
    {
        let mut style = TuiStyle::default();
        style.set_bg(Color::Rgb(47, 51, 77));
        ProgressTui {
            title: TitleStyle::default(),
            style,
            border: BorderStyle::default(),
            ratio: Ratio::zero(),
        }
    }
}

impl HasTitleStyle for ProgressTui {
    open spec fn title_facet(&self) -> TitleStyle {
        self.title
    }

    fn title_ref(&self) -> (title: &TitleStyle) {
        &self.title
    }
}

impl HasTitleStyleSetter for ProgressTui {
    open spec fn with_title(self, title: TitleStyle) -> Self {
        ProgressTui { title, ..self }
    }

    proof fn lemma_title(&self) {
    }

    fn title_mut(&mut self) -> (title: &mut TitleStyle) {
        &mut self.title
    }
}

impl HasBorderStyle for ProgressTui {
    open spec fn border_facet(&self) -> BorderStyle {
        self.border
    }

    fn border_ref(&self) -> (border: &BorderStyle) {
        &self.border
    }
}

impl HasBorderStyleSetter for ProgressTui {
    open spec fn with_border(self, border: BorderStyle) -> Self {
        ProgressTui { border, ..self }
    }

    proof fn lemma_border(&self) {
    }

    fn border_mut(&mut self) -> (border: &mut BorderStyle) {
        &mut self.border
    }
}

impl HasTuiStyle for ProgressTui {
    open spec fn tui_facet(&self) -> TuiStyle {
        self.style
    }

    fn tui_ref(&self) -> (style: &TuiStyle) {
        &self.style
    }
}

impl HasTuiStyleSetter for ProgressTui {
    open spec fn with_tui(self, style: TuiStyle) -> Self {
        ProgressTui { style, ..self }
    }

    proof fn lemma_tui(&self) {
    }

    fn tui_mut(&mut self) -> (style: &mut TuiStyle) {
        &mut self.style
    }
}

impl RenderTui for ProgressTui {
    open spec fn event_capability(&self) -> bool {
        false
    }

    open spec fn border_capability(&self) -> bool {
        true
    }

    /// The bar may draw what it draws with its parts in any three columns
    /// of its interior.
    open spec fn draws(&self, rect: Rect, drawn: Seq<DrawView>) -> bool {
        exists|row: Seq<Rect>|
            #[trigger] regions(row, 3) && columns_of(row, inner_view(self, rect)) && drawn
                == self.scene_in(rect, row)
    }

    /// Draws the block of the bar into `rect`, cuts what is inside into a
    /// row of three parts, and draws the half circles and the gauge into
    /// them.
    fn render(&self, frame: &mut Frame, rect: Rect) {
        let inner = self.get_inner(rect);
        let row = horizontal(&ProgressTui::row(), inner);
        self.render_in(frame, rect, &row);
        assert(regions(row@, 3));
        assert(self.draws(rect, self.scene_in(rect, row@)));
    }

    fn as_event(&self) -> (found: Option<&Self>) {
        None
    }

    fn as_event_mut(&mut self) -> (found: Option<&mut Self>) {
        None
    }

    fn as_border_mut(&mut self) -> (found: Option<&mut Self>) {
        Some(self)
    }
}

impl Downcast for ProgressTui {
    open spec fn is_in(widget: &Widget) -> bool {
        widget is Progress
    }

    open spec fn of(widget: &Widget) -> Self {
        widget->Progress_0
    }

    open spec fn wrap(self) -> Widget {
        Widget::Progress(self)
    }

    proof fn lemma_wrap(widget: &Widget) {
    }

    fn downcast_ref(widget: &Widget) -> (found: Option<&Self>) {
        match widget {
            Widget::Progress(inner) => Some(inner),
            _ => None,
        }
    }

    fn downcast_mut(widget: &mut Widget) -> (found: Option<&mut Self>) {
        match widget {
            Widget::Progress(inner) => Some(inner),
            _ => None,
        }
    }
}

} // verus!
