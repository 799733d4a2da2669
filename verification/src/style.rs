//! Colours and style records, and the three style facets that a widget can
//! own: title, border and base appearance. A widget has a facet by owning
//! its record; every capability method passes on to that record.

use vstd::prelude::*;

verus! {

/// A terminal colour.
#[derive(Clone, Copy, Debug, PartialEq, Eq, Hash, Structural)]
pub enum Color {
    Reset,
    Black,
    Red,
    Green,
    Yellow,
    Blue,
    Magenta,
    Cyan,
    Gray,
    DarkGray,
    LightRed,
    LightGreen,
    LightYellow,
    LightBlue,
    LightMagenta,
    LightCyan,
    White,
    Rgb(u8, u8, u8),
    Indexed(u8),
}

/// How text is placed in its line.
#[derive(Clone, Copy, Debug, PartialEq, Eq, Hash, Structural)]
pub enum Alignment {
    Left,
    Center,
    Right,
}

/// Text modifiers, one bit each.
#[derive(Clone, Copy, Debug, PartialEq, Eq, Hash, Structural)]
pub struct Modifier {
    pub bits: u16,
}

impl Modifier {
    pub const BOLD: u16 = 0x0001;

    pub const DIM: u16 = 0x0002;

    pub const ITALIC: u16 = 0x0004;

    pub const UNDERLINED: u16 = 0x0008;

    pub const SLOW_BLINK: u16 = 0x0010;

    pub const RAPID_BLINK: u16 = 0x0020;

    pub const REVERSED: u16 = 0x0040;

    pub const HIDDEN: u16 = 0x0080;

    pub const CROSSED_OUT: u16 = 0x0100;

    /// No modifier.
    pub fn empty() -> (m: Modifier)
        ensures
            m.bits == 0,
    {
        Modifier { bits: 0 }
    }

    /// Italic text.
    pub fn italic() -> (m: Modifier)
        ensures
            m.bits == Modifier::ITALIC,
    {
        Modifier { bits: Modifier::ITALIC }
    }

    /// The modifiers with exactly these bits.
    pub fn from_bits(bits: u16) -> (m: Modifier)
        ensures
            m.bits == bits,
    {
        Modifier { bits }
    }
}

/// The visible edges of a border, one bit each.
#[derive(Clone, Copy, Debug, PartialEq, Eq, Hash, Structural)]
pub struct Borders {
    pub bits: u8,
}

impl Borders {
    pub const NONE: u8 = 0x00;

    pub const TOP: u8 = 0x01;

    pub const RIGHT: u8 = 0x02;

    pub const BOTTOM: u8 = 0x04;

    pub const LEFT: u8 = 0x08;

    pub const ALL: u8 = 0x0f;

    /// Whether any bit of `edges` is set.
    pub open spec fn shows(self, edges: u8) -> bool {
        self.bits & edges != 0
    }

    /// No edge.
    pub fn none() -> (b: Borders)
        ensures
            b.bits == Borders::NONE,
    {
        Borders { bits: Borders::NONE }
    }

    /// All four edges.
    pub fn all() -> (b: Borders)
        ensures
            b.bits == Borders::ALL,
    {
        Borders { bits: Borders::ALL }
    }

    /// The edges with exactly these bits.
    pub fn from_bits(bits: u8) -> (b: Borders)
        ensures
            b.bits == bits,
    {
        Borders { bits }
    }

    /// Whether any of `edges` is visible.
    pub fn intersects(self, edges: u8) -> (any: bool)
        ensures
            any == self.shows(edges),
    {
        self.bits & edges != 0
    }
}

/// A composed style: colours where they are set, modifiers to add and to
/// take away.
#[derive(Clone, Copy, Debug, PartialEq, Eq, Hash, Structural)]
pub struct Style {
    pub fg: Option<Color>,
    pub bg: Option<Color>,
    pub add_modifier: Modifier,
    pub sub_modifier: Modifier,
}

impl Style {
    /// The style that sets nothing.
    pub open spec fn plain() -> Style {
        Style {
            fg: None,
            bg: None,
            add_modifier: Modifier { bits: 0 },
            sub_modifier: Modifier { bits: 0 },
        }
    }

    /// The style that sets both colours and adds `modifier`.
    pub open spec fn composed(bg: Color, fg: Color, modifier: Modifier) -> Style {
        Style {
            fg: Some(fg),
            bg: Some(bg),
            add_modifier: modifier,
            sub_modifier: Modifier { bits: 0 },
        }
    }

    /// This style with another foreground.
    pub open spec fn with_fg(self, fg: Color) -> Style {
        Style { fg: Some(fg), ..self }
    }

    /// This style with another background.
    pub open spec fn with_bg(self, bg: Color) -> Style {
        Style { bg: Some(bg), ..self }
    }

    /// This style with `modifier` added: its bits are set among those to
    /// add and cleared among those to take away.
    pub open spec fn adding(self, modifier: Modifier) -> Style {
        Style {
            add_modifier: Modifier { bits: self.add_modifier.bits | modifier.bits },
            sub_modifier: Modifier { bits: self.sub_modifier.bits & !modifier.bits },
            ..self
        }
    }

    /// The style that sets nothing.
    pub fn new() -> (style: Style)
        ensures
            style == Style::plain(),
    {
        Style { fg: None, bg: None, add_modifier: Modifier::empty(), sub_modifier: Modifier::empty() }
    }

    /// This style with another foreground.
    pub fn fg(self, fg: Color) -> (style: Style)
        ensures
            style == self.with_fg(fg),
    {
        Style { fg: Some(fg), ..self }
    }

    /// This style with another background.
    pub fn bg(self, bg: Color) -> (style: Style)
        ensures
            style == self.with_bg(bg),
    {
        Style { bg: Some(bg), ..self }
    }

    /// This style with `modifier` added.
    pub fn add_modifier(self, modifier: Modifier) -> (style: Style)
        ensures
            style == self.adding(modifier),
    {
        Style {
            add_modifier: Modifier { bits: self.add_modifier.bits | modifier.bits },
            sub_modifier: Modifier { bits: self.sub_modifier.bits & !modifier.bits },
            ..self
        }
    }

    /// The style that sets both colours and adds `modifier`.
    pub fn compose(bg: Color, fg: Color, modifier: Modifier) -> (style: Style)
        ensures
            style == Style::composed(bg, fg, modifier),
    {
        Style { fg: Some(fg), bg: Some(bg), add_modifier: modifier, sub_modifier: Modifier::empty() }
    }
}

impl Default for Style {
    fn default() -> (style: Style)
        ensures
            style == Style::plain(),
    {
        Style::new()
    }
}

/// The foreground that every facet starts with.
pub open spec fn default_fg() -> Color {
    Color::Rgb(130, 170, 255)
}

/// The background that every facet starts with.
pub open spec fn default_bg() -> Color {
    Color::Rgb(34, 36, 54)
}

/// The title facet: a text with its look.
#[derive(Debug)]
pub struct TitleStyle {
    pub text: String,
    pub alignment: Alignment,
    pub modifier: Modifier,
    pub fg: Color,
    pub bg: Color,
}

impl TitleStyle {
    /// The composed style of the title.
    pub open spec fn style(&self) -> Style {
        Style::composed(self.bg, self.fg, self.modifier)
    }

    /// Whether this is the title that a widget starts with: no text,
    /// centred, italic, in the default colours.
    pub open spec fn is_default(&self) -> bool {
        &&& self.text@ == Seq::<char>::empty()
        &&& self.alignment == Alignment::Center
        &&& self.modifier.bits == Modifier::ITALIC
        &&& self.fg == default_fg()
        &&& self.bg == default_bg()
    }

    /// The title text.
    pub fn text(&self) -> (text: &str)
        ensures
            text@ == self.text@,
    {
        self.text.as_str()
    }

    pub fn set_text(&mut self, text: String)
        ensures
            *final(self) == (TitleStyle { text, ..*old(self) }),
    {
        self.text = text;
    }

    pub fn alignment(&self) -> (alignment: Alignment)
        ensures
            alignment == self.alignment,
    {
        self.alignment
    }

    pub fn set_alignment(&mut self, alignment: Alignment)
        ensures
            *final(self) == (TitleStyle { alignment, ..*old(self) }),
    {
        self.alignment = alignment;
    }

    pub fn modifier(&self) -> (modifier: Modifier)
        ensures
            modifier == self.modifier,
    {
        self.modifier
    }

    pub fn set_modifier(&mut self, modifier: Modifier)
        ensures
            *final(self) == (TitleStyle { modifier, ..*old(self) }),
    {
        self.modifier = modifier;
    }

    pub fn fg(&self) -> (fg: Color)
        ensures
            fg == self.fg,
    {
        self.fg
    }

    pub fn set_fg(&mut self, fg: Color)
        ensures
            *final(self) == (TitleStyle { fg, ..*old(self) }),
    {
        self.fg = fg;
    }

    pub fn bg(&self) -> (bg: Color)
        ensures
            bg == self.bg,
    {
        self.bg
    }

    pub fn set_bg(&mut self, bg: Color)
        ensures
            *final(self) == (TitleStyle { bg, ..*old(self) }),
    {
        self.bg = bg;
    }
}

impl Default for TitleStyle {
    fn default() -> (title: TitleStyle)
        ensures
            title.is_default(),
    {
        TitleStyle {
            text: String::new(),
            alignment: Alignment::Center,
            modifier: Modifier::italic(),
            fg: Color::Rgb(130, 170, 255),
            bg: Color::Rgb(34, 36, 54),
        }
    }
}

/// The border facet: which edges show, and in which colours.
#[derive(Clone, Copy, Debug, PartialEq, Eq, Structural)]
pub struct BorderStyle {
    pub border: Borders,
    pub fg: Color,
    pub bg: Color,
}

impl BorderStyle {
    /// The composed style of the border.
    pub open spec fn style(&self) -> Style {
        Style { fg: Some(self.fg), bg: Some(self.bg), ..Style::plain() }
    }

    /// The border that a widget starts with: no edge, the default colours.
    pub open spec fn default_spec() -> BorderStyle {
        BorderStyle { border: Borders { bits: Borders::NONE }, fg: default_fg(), bg: default_bg() }
    }

    /// The border after a toggle: all edges where none showed, none where
    /// any did.
    pub open spec fn toggled(self) -> BorderStyle {
        BorderStyle {
            border: if self.border.bits == Borders::NONE {
                Borders { bits: Borders::ALL }
            } else {
                Borders { bits: Borders::NONE }
            },
            ..self
        }
    }

    pub fn border(&self) -> (border: Borders)
        ensures
            border == self.border,
    {
        self.border
    }

    pub fn set_border(&mut self, border: Borders)
        ensures
            *final(self) == (BorderStyle { border, ..*old(self) }),
    {
        self.border = border;
    }

    pub fn fg(&self) -> (fg: Color)
        ensures
            fg == self.fg,
    {
        self.fg
    }

    pub fn set_fg(&mut self, fg: Color)
        ensures
            *final(self) == (BorderStyle { fg, ..*old(self) }),
    {
        self.fg = fg;
    }

    pub fn bg(&self) -> (bg: Color)
        ensures
            bg == self.bg,
    {
        self.bg
    }

    pub fn set_bg(&mut self, bg: Color)
        ensures
            *final(self) == (BorderStyle { bg, ..*old(self) }),
    {
        self.bg = bg;
    }
}

impl Default for BorderStyle {
    fn default() -> (border: BorderStyle)
        ensures
            border == BorderStyle::default_spec(),
    {
        BorderStyle {
            border: Borders::none(),
            fg: Color::Rgb(130, 170, 255),
            bg: Color::Rgb(34, 36, 54),
        }
    }
}

/// The base facet: the colours, alignment and modifiers of the widget's own
/// content.
#[derive(Clone, Copy, Debug, PartialEq, Eq, Structural)]
pub struct TuiStyle {
    pub fg: Color,
    pub bg: Color,
    pub alignment: Alignment,
    pub modifier: Modifier,
}

impl TuiStyle {
    /// The composed style of the content.
    pub open spec fn style(&self) -> Style {
        Style::composed(self.bg, self.fg, self.modifier)
    }

    pub fn fg(&self) -> (fg: Color)
        ensures
            fg == self.fg,
    {
        self.fg
    }

    pub fn set_fg(&mut self, fg: Color)
        ensures
            *final(self) == (TuiStyle { fg, ..*old(self) }),
    {
        self.fg = fg;
    }

    pub fn bg(&self) -> (bg: Color)
        ensures
            bg == self.bg,
    {
        self.bg
    }

    pub fn set_bg(&mut self, bg: Color)
        ensures
            *final(self) == (TuiStyle { bg, ..*old(self) }),
    {
        self.bg = bg;
    }

    pub fn alignment(&self) -> (alignment: Alignment)
        ensures
            alignment == self.alignment,
    {
        self.alignment
    }

    pub fn set_alignment(&mut self, alignment: Alignment)
        ensures
            *final(self) == (TuiStyle { alignment, ..*old(self) }),
    {
        self.alignment = alignment;
    }

    pub fn modifier(&self) -> (modifier: Modifier)
        ensures
            modifier == self.modifier,
    {
        self.modifier
    }

    pub fn set_modifier(&mut self, modifier: Modifier)
        ensures
            *final(self) == (TuiStyle { modifier, ..*old(self) }),
    {
        self.modifier = modifier;
    }

    /// The look that a widget starts with, in the given alignment.
    pub open spec fn aligned_spec(alignment: Alignment) -> TuiStyle {
        TuiStyle { fg: default_fg(), bg: default_bg(), alignment, modifier: Modifier { bits: 0 } }
    }

    /// The look that a widget starts with, in the given alignment.
    pub fn aligned(alignment: Alignment) -> (style: TuiStyle)
        ensures
            style == TuiStyle::aligned_spec(alignment),
    {
        TuiStyle {
            fg: Color::Rgb(130, 170, 255),
            bg: Color::Rgb(34, 36, 54),
            alignment,
            modifier: Modifier::empty(),
        }
    }
}

impl Default for TuiStyle {
    fn default() -> (style: TuiStyle)
        ensures
            style == TuiStyle::aligned_spec(Alignment::Left),
    {
        TuiStyle::aligned(Alignment::Left)
    }
}

/// Reads the title facet of a widget.
pub trait HasTitleStyle {
    /// The title record that the widget owns.
    spec fn title_facet(&self) -> TitleStyle;

    /// The title record that the widget owns.
    fn title_ref(&self) -> (title: &TitleStyle)
        ensures
            *title == self.title_facet(),
    ;

    /// The composed style of the title.
    fn title_style(&self) -> (style: Style)
        ensures
            style == self.title_facet().style(),
    {
        let title = self.title_ref();
        Style::compose(title.bg(), title.fg(), title.modifier())
    }

    fn title_alignment(&self) -> (alignment: Alignment)
        ensures
            alignment == self.title_facet().alignment,
    {
        self.title_ref().alignment()
    }

    fn title_text(&self) -> (text: &str)
        ensures
            text@ == self.title_facet().text@,
    {
        self.title_ref().text()
    }
}

/// Changes the title facet of a widget, and nothing else of it.
pub trait HasTitleStyleSetter: HasTitleStyle + Sized {
    /// The widget with another title record.
    spec fn with_title(self, title: TitleStyle) -> Self;

    /// The title of a widget with another title record is that record.
    proof fn lemma_title(&self)
        ensures
            forall|title: TitleStyle| (#[trigger] self.with_title(title)).title_facet() == title,
    ;

    /// The title record that the widget owns, to be changed in place.
    fn title_mut(&mut self) -> (title: &mut TitleStyle)
        ensures
            *title == old(self).title_facet(),
            *final(self) == old(self).with_title(*final(title)),
    ;

    fn set_title_text(&mut self, text: String)
        ensures
            *final(self) == old(self).with_title(
                TitleStyle { text, ..old(self).title_facet() },
            ),
            final(self).title_facet() == (TitleStyle { text, ..old(self).title_facet() }),
    {
        proof {
            self.lemma_title();
        }
        self.title_mut().set_text(text);
    }

    fn set_title_alignment(&mut self, alignment: Alignment)
        ensures
            *final(self) == old(self).with_title(
                TitleStyle { alignment, ..old(self).title_facet() },
            ),
            final(self).title_facet() == (TitleStyle { alignment, ..old(self).title_facet() }),
    {
        proof {
            self.lemma_title();
        }
        self.title_mut().set_alignment(alignment);
    }

    fn set_title_modifier(&mut self, modifier: Modifier)
        ensures
            *final(self) == old(self).with_title(
                TitleStyle { modifier, ..old(self).title_facet() },
            ),
            final(self).title_facet() == (TitleStyle { modifier, ..old(self).title_facet() }),
    {
        proof {
            self.lemma_title();
        }
        self.title_mut().set_modifier(modifier);
    }

    fn set_title_fg(&mut self, fg: Color)
        ensures
            *final(self) == old(self).with_title(TitleStyle { fg, ..old(self).title_facet() }),
            final(self).title_facet() == (TitleStyle { fg, ..old(self).title_facet() }),
    {
        proof {
            self.lemma_title();
        }
        self.title_mut().set_fg(fg);
    }

    fn set_title_bg(&mut self, bg: Color)
        ensures
            *final(self) == old(self).with_title(TitleStyle { bg, ..old(self).title_facet() }),
            final(self).title_facet() == (TitleStyle { bg, ..old(self).title_facet() }),
    {
        proof {
            self.lemma_title();
        }
        self.title_mut().set_bg(bg);
    }
}

/// Reads the border facet of a widget.
pub trait HasBorderStyle {
    /// The border record that the widget owns.
    spec fn border_facet(&self) -> BorderStyle;

    /// The border record that the widget owns.
    fn border_ref(&self) -> (border: &BorderStyle)
        ensures
            *border == self.border_facet(),
    ;

    /// The composed style of the border.
    fn border_style(&self) -> (style: Style)
        ensures
            style == self.border_facet().style(),
    {
        let border = self.border_ref();
        Style::new().bg(border.bg()).fg(border.fg())
    }

    /// Which edges show.
    fn borders(&self) -> (borders: Borders)
        ensures
            borders == self.border_facet().border,
    {
        self.border_ref().border()
    }

    /// Whether any edge shows.
    fn has_border(&self) -> (any: bool)
        ensures
            any == (self.border_facet().border.bits != Borders::NONE),
    {
        self.border_ref().border().bits != Borders::NONE
    }
}

/// Changes the border facet of a widget, and nothing else of it.
pub trait HasBorderStyleSetter: HasBorderStyle + Sized {
    /// The widget with another border record.
    spec fn with_border(self, border: BorderStyle) -> Self;

    /// The border of a widget with another border record is that record.
    proof fn lemma_border(&self)
        ensures
            forall|border: BorderStyle|
                (#[trigger] self.with_border(border)).border_facet() == border,
    ;

    /// The border record that the widget owns, to be changed in place.
    fn border_mut(&mut self) -> (border: &mut BorderStyle)
        ensures
            *border == old(self).border_facet(),
            *final(self) == old(self).with_border(*final(border)),
    ;

    fn set_border(&mut self, border: Borders)
        ensures
            *final(self) == old(self).with_border(
                BorderStyle { border, ..old(self).border_facet() },
            ),
            final(self).border_facet() == (BorderStyle { border, ..old(self).border_facet() }),
    {
        proof {
            self.lemma_border();
        }
        self.border_mut().set_border(border);
    }

    fn set_border_fg(&mut self, fg: Color)
        ensures
            *final(self) == old(self).with_border(BorderStyle { fg, ..old(self).border_facet() }),
            final(self).border_facet() == (BorderStyle { fg, ..old(self).border_facet() }),
    {
        proof {
            self.lemma_border();
        }
        self.border_mut().set_fg(fg);
    }

    fn set_border_bg(&mut self, bg: Color)
        ensures
            *final(self) == old(self).with_border(BorderStyle { bg, ..old(self).border_facet() }),
            final(self).border_facet() == (BorderStyle { bg, ..old(self).border_facet() }),
    {
        proof {
            self.lemma_border();
        }
        self.border_mut().set_bg(bg);
    }

    /// Shows all edges where none showed, and none where any did.
    fn toggle_border(&mut self)
        ensures
            *final(self) == old(self).with_border(old(self).border_facet().toggled()),
            final(self).border_facet() == old(self).border_facet().toggled(),
    {
        proof {
            self.lemma_border();
        }
        let border = self.border_mut();
        let shown = if border.border().bits == Borders::NONE {
            Borders::all()
        } else {
            Borders::none()
        };
        border.set_border(shown);
    }
}

/// Reads the base facet of a widget.
pub trait HasTuiStyle {
    /// The base record that the widget owns.
    spec fn tui_facet(&self) -> TuiStyle;

    /// The base record that the widget owns.
    fn tui_ref(&self) -> (style: &TuiStyle)
        ensures
            *style == self.tui_facet(),
    ;

    fn bg(&self) -> (bg: Color)
        ensures
            bg == self.tui_facet().bg,
    {
        self.tui_ref().bg()
    }

    fn fg(&self) -> (fg: Color)
        ensures
            fg == self.tui_facet().fg,
    {
        self.tui_ref().fg()
    }

    /// The composed style of the content.
    fn tui_style(&self) -> (style: Style)
        ensures
            style == self.tui_facet().style(),
    {
        let base = self.tui_ref();
        Style::compose(base.bg(), base.fg(), base.modifier())
    }

    fn tui_alignment(&self) -> (alignment: Alignment)
        ensures
            alignment == self.tui_facet().alignment,
    {
        self.tui_ref().alignment()
    }
}

/// Changes the base facet of a widget, and nothing else of it.
pub trait HasTuiStyleSetter: HasTuiStyle + Sized {
    /// The widget with another base record.
    spec fn with_tui(self, style: TuiStyle) -> Self;

    /// The base record of a widget with another base record is that record.
    proof fn lemma_tui(&self)
        ensures
            forall|style: TuiStyle| (#[trigger] self.with_tui(style)).tui_facet() == style,
    ;

    /// The base record that the widget owns, to be changed in place.
    fn tui_mut(&mut self) -> (style: &mut TuiStyle)
        ensures
            *style == old(self).tui_facet(),
            *final(self) == old(self).with_tui(*final(style)),
    ;

    fn set_tui_bg(&mut self, color: Color)
        ensures
            *final(self) == old(self).with_tui(TuiStyle { bg: color, ..old(self).tui_facet() }),
            final(self).tui_facet() == (TuiStyle { bg: color, ..old(self).tui_facet() }),
    {
        proof {
            self.lemma_tui();
        }
        self.tui_mut().set_bg(color);
    }

    fn set_tui_fg(&mut self, color: Color)
        ensures
            *final(self) == old(self).with_tui(TuiStyle { fg: color, ..old(self).tui_facet() }),
            final(self).tui_facet() == (TuiStyle { fg: color, ..old(self).tui_facet() }),
    {
        proof {
            self.lemma_tui();
        }
        self.tui_mut().set_fg(color);
    }

    fn set_tui_alignment(&mut self, alignment: Alignment)
        ensures
            *final(self) == old(self).with_tui(TuiStyle { alignment, ..old(self).tui_facet() }),
            final(self).tui_facet() == (TuiStyle { alignment, ..old(self).tui_facet() }),
    {
        proof {
            self.lemma_tui();
        }
        self.tui_mut().set_alignment(alignment);
    }

    fn set_tui_modifier(&mut self, modifier: Modifier)
        ensures
            *final(self) == old(self).with_tui(TuiStyle { modifier, ..old(self).tui_facet() }),
            final(self).tui_facet() == (TuiStyle { modifier, ..old(self).tui_facet() }),
    {
        proof {
            self.lemma_tui();
        }
        self.tui_mut().set_modifier(modifier);
    }
}

} // verus!
