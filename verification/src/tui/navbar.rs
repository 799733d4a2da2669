//! The navigation bar: the pages of the program side by side, the selected
//! one set off.

use vstd::prelude::*;
use crate::style::{
    BorderStyle, Color, HasBorderStyle, HasBorderStyleSetter, HasTitleStyle, HasTitleStyleSetter,
    HasTuiStyle, HasTuiStyleSetter, Modifier, Style, TitleStyle, TuiStyle,
};
use crate::text::{push_chars, string_from_chars, to_chars};
use crate::tui::frame::{
    spans_view, Block, DrawView, Frame, Paragraph, Shape, ShapeView, Span, SpanView, Text,
    TextView,
};
use crate::tui::traits::{inner_view, Downcast, RenderTui, TuiBlock, TuiEventHandle};
use crate::tui::types::{Direction, Rect, TuiEnent};
use crate::tui::widget::Widget;

verus! {

/// The pages that the navigation bar lists.
#[derive(Clone, Copy, Debug, PartialEq, Eq, Structural)]
pub enum NavbarItem {
    Queue,
    Logs,
    Directories,
    Artists,
    AlbumArtists,
    Albums,
    Playlists,
    Search,
}

impl Default for NavbarItem {
    fn default() -> (item: NavbarItem)
        ensures
            item == NavbarItem::Queue,
    {
        NavbarItem::Queue
    }
}

impl NavbarItem {
    /// All pages, in the order of the bar.
    pub open spec fn variants_spec() -> Seq<NavbarItem> {
        seq![
            NavbarItem::Queue,
            NavbarItem::Logs,
            NavbarItem::Directories,
            NavbarItem::Artists,
            NavbarItem::AlbumArtists,
            NavbarItem::Albums,
            NavbarItem::Playlists,
            NavbarItem::Search,
        ]
    }

    /// The position of the page in the bar.
    pub open spec fn index_spec(self) -> int {
        match self {
            NavbarItem::Queue => 0,
            NavbarItem::Logs => 1,
            NavbarItem::Directories => 2,
            NavbarItem::Artists => 3,
            NavbarItem::AlbumArtists => 4,
            NavbarItem::Albums => 5,
            NavbarItem::Playlists => 6,
            NavbarItem::Search => 7,
        }
    }

    /// The page to the right; right of the last page is the first.
    pub open spec fn next_spec(self) -> NavbarItem {
        NavbarItem::variants_spec()[(self.index_spec() + 1) % 8]
    }

    /// The page to the left; left of the first page is the last.
    pub open spec fn prev_spec(self) -> NavbarItem {
        NavbarItem::variants_spec()[(self.index_spec() + 7) % 8]
    }

    /// The name of the page.
    pub open spec fn name_spec(self) -> Seq<char> {
        match self {
            NavbarItem::Queue => "Queue"@,
            NavbarItem::Logs => "Logs"@,
            NavbarItem::Directories => "Directories"@,
            NavbarItem::Artists => "Artists"@,
            NavbarItem::AlbumArtists => "AlbumArtists"@,
            NavbarItem::Albums => "Albums"@,
            NavbarItem::Playlists => "Playlists"@,
            NavbarItem::Search => "Search"@,
        }
    }

    /// All pages, in the order of the bar.
    pub fn variants() -> (items: [NavbarItem; 8])
        ensures
            items@ == NavbarItem::variants_spec(),
    {
        let items = [
            NavbarItem::Queue,
            NavbarItem::Logs,
            NavbarItem::Directories,
            NavbarItem::Artists,
            NavbarItem::AlbumArtists,
            NavbarItem::Albums,
            NavbarItem::Playlists,
            NavbarItem::Search,
        ];
        assert(items@ =~= NavbarItem::variants_spec());
        items
    }

    /// The position of the page in the bar.
    pub fn index(self) -> (index: usize)
        ensures
            index == self.index_spec(),
            NavbarItem::variants_spec()[index as int] == self,
    {
        match self {
            NavbarItem::Queue => 0,
            NavbarItem::Logs => 1,
            NavbarItem::Directories => 2,
            NavbarItem::Artists => 3,
            NavbarItem::AlbumArtists => 4,
            NavbarItem::Albums => 5,
            NavbarItem::Playlists => 6,
            NavbarItem::Search => 7,
        }
    }

    /// The page to the right; right of the last page is the first.
    pub fn next(self) -> (item: NavbarItem)
        ensures
            item == self.next_spec(),
    {
        let variants = NavbarItem::variants();
        let next_index: usize = (self.index() + 1) % 8;
        variants[next_index]
    }

    /// The page to the left; left of the first page is the last.
    pub fn prev(self) -> (item: NavbarItem)
        ensures
            item == self.prev_spec(),
    {
        let variants = NavbarItem::variants();
        let prev_index: usize = (self.index() + 8 - 1) % 8;
        variants[prev_index]
    }

    /// The name of the page.
    pub fn name(self) -> (name: &'static str)
        ensures
            name@ == self.name_spec(),
    {
        match self {
            NavbarItem::Queue => "Queue",
            NavbarItem::Logs => "Logs",
            NavbarItem::Directories => "Directories",
            NavbarItem::Artists => "Artists",
            NavbarItem::AlbumArtists => "AlbumArtists",
            NavbarItem::Albums => "Albums",
            NavbarItem::Playlists => "Playlists",
            NavbarItem::Search => "Search",
        }
    }
}

/// A step to the right and a step to the left undo each other.
pub proof fn law_navbar_steps_undo(item: NavbarItem)
    ensures
        item.next_spec().prev_spec() == item,
        item.prev_spec().next_spec() == item,
{
}

/// So many spaces.
pub open spec fn spaces(count: int) -> Seq<char> {
    Seq::new(
        if count < 0 {
            0nat
        } else {
            count as nat
        },
        |i: int| ' ',
    )
}

/// A text in the middle of a field of the given width: where the text is
/// shorter, spaces fill both sides, the left one getting the smaller half.
/// A text that is as long as the field or longer stays as it is.
pub open spec fn centered(text: Seq<char>, width: int) -> Seq<char> {
    if text.len() >= width {
        text
    } else {
        let pad = width - text.len();
        spaces(pad / 2) + text + spaces(pad - pad / 2)
    }
}

/// The text of one page in the bar: its name in the middle of a field, a
/// space on either side.
pub open spec fn item_text(item: NavbarItem, item_width: int) -> Seq<char> {
    seq![' '] + centered(item.name_spec(), item_width) + seq![' ']
}

/// The width of the field of one page where the bar is `width` wide: an
/// eighth of it, less three for the separator and the spaces.
pub open spec fn item_width_spec(width: u16) -> int {
    if width / 8 < 3 {
        0
    } else {
        width / 8 - 3
    }
}

/// The colour that is set, or `otherwise`.
pub open spec fn color_or(color: Option<Color>, otherwise: Color) -> Color {
    match color {
        Some(c) => c,
        None => otherwise,
    }
}

/// The navigation bar.
#[derive(Debug)]
pub struct NavbarTui {
    pub title: TitleStyle,
    pub border: BorderStyle,
    pub style: TuiStyle,
    /// The style of the selected page.
    pub selected: Style,
    /// The style of the other pages.
    pub not_selected: Style,
    /// The selected page.
    pub selected_item: NavbarItem,
    /// The separator where the selection begins or ends.
    pub selected_icon: String,
    /// The separator between two pages of the same kind.
    pub not_selected_icon: String,
}

impl NavbarTui {
    /// Whether this is the bar that the program starts with: the default
    /// facets, the first page selected, the selected page in dark on light
    /// and the others in light on dark, both in italics, and the two
    /// separators of the powerline glyphs.
    pub open spec fn is_default(&self) -> bool {
        &&& self.title.is_default()
        &&& self.border == BorderStyle::default_spec()
        &&& self.style == TuiStyle::aligned_spec(crate::style::Alignment::Left)
        &&& self.selected == Style::composed(
            Color::Rgb(130, 170, 255),
            Color::Rgb(47, 51, 77),
            Modifier { bits: Modifier::ITALIC },
        )
        &&& self.not_selected == Style::composed(
            Color::Rgb(47, 51, 77),
            Color::Rgb(130, 170, 255),
            Modifier { bits: Modifier::ITALIC },
        )
        &&& self.selected_item == NavbarItem::Queue
        &&& self.selected_icon@ == "\u{e0b0}"@
        &&& self.not_selected_icon@ == "\u{e0b1}"@
    }

    /// The style of the page at `index`.
    pub open spec fn item_style(&self, index: int) -> Style {
        if NavbarItem::variants_spec()[index] == self.selected_item {
            self.selected
        } else {
            self.not_selected
        }
    }

    /// The separator left of the page at `index`. Before the first page it
    /// leads over from the background of the widget; between two pages it
    /// leads over from the one to the other.
    pub open spec fn separator_view(&self, index: int) -> SpanView {
        let here = NavbarItem::variants_spec()[index] == self.selected_item;
        if index == 0 {
            SpanView {
                content: self.selected_icon@,
                style: Style::plain().with_bg(
                    color_or(self.item_style(0).bg, self.style.bg),
                ).with_fg(self.style.bg),
            }
        } else {
            let before = NavbarItem::variants_spec()[index - 1] == self.selected_item;
            if !before && here {
                SpanView {
                    content: self.selected_icon@,
                    style: Style::plain().with_fg(
                        color_or(self.not_selected.bg, Color::Reset),
                    ).with_bg(color_or(self.selected.bg, Color::Reset)),
                }
            } else if before && !here {
                SpanView {
                    content: self.selected_icon@,
                    style: Style::plain().with_fg(color_or(self.selected.bg, Color::Reset)).with_bg(
                        color_or(self.not_selected.bg, Color::Reset),
                    ),
                }
            } else if !before {
                SpanView { content: self.not_selected_icon@, style: self.not_selected }
            } else {
                SpanView { content: self.not_selected_icon@, style: self.selected }
            }
        }
    }

    /// The separator right of the last page: it leads over to the
    /// background of the widget.
    pub open spec fn closing_view(&self) -> SpanView {
        SpanView {
            content: self.selected_icon@,
            style: Style::plain().with_fg(color_or(self.item_style(7).bg, self.style.bg)).with_bg(
                self.style.bg,
            ),
        }
    }

    /// The span of the page at `index`.
    pub open spec fn item_view(&self, index: int, item_width: int) -> SpanView {
        SpanView {
            content: item_text(NavbarItem::variants_spec()[index], item_width),
            style: self.item_style(index),
        }
    }

    /// The line of the bar for a region that is `width` wide: for each page
    /// a separator and its name, and a closing separator. A region narrower
    /// than eight cells gets an empty line.
    pub open spec fn navbar_line(&self, width: u16) -> Seq<SpanView> {
        if width < 8 {
            Seq::<SpanView>::empty()
        } else {
            Seq::new(
                17,
                |k: int|
                    if k == 16 {
                        self.closing_view()
                    } else if k % 2 == 0 {
                        self.separator_view(k / 2)
                    } else {
                        self.item_view(k / 2, item_width_spec(width))
                    },
            )
        }
    }

    /// What the bar draws: its block on the background of its border, and
    /// inside it the line of the pages.
    pub open spec fn scene(&self, rect: Rect) -> Seq<DrawView> {
        seq![
            DrawView {
                shape: ShapeView::Block {
                    title: self.title.text@,
                    title_style: self.title.style(),
                    title_alignment: self.title.alignment,
                    borders: self.border.border,
                    border_style: self.border.style(),
                    style: self.style.style().with_bg(self.border.bg),
                },
                area: rect,
            },
            DrawView {
                shape: ShapeView::Paragraph {
                    text: TextView::Line(self.navbar_line(inner_view(self, rect).width)),
                    style: Style::plain().adding(self.title.modifier),
                    alignment: self.style.alignment,
                },
                area: inner_view(self, rect),
            },
        ]
    }

    /// The text of one page in the bar.
    fn item_text_of(item: NavbarItem, item_width: usize) -> (text: String)
        ensures
            text@ == item_text(item, item_width as int),
    {
        let name = item.name();
        let chars = to_chars(name);
        let mut out: Vec<char> = Vec::new();
        out.push(' ');
        let mut left: usize = 0;
        let mut right: usize = 0;
        if chars.len() < item_width {
            let pad: usize = item_width - chars.len();
            left = pad / 2;
            right = pad - left;
        }
        let mut i: usize = 0;
        while i < left
            invariant
                i <= left,
                out@ == seq![' '] + spaces(i as int),
            decreases left - i,
        {
            out.push(' ');
            i += 1;
            assert(out@ =~= seq![' '] + spaces(i as int));
        }
        push_chars(&mut out, &chars);
        let ghost middle = out@;
        let mut j: usize = 0;
        while j < right
            invariant
                j <= right,
                out@ == middle + spaces(j as int),
            decreases right - j,
        {
            out.push(' ');
            j += 1;
            assert(out@ =~= middle + spaces(j as int));
        }
        out.push(' ');
        assert(out@ =~= item_text(item, item_width as int));
        string_from_chars(&out)
    }

    /// The separator left of the page at `index`.
    fn separator(&self, index: usize) -> (span: Span)
        requires
            index < 8,
        ensures
            span@ == self.separator_view(index as int),
    {
        let variants = NavbarItem::variants();
        let here = variants[index] == self.selected_item;
        let app_bg = self.style.bg();
        if index == 0 {
            let style = if here {
                self.selected
            } else {
                self.not_selected
            };
            let bg = match style.bg {
                Some(c) => c,
                None => app_bg,
            };
            Span::styled(self.selected_icon.clone(), Style::new().bg(bg).fg(app_bg))
        } else {
            let before = variants[index - 1] == self.selected_item;
            let selected_bg = match self.selected.bg {
                Some(c) => c,
                None => Color::Reset,
            };
            let not_selected_bg = match self.not_selected.bg {
                Some(c) => c,
                None => Color::Reset,
            };
            if !before && here {
                Span::styled(
                    self.selected_icon.clone(),
                    Style::new().fg(not_selected_bg).bg(selected_bg),
                )
            } else if before && !here {
                Span::styled(
                    self.selected_icon.clone(),
                    Style::new().fg(selected_bg).bg(not_selected_bg),
                )
            } else if !before {
                Span::styled(self.not_selected_icon.clone(), self.not_selected)
            } else {
                Span::styled(self.not_selected_icon.clone(), self.selected)
            }
        }
    }

    /// The line of the bar for a region that is `width` wide.
    pub fn build_navbar_line(&self, width: u16) -> (line: Vec<Span>)
        ensures
            spans_view(line@) == self.navbar_line(width),
    {
        let mut spans: Vec<Span> = Vec::new();
        if width < 8 {
            assert(spans_view(spans@) =~= self.navbar_line(width));
            return spans;
        }
        let variants = NavbarItem::variants();
        let eighth: usize = (width / 8) as usize;
        let item_width: usize = if eighth < 3 {
            0
        } else {
            eighth - 3
        };
        let ghost line = self.navbar_line(width);
        let mut i: usize = 0;
        while i < 8
            invariant
                i <= 8,
                width >= 8,
                item_width == item_width_spec(width),
                variants@ == NavbarItem::variants_spec(),
                line == self.navbar_line(width),
                spans@.len() == 2 * i,
                forall|k: int| 0 <= k < spans@.len() ==> (#[trigger] spans@[k])@ == line[k],
            decreases 8 - i,
        {
            let item = variants[i];
            let style = if item == self.selected_item {
                self.selected
            } else {
                self.not_selected
            };
            spans.push(self.separator(i));
            spans.push(Span::styled(NavbarTui::item_text_of(item, item_width), style));
            i += 1;
        }
        let app_bg = self.style.bg();
        let last_style = if variants[7] == self.selected_item {
            self.selected
        } else {
            self.not_selected
        };
        let last_bg = match last_style.bg {
            Some(c) => c,
            None => app_bg,
        };
        spans.push(Span::styled(self.selected_icon.clone(), Style::new().fg(last_bg).bg(app_bg)));
        assert(spans_view(spans@) =~= line);
        spans
    }

    /// Moves the selection one page to the left or to the right.
    pub fn toggle_navbar(&mut self, direction: Direction)
        ensures
            *final(self) == (NavbarTui {
                selected_item: match direction {
                    Direction::Left => old(self).selected_item.prev_spec(),
                    Direction::Right => old(self).selected_item.next_spec(),
                },
                ..*old(self)
            }),
    {
        match direction {
            Direction::Left => {
                self.selected_item = self.selected_item.prev();
            },
            Direction::Right => {
                self.selected_item = self.selected_item.next();
            },
        }
    }

    /// Sets the two separators of the bar. A separator that is the same as
    /// before stays as it is.
    pub fn set_icon(&mut self, selected_icon: &str, not_selected_icon: &str)
        ensures
            final(self).icons_set(old(self), selected_icon@, not_selected_icon@),
    {
        let icon = selected_icon.to_owned();
        if !(self.selected_icon == icon) {
            self.selected_icon = icon;
        }
        let not_icon = not_selected_icon.to_owned();
        if !(self.not_selected_icon == not_icon) {
            self.not_selected_icon = not_icon;
        }
    }

    /// Whether this is `before` with the two separators set, and nothing
    /// else changed.
    pub open spec fn icons_set(
        &self,
        before: &NavbarTui,
        selected_icon: Seq<char>,
        not_selected_icon: Seq<char>,
    ) -> bool {
        &&& self.selected_icon@ == selected_icon
        &&& self.not_selected_icon@ == not_selected_icon
        &&& self.title == before.title
        &&& self.border == before.border
        &&& self.style == before.style
        &&& self.selected == before.selected
        &&& self.not_selected == before.not_selected
        &&& self.selected_item == before.selected_item
    }
}

impl Default for NavbarTui {
    fn default() -> (widget: NavbarTui)
        ensures
            widget.is_default(),
    {
        NavbarTui {
            title: TitleStyle::default(),
            border: BorderStyle::default(),
            style: TuiStyle::default(),
            selected: Style::compose(
                Color::Rgb(130, 170, 255),
                Color::Rgb(47, 51, 77),
                Modifier::italic(),
            ),
            not_selected: Style::compose(
                Color::Rgb(47, 51, 77),
                Color::Rgb(130, 170, 255),
                Modifier::italic(),
            ),
            selected_item: NavbarItem::Queue,
            selected_icon: "\u{e0b0}".to_owned(),
            not_selected_icon: "\u{e0b1}".to_owned(),
        }
    }
}

impl HasTitleStyle for NavbarTui {
    open spec fn title_facet(&self) -> TitleStyle {
        self.title
    }

    fn title_ref(&self) -> (title: &TitleStyle) {
        &self.title
    }
}

impl HasTitleStyleSetter for NavbarTui {
    open spec fn with_title(self, title: TitleStyle) -> Self {
        NavbarTui { title, ..self }
    }

    proof fn lemma_title(&self) {
    }

    fn title_mut(&mut self) -> (title: &mut TitleStyle) {
        &mut self.title
    }
}

impl HasBorderStyle for NavbarTui {
    open spec fn border_facet(&self) -> BorderStyle {
        self.border
    }

    fn border_ref(&self) -> (border: &BorderStyle) {
        &self.border
    }
}

impl HasBorderStyleSetter for NavbarTui {
    open spec fn with_border(self, border: BorderStyle) -> Self {
        NavbarTui { border, ..self }
    }

    proof fn lemma_border(&self) {
    }

    fn border_mut(&mut self) -> (border: &mut BorderStyle) {
        &mut self.border
    }
}

impl HasTuiStyle for NavbarTui {
    open spec fn tui_facet(&self) -> TuiStyle {
        self.style
    }

    fn tui_ref(&self) -> (style: &TuiStyle) {
        &self.style
    }
}

impl HasTuiStyleSetter for NavbarTui {
    open spec fn with_tui(self, style: TuiStyle) -> Self {
        NavbarTui { style, ..self }
    }

    proof fn lemma_tui(&self) {
    }

    fn tui_mut(&mut self) -> (style: &mut TuiStyle) {
        &mut self.style
    }
}

impl RenderTui for NavbarTui {
    open spec fn event_capability(&self) -> bool {
        true
    }

    open spec fn border_capability(&self) -> bool {
        true
    }

    open spec fn draws(&self, rect: Rect, drawn: Seq<DrawView>) -> bool {
        drawn == self.scene(rect)
    }

    fn render(&self, frame: &mut Frame, rect: Rect)
        ensures
            final(frame)@ == old(frame)@ + self.scene(rect),
    {
        let inner = self.get_inner(rect);
        let block = self.to_block();
        let on_border = Block { style: block.style.bg(self.border.bg()), ..block };
        frame.render_widget(Shape::Block(on_border), rect);
        let widget = Paragraph {
            text: Text::Line(self.build_navbar_line(inner.width)),
            style: Style::new().add_modifier(self.title.modifier()),
            alignment: self.tui_alignment(),
        };
        frame.render_widget(Shape::Paragraph(widget), inner);
        assert(frame@ =~= old(frame)@ + self.scene(rect));
        assert(self.draws(rect, self.scene(rect)));
    }

    fn as_event(&self) -> (found: Option<&Self>) {
        Some(self)
    }

    fn as_event_mut(&mut self) -> (found: Option<&mut Self>) {
        Some(self)
    }

    fn as_border_mut(&mut self) -> (found: Option<&mut Self>) {
        Some(self)
    }
}

impl TuiEventHandle for NavbarTui {
    /// A navigation event moves the selection; an icon event sets the
    /// separators; any other event changes nothing.
    open spec fn handled(&self, event: TuiEnent, after: &Self) -> bool {
        match event {
            TuiEnent::Navbar(direction) => *after == (NavbarTui {
                selected_item: match direction {
                    Direction::Left => self.selected_item.prev_spec(),
                    Direction::Right => self.selected_item.next_spec(),
                },
                ..*self
            }),
            TuiEnent::NavbarIcon(selected_icon, not_selected_icon) => after.icons_set(
                self,
                selected_icon@,
                not_selected_icon@,
            ),
            _ => *after == *self,
        }
    }

    fn event_handle(&mut self, event: TuiEnent) {
        match event {
            TuiEnent::Navbar(direction) => {
                self.toggle_navbar(direction);
            },
            TuiEnent::NavbarIcon(selected_icon, not_selected_icon) => {
                self.set_icon(selected_icon.as_str(), not_selected_icon.as_str());
            },
            _ => {},
        }
    }
}

impl Downcast for NavbarTui {
    open spec fn is_in(widget: &Widget) -> bool {
        widget is Navbar
    }

    open spec fn of(widget: &Widget) -> Self {
        widget->Navbar_0
    }

    open spec fn wrap(self) -> Widget {
        Widget::Navbar(self)
    }

    proof fn lemma_wrap(widget: &Widget) {
    }

    fn downcast_ref(widget: &Widget) -> (found: Option<&Self>) {
        match widget {
            Widget::Navbar(inner) => Some(inner),
            _ => None,
        }
    }

    fn downcast_mut(widget: &mut Widget) -> (found: Option<&mut Self>) {
        match widget {
            Widget::Navbar(inner) => Some(inner),
            _ => None,
        }
    }
}

} // verus!
