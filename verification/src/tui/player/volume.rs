//! The volume meter.

use vstd::prelude::*;
use crate::style::{Alignment, HasTuiStyle, HasTuiStyleSetter, TuiStyle};
use crate::text::{decimal_text, push_decimal, push_str, string_from_chars};
use crate::tui::frame::{DrawView, Frame, Paragraph, Shape, ShapeView, Text, TextView};
use crate::tui::traits::{Downcast, RenderTui};
use crate::tui::types::Rect;
use crate::tui::widget::Widget;

verus! {

/// Shows the volume as an icon, a bar and a number.
#[derive(Debug)]
pub struct VolumeTui {
    /// The volume, from 0 to 100.
    pub volume: u8,
    pub style: TuiStyle,
}

/// The volume that a change leads to: the sum, held between 0 and 100.
pub open spec fn clamp_volume(level: int) -> u8 {
    if level < 0 {
        0
    } else if level > 100 {
        100
    } else {
        level as u8
    }
}

/// Which of `count` icons stands for a volume: none but the first for 0,
/// and the others for equal shares of 1 to 100.
pub open spec fn icon_index(volume: u8, count: int) -> int {
    let up = (volume as int * (count - 1) + 99) / 100;
    if up < count - 1 {
        up
    } else {
        count - 1
    }
}

/// The bars of the volume meter, from empty to full.
pub open spec fn bar_icon(index: int) -> Seq<char> {
    if index == 0 {
        "         "@
    } else if index == 1 {
        "\u{2581}        "@
    } else if index == 2 {
        "\u{2581} \u{2583}      "@
    } else if index == 3 {
        "\u{2581} \u{2583} \u{2585}    "@
    } else if index == 4 {
        "\u{2581} \u{2583} \u{2585} \u{2587}  "@
    } else {
        "\u{2581} \u{2583} \u{2585} \u{2587} \u{2588}"@
    }
}

/// The icons for muted, low and high volume.
pub open spec fn status_icon(index: int) -> Seq<char> {
    if index == 0 {
        "\u{eee8} "@
    } else if index == 1 {
        "\u{f027} "@
    } else {
        "\u{f028} "@
    }
}

/// A number, filled with spaces on the right up to three characters.
pub open spec fn left_in_three(n: nat) -> Seq<char> {
    let digits = decimal_text(n);
    if digits.len() == 1 {
        digits + seq![' ', ' ']
    } else if digits.len() == 2 {
        digits + seq![' ']
    } else {
        digits
    }
}

/// The line that the meter shows for a volume.
pub open spec fn volume_text(volume: u8) -> Seq<char> {
    status_icon(icon_index(volume, 3)) + seq![' '] + bar_icon(icon_index(volume, 6)) + seq![
        ' ',
        ' ',
        ' ',
        ' ',
        ' ',
    ] + left_in_three(volume as nat) + seq!['%', ' ']
}

impl VolumeTui {
    /// Whether the volume lies between 0 and 100. Every meter starts so,
    /// and setting and changing the volume lead there from any volume.
    pub open spec fn in_range(&self) -> bool {
        self.volume <= 100
    }

    /// Whether this is the meter that the player starts with: half
    /// volume, aligned to the right.
    pub open spec fn is_default(&self) -> bool {
        self.volume == 50 && self.style == TuiStyle::aligned_spec(Alignment::Right)
    }

    /// What the meter draws.
    pub open spec fn scene(&self, rect: Rect) -> Seq<DrawView> {
        seq![
            DrawView {
                shape: ShapeView::Paragraph {
                    text: TextView::Raw(volume_text(self.volume)),
                    style: self.style.style(),
                    alignment: self.style.alignment,
                },
                area: rect,
            },
        ]
    }

    /// The bars of the volume meter, from empty to full.
    pub fn icons_block() -> (icons: [&'static str; 6])
        ensures
            forall|i: int| 0 <= i < 6 ==> (#[trigger] icons@[i])@ == bar_icon(i),
    {
        [
            "         ",
            "\u{2581}        ",
            "\u{2581} \u{2583}      ",
            "\u{2581} \u{2583} \u{2585}    ",
            "\u{2581} \u{2583} \u{2585} \u{2587}  ",
            "\u{2581} \u{2583} \u{2585} \u{2587} \u{2588}",
        ]
    }

    /// The icons for muted, low and high volume.
    pub fn volume_status() -> (icons: [&'static str; 3])
        ensures
            forall|i: int| 0 <= i < 3 ==> (#[trigger] icons@[i])@ == status_icon(i),
    {
        ["\u{eee8} ", "\u{f027} ", "\u{f028} "]
    }

    /// Picks the icon that stands for a volume.
    pub fn pick_icon<'a>(volume: u8, icons: &[&'a str]) -> (icon: &'a str)
        requires
            0 < icons@.len() <= 0x0100_0000,
        ensures
            icon == icons@[icon_index(volume, icons@.len() as int)],
    {
        let len: usize = icons.len();
        assert(volume as usize * (len - 1) <= 255 * 0x0100_0000) by (nonlinear_arith)
            requires
                volume <= 255,
                0 <= len - 1 <= 0x0100_0000,
        ;
        let up: usize = (volume as usize * (len - 1) + 99) / 100;
        let index: usize = if up < len - 1 {
            up
        } else {
            len - 1
        };
        icons[index]
    }

    /// Sets the volume; anything above 100 counts as 100.
    pub fn set_volume(&mut self, volume: u8)
        ensures
            *final(self) == (VolumeTui { volume: clamp_volume(volume as int), ..*old(self) }),
            final(self).in_range(),
    {
        self.volume = if volume > 100 {
            100
        } else {
            volume
        };
    }

    /// Changes the volume by `delta`; the result stays between 0 and 100.
    pub fn adjust_volume(&mut self, delta: i8)
        ensures
            *final(self) == (VolumeTui {
                volume: clamp_volume(old(self).volume as int + delta as int),
                ..*old(self)
            }),
            final(self).in_range(),
    {
        let sum: i16 = self.volume as i16 + delta as i16;
        self.volume = if sum < 0 {
            0
        } else if sum > 100 {
            100
        } else {
            sum as u8
        };
    }

    /// The volume.
    pub fn volume(&self) -> (volume: u8)
        ensures
            volume == self.volume,
    {
        self.volume
    }

    /// The line that the meter shows.
    fn line(&self) -> (line: String)
        ensures
            line@ == volume_text(self.volume),
    {
        let status = VolumeTui::volume_status();
        let bars = VolumeTui::icons_block();
        let mut out: Vec<char> = Vec::new();
        push_str(&mut out, VolumeTui::pick_icon(self.volume, &status));
        out.push(' ');
        push_str(&mut out, VolumeTui::pick_icon(self.volume, &bars));
        push_str(&mut out, "     ");
        proof {
            reveal_strlit("     ");
            assert("     "@ =~= seq![' ', ' ', ' ', ' ', ' ']);
        }
        let ghost before = out@;
        push_decimal(&mut out, self.volume as u64);
        if self.volume < 10 {
            out.push(' ');
            out.push(' ');
        } else if self.volume < 100 {
            out.push(' ');
        }
        proof {
            let n = self.volume as nat;
            reveal_with_fuel(decimal_text, 3);
            assert(decimal_text(n).len() == if n < 10 {
                1nat
            } else if n < 100 {
                2nat
            } else {
                3nat
            });
            assert(out@ =~= before + left_in_three(n));
        }
        out.push('%');
        out.push(' ');
        assert(out@ =~= volume_text(self.volume));
        string_from_chars(&out)
    }
}

impl Default for VolumeTui {
    fn default() -> (widget: VolumeTui)
        ensures
            widget.is_default(),
            widget.in_range(),
    {
        VolumeTui { style: TuiStyle::aligned(Alignment::Right), volume: 50 }
    }
}

impl HasTuiStyle for VolumeTui {
    open spec fn tui_facet(&self) -> TuiStyle {
        self.style
    }

    fn tui_ref(&self) -> (style: &TuiStyle) {
        &self.style
    }
}

impl HasTuiStyleSetter for VolumeTui {
    open spec fn with_tui(self, style: TuiStyle) -> Self {
        VolumeTui { style, ..self }
    }

    proof fn lemma_tui(&self) {
    }

    fn tui_mut(&mut self) -> (style: &mut TuiStyle) {
        &mut self.style
    }
}

impl RenderTui for VolumeTui {
    open spec fn event_capability(&self) -> bool {
        false
    }

    open spec fn border_capability(&self) -> bool {
        false
    }

    open spec fn draws(&self, rect: Rect, drawn: Seq<DrawView>) -> bool {
        drawn == self.scene(rect)
    }

    fn render(&self, frame: &mut Frame, rect: Rect)
        ensures
            final(frame)@ == old(frame)@ + self.scene(rect),
    {
        let widget = Paragraph {
            text: Text::Raw(self.line()),
            style: self.tui_style(),
            alignment: self.tui_alignment(),
        };
        frame.render_widget(Shape::Paragraph(widget), rect);
        assert(frame@ =~= old(frame)@ + self.scene(rect));
        assert(self.draws(rect, self.scene(rect)));
    }

    fn as_event(&self) -> (found: Option<&Self>) {
        None
    }

    fn as_event_mut(&mut self) -> (found: Option<&mut Self>) {
        None
    }

    fn as_border_mut(&mut self) -> (found: Option<&mut Self>) {
        None
    }
}

impl Downcast for VolumeTui {
    open spec fn is_in(widget: &Widget) -> bool {
        widget is Volume
    }

    open spec fn of(widget: &Widget) -> Self {
        widget->Volume_0
    }

    open spec fn wrap(self) -> Widget {
        Widget::Volume(self)
    }

    proof fn lemma_wrap(widget: &Widget) {
    }

    fn downcast_ref(widget: &Widget) -> (found: Option<&Self>) {
        match widget {
            Widget::Volume(inner) => Some(inner),
            _ => None,
        }
    }

    fn downcast_mut(widget: &mut Widget) -> (found: Option<&mut Self>) {
        match widget {
            Widget::Volume(inner) => Some(inner),
            _ => None,
        }
    }
}

} // verus!
