//! Splitting regions. The arithmetic of a block's inner region is stated
//! here; the constraint solver of the terminal library is called as it is.

use ratatui::layout::{Constraint as Wanted, Layout, Rect as OutsideRect};
use ratatui::widgets::{Block, Borders as OutsideBorders};
use vstd::prelude::*;
use crate::style::Borders;
use crate::tui::types::{saturating_add_spec, saturating_sub_spec, Constraint, Rect};

verus! {

/// The smaller of two numbers.
pub open spec fn min_spec(a: u16, b: u16) -> u16 {
    if a <= b {
        a
    } else {
        b
    }
}

/// The region inside a titled block. The top row always goes to the title.
/// A left edge takes the first column, a right edge the last, a bottom edge
/// the last row. Nothing goes below zero or beyond the region.
pub open spec fn inner_area(borders: Borders, area: Rect) -> Rect {
    let left = borders.shows(Borders::LEFT);
    let x = if left {
        min_spec(saturating_add_spec(area.x, 1), area.right())
    } else {
        area.x
    };
    let width_left = if left {
        saturating_sub_spec(area.width, 1)
    } else {
        area.width
    };
    let y = min_spec(saturating_add_spec(area.y, 1), area.bottom());
    let height_top = saturating_sub_spec(area.height, 1);
    let width = if borders.shows(Borders::RIGHT) {
        saturating_sub_spec(width_left, 1)
    } else {
        width_left
    };
    let height = if borders.shows(Borders::BOTTOM) {
        saturating_sub_spec(height_top, 1)
    } else {
        height_top
    };
    Rect { x, y, width, height }
}

/// `ratatui::widgets::Block::inner`, for a block with the given title and
/// borders and no padding. The title, even an empty one, stands in the top
/// row, so the inner region loses its top row whatever the borders are; each
/// visible edge takes one more column or row, with saturating arithmetic.
#[verifier::external_body]
pub(crate) fn block_inner(title: &str, borders: Borders, area: Rect) -> (inner: Rect)
    ensures
        inner == inner_area(borders, area),
{
    let edges = OutsideBorders::from_bits_truncate(borders.bits);
    let whole = OutsideRect { x: area.x, y: area.y, width: area.width, height: area.height };
    let inner = Block::default().title(title).borders(edges).inner(whole);
    Rect { x: inner.x, y: inner.y, width: inner.width, height: inner.height }
}

/// Whether a part lies in the region as a row does: as far to the left and
/// as wide as the region itself, and between its upper and its lower edge.
pub open spec fn is_row_of(part: Rect, area: Rect) -> bool {
    &&& part.x == area.x
    &&& part.width == area.width
    &&& area.y <= part.y
    &&& part.y + part.height <= area.bottom()
}

/// Whether a part lies in the region as a column does: as far up and as
/// high as the region itself, and between its left and its right edge.
pub open spec fn is_column_of(part: Rect, area: Rect) -> bool {
    &&& part.y == area.y
    &&& part.height == area.height
    &&& area.x <= part.x
    &&& part.x + part.width <= area.right()
}

/// Whether every part lies in the region as a row does.
pub open spec fn rows_of(parts: Seq<Rect>, area: Rect) -> bool {
    forall|i: int| 0 <= i < parts.len() ==> is_row_of(#[trigger] parts[i], area)
}

/// Whether every part lies in the region as a column does.
pub open spec fn columns_of(parts: Seq<Rect>, area: Rect) -> bool {
    forall|i: int| 0 <= i < parts.len() ==> is_column_of(#[trigger] parts[i], area)
}

/// `ratatui::layout::Layout::vertical` and `split`: the region cut into
/// rows, one for each constraint, in their order. The layout has no margin,
/// so every row takes its left edge and its width from the region; the
/// solver holds the upper and the lower edge of every row between those of
/// the region. Where in between a row begins and how high it comes out is
/// up to the solver, which may settle an underdetermined layout in more
/// than one way.
#[verifier::external_body]
fn split_rows(constraints: &Vec<Constraint>, area: Rect) -> (parts: Vec<Rect>)
    ensures
        parts@.len() == constraints@.len(),
        forall|i: int|
            0 <= i < parts@.len() ==> (#[trigger] parts@[i]).x == area.x && parts@[i].width
                == area.width && area.y <= parts@[i].y && parts@[i].y + parts@[i].height
                <= area.bottom(),
{
    let whole = OutsideRect { x: area.x, y: area.y, width: area.width, height: area.height };
    let wanted = constraints.iter().map(|c| match *c {
        Constraint::Min(v) => Wanted::Min(v),
        Constraint::Max(v) => Wanted::Max(v),
        Constraint::Length(v) => Wanted::Length(v),
        Constraint::Percentage(v) => Wanted::Percentage(v),
        Constraint::Ratio(n, d) => Wanted::Ratio(n, d),
        Constraint::Fill(v) => Wanted::Fill(v),
    });
    let parts = Layout::vertical(wanted).split(whole);
    parts.iter().map(|p| Rect { x: p.x, y: p.y, width: p.width, height: p.height }).collect()
}

/// `ratatui::layout::Layout::horizontal` and `split`: the region cut into
/// columns, one for each constraint, in their order. The layout has no
/// margin, so every column takes its upper edge and its height from the
/// region; the solver holds the left and the right edge of every column
/// between those of the region. Where in between a column begins and how
/// wide it comes out is up to the solver, which may settle an
/// underdetermined layout in more than one way.
#[verifier::external_body]
fn split_columns(constraints: &Vec<Constraint>, area: Rect) -> (parts: Vec<Rect>)
    ensures
        parts@.len() == constraints@.len(),
        forall|i: int|
            0 <= i < parts@.len() ==> (#[trigger] parts@[i]).y == area.y && parts@[i].height
                == area.height && area.x <= parts@[i].x && parts@[i].x + parts@[i].width
                <= area.right(),
{
    let whole = OutsideRect { x: area.x, y: area.y, width: area.width, height: area.height };
    let wanted = constraints.iter().map(|c| match *c {
        Constraint::Min(v) => Wanted::Min(v),
        Constraint::Max(v) => Wanted::Max(v),
        Constraint::Length(v) => Wanted::Length(v),
        Constraint::Percentage(v) => Wanted::Percentage(v),
        Constraint::Ratio(n, d) => Wanted::Ratio(n, d),
        Constraint::Fill(v) => Wanted::Fill(v),
    });
    let parts = Layout::horizontal(wanted).split(whole);
    parts.iter().map(|p| Rect { x: p.x, y: p.y, width: p.width, height: p.height }).collect()
}

/// Cuts a region into rows from the top, one for each constraint. Every
/// row is as wide as the region and lies inside it.
pub fn vertical(constraints: &Vec<Constraint>, area: Rect) -> (parts: Vec<Rect>)
    ensures
        parts@.len() == constraints@.len(),
        rows_of(parts@, area),
{
    split_rows(constraints, area)
}

/// Cuts a region into columns from the left, one for each constraint.
/// Every column is as high as the region and lies inside it.
pub fn horizontal(constraints: &Vec<Constraint>, area: Rect) -> (parts: Vec<Rect>)
    ensures
        parts@.len() == constraints@.len(),
        columns_of(parts@, area),
{
    split_columns(constraints, area)
}

} // verus!
