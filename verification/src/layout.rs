//! Rectangles of the screen and how a layout splits one into several,
//! which `ratatui` computes.
use vstd::prelude::*;
use ratatui::layout as rl;

verus! {

/// A rectangle of the screen, in cells.
#[derive(Clone, Copy, Debug, PartialEq, Eq, Structural)]
pub struct Rect {
    pub x: u16,
    pub y: u16,
    pub width: u16,
    pub height: u16,
}

/// The direction in which a layout splits.
#[derive(Clone, Copy, Debug, PartialEq, Eq, Structural)]
pub enum Direction {
    Horizontal,
    Vertical,
}

/// What a part of a layout asks for.
#[derive(Clone, Copy, Debug, PartialEq, Eq, Structural)]
pub enum Constraint {
    /// Exactly this many cells.
    Length(u16),
    /// At least this many cells.
    Min(u16),
    /// This share of the whole, in percent.
    Percentage(u16),
}

/// `r` lies inside `area`.
pub open spec fn within(r: Rect, area: Rect) -> bool {
    &&& area.x <= r.x
    &&& r.x + r.width <= area.x + area.width
    &&& area.y <= r.y
    &&& r.y + r.height <= area.y + area.height
}

/// A part of a split in `direction` spans the whole area across it: a part of
/// a vertical split has the area's columns, a part of a horizontal split its rows.
pub open spec fn across(direction: Direction, r: Rect, area: Rect) -> bool {
    match direction {
        Direction::Vertical => r.x == area.x && r.width == area.width,
        Direction::Horizontal => r.y == area.y && r.height == area.height,
    }
}

/// `Layout::default().direction(..).constraints(..).split(area)` of `ratatui`:
/// one area for each constraint, in order, each inside `area` and spanning it
/// across the direction of the split. Which areas
/// the solver picks is left open: for some constraints more than one
/// solution fits, and the solver's choice is not fixed by its arguments.
#[verifier::external_body]
pub(crate) fn split_area(direction: Direction, constraints: &Vec<Constraint>, area: Rect) -> (r: Vec<Rect>)
    ensures
        r@.len() == constraints@.len(),
        forall|i: int| 0 <= i < r@.len() ==> within(#[trigger] r@[i], area),
        forall|i: int| 0 <= i < r@.len() ==> across(direction, #[trigger] r@[i], area),
{
    let d = match direction {
        Direction::Horizontal => rl::Direction::Horizontal,
        Direction::Vertical => rl::Direction::Vertical,
    };
    let cs = constraints.iter().map(|c| match *c {
        Constraint::Length(n) => rl::Constraint::Length(n),
        Constraint::Min(n) => rl::Constraint::Min(n),
        Constraint::Percentage(n) => rl::Constraint::Percentage(n),
    });
    let whole = rl::Rect { x: area.x, y: area.y, width: area.width, height: area.height };
    let parts = rl::Layout::default().direction(d).constraints(cs).split(whole);
    parts.iter().map(|p| Rect { x: p.x, y: p.y, width: p.width, height: p.height }).collect()
}

} // verus!
