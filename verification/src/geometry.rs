//! Rectangles of terminal cells and how a frame is divided into them.

use vstd::prelude::*;

verus! {

/// A rectangle of terminal cells: the top-left corner and the extent.
#[derive(Clone, Copy, Debug, PartialEq, Eq, Structural)]
pub struct Area {
    pub x: u16,
    pub y: u16,
    pub width: u16,
    pub height: u16,
}

/// The number of cells to leave free on each side of a rectangle.
#[derive(Clone, Copy, Debug, PartialEq, Eq, Structural)]
pub struct Margin {
    pub horizontal: u16,
    pub vertical: u16,
}

/// The axis along which a rectangle is divided.
#[derive(Clone, Copy, Debug, PartialEq, Eq, Structural)]
pub enum Direction {
    Horizontal,
    Vertical,
}

/// How much of the divided axis one segment asks for.
#[derive(Clone, Copy, Debug, PartialEq, Eq, Structural)]
pub enum Constraint {
    /// A share of whatever the fixed segments leave over, by weight.
    Fill(u16),
    /// Exactly this many cells.
    Length(u16),
}

/// `a + b`, held at `u16::MAX`.
pub open spec fn saturating_sum(a: u16, b: u16) -> u16 {
    if a + b > u16::MAX {
        u16::MAX
    } else {
        (a + b) as u16
    }
}

impl Area {
    /// The empty rectangle at the origin.
    pub open spec fn spec_zero() -> Area {
        Area { x: 0, y: 0, width: 0, height: 0 }
    }

    /// The rectangle that remains when `margin` is taken off every side: the
    /// empty rectangle at the origin when the margins do not fit, else the
    /// corner moved inwards (held at the last column and row) and the extent
    /// reduced by both margins.
    pub open spec fn spec_inner(self, margin: Margin) -> Area {
        let doubled_horizontal = saturating_sum(margin.horizontal, margin.horizontal);
        let doubled_vertical = saturating_sum(margin.vertical, margin.vertical);
        if self.width < doubled_horizontal || self.height < doubled_vertical {
            Area::spec_zero()
        } else {
            Area {
                x: saturating_sum(self.x, margin.horizontal),
                y: saturating_sum(self.y, margin.vertical),
                width: (self.width - doubled_horizontal) as u16,
                height: (self.height - doubled_vertical) as u16,
            }
        }
    }

    /// Whether the cell at column `x` and row `y` lies inside the rectangle.
    pub open spec fn contains(self, x: int, y: int) -> bool {
        &&& self.x <= x < self.x + self.width
        &&& self.y <= y < self.y + self.height
    }

    /// The empty rectangle at the origin.
    #[verifier::when_used_as_spec(spec_zero)]
    pub fn zero() -> (r: Area)
        ensures
            r == Area::spec_zero(),
    {
        Area { x: 0, y: 0, width: 0, height: 0 }
    }

    /// The rectangle that remains when `margin` is taken off every side.
    #[verifier::when_used_as_spec(spec_inner)]
    pub fn inner(self, margin: Margin) -> (r: Area)
        ensures
            r == self.spec_inner(margin),
    {
        let doubled_horizontal = margin.horizontal.saturating_add(margin.horizontal);
        let doubled_vertical = margin.vertical.saturating_add(margin.vertical);
        if self.width < doubled_horizontal || self.height < doubled_vertical {
            Area::zero()
        } else {
            Area {
                x: self.x.saturating_add(margin.horizontal),
                y: self.y.saturating_add(margin.vertical),
                width: self.width - doubled_horizontal,
                height: self.height - doubled_vertical,
            }
        }
    }
}

/// Every cell inside the inset rectangle lies inside the rectangle itself,
/// as long as the rectangle ends on the screen.
pub proof fn inner_stays_inside(area: Area, margin: Margin, x: int, y: int)
    requires
        area.x + area.width <= u16::MAX,
        area.y + area.height <= u16::MAX,
        area.spec_inner(margin).contains(x, y),
    ensures
        area.contains(x, y),
{
}

/// Whether `part` lies inside `area` along `direction`, where `area` is held
/// at the last column and row, and spans `area` across the other axis.
pub open spec fn spans(part: Area, area: Area, direction: Direction) -> bool {
    match direction {
        Direction::Horizontal => {
            &&& part.y == area.y && part.height == area.height
            &&& area.x <= part.x
            &&& part.x + part.width <= saturating_sum(area.x, area.width)
        },
        Direction::Vertical => {
            &&& part.x == area.x && part.width == area.width
            &&& area.y <= part.y
            &&& part.y + part.height <= saturating_sum(area.y, area.height)
        },
    }
}

/// Whether `rects` is a division of `area` along `direction`: one rectangle
/// for each constraint, each inside `area` along the axis and spanning it
/// across the other axis.
pub open spec fn divides(
    rects: Seq<Area>,
    area: Area,
    direction: Direction,
    constraints: Seq<Constraint>,
) -> bool {
    &&& rects.len() == constraints.len()
    &&& forall|i: int| 0 <= i < rects.len() ==> spans(#[trigger] rects[i], area, direction)
}

/// Divides `area` with `ratatui::layout::Layout::split`, with no margin, no
/// spacing and the default flex.
///
/// The constraint solver behind it weighs the constraints against each other,
/// and nothing is claimed here of how it shares the axis out among the
/// segments. What holds of every outcome is claimed: there is one rectangle
/// for each constraint; each takes its position and extent across the other
/// axis from `area`; and each lies inside `area` along the axis, because the
/// solver is required to keep every boundary between the start and the end
/// of `area`, and a segment's end is never put before its start.
#[verifier::external_body]
pub(crate) fn split(area: Area, direction: Direction, constraints: &Vec<Constraint>) -> (rects: Vec<
    Area,
>)
    ensures
        divides(rects@, area, direction, constraints@),
{
    let direction = match direction {
        Direction::Horizontal => ratatui::layout::Direction::Horizontal,
        Direction::Vertical => ratatui::layout::Direction::Vertical,
    };
    let constraints = constraints.iter().map(|c| match c {
        Constraint::Fill(weight) => ratatui::layout::Constraint::Fill(*weight),
        Constraint::Length(cells) => ratatui::layout::Constraint::Length(*cells),
    });
    let area = ratatui::layout::Rect { x: area.x, y: area.y, width: area.width, height: area.height };
    let rects = ratatui::layout::Layout::default().direction(direction).constraints(constraints).split(area);
    rects.iter().map(|r| Area { x: r.x, y: r.y, width: r.width, height: r.height }).collect()
}

} // verus!
