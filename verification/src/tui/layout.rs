//! Screen geometry: rectangles and the constraint solver that splits them.
use ratatui::layout::{Constraint as Cn, Direction as Dir, Flex as Fx, Layout, Rect as Area};
use vstd::prelude::*;

verus! {

/// A rectangle of terminal cells.
#[derive(Clone, Copy, Debug, PartialEq, Eq, Hash, Structural)]
pub struct Rect {
    pub x: u16,
    pub y: u16,
    pub width: u16,
    pub height: u16,
}

/// The rectangle inside margins of `horizontal` columns and `vertical` rows
/// on each side, or the empty rectangle at the origin where the margins do
/// not fit; the arithmetic saturates.
pub open spec fn spec_inner(r: Rect, horizontal: u16, vertical: u16) -> Rect {
    let dh = if 2 * horizontal > u16::MAX { u16::MAX as int } else { 2 * horizontal };
    let dv = if 2 * vertical > u16::MAX { u16::MAX as int } else { 2 * vertical };
    if r.width < dh || r.height < dv {
        Rect { x: 0, y: 0, width: 0, height: 0 }
    } else {
        Rect {
            x: if r.x + horizontal > u16::MAX { u16::MAX } else { (r.x + horizontal) as u16 },
            y: if r.y + vertical > u16::MAX { u16::MAX } else { (r.y + vertical) as u16 },
            width: (r.width - dh) as u16,
            height: (r.height - dv) as u16,
        }
    }
}

impl Rect {
    /// The rectangle at (`x`, `y`) of the given size.
    pub fn new(x: u16, y: u16, width: u16, height: u16) -> (r: Rect)
        ensures
            r == (Rect { x, y, width, height }),
    {
        Rect { x, y, width, height }
    }

    /// The rectangle inside margins of `horizontal` columns and `vertical`
    /// rows on each side; empty when the margins do not fit.
    pub fn inner(self, horizontal: u16, vertical: u16) -> (r: Rect)
        ensures
            r == spec_inner(self, horizontal, vertical),
    {
        let dh: u16 = if horizontal > 32767 { 65535 } else { 2 * horizontal };
        let dv: u16 = if vertical > 32767 { 65535 } else { 2 * vertical };
        if self.width < dh || self.height < dv {
            Rect { x: 0, y: 0, width: 0, height: 0 }
        } else {
            Rect {
                x: self.x.saturating_add(horizontal),
                y: self.y.saturating_add(vertical),
                width: self.width - dh,
                height: self.height - dv,
            }
        }
    }
}

/// The axis along which a layout places its areas.
#[derive(Clone, Copy, Debug, PartialEq, Eq, Structural)]
pub enum Direction {
    Horizontal,
    Vertical,
}

/// How a layout distributes free space.
#[derive(Clone, Copy, Debug, PartialEq, Eq, Structural)]
pub enum Flex {
    /// Areas packed at the start.
    Start,
    /// Areas centred, free space on both sides.
    Center,
}

/// A size requirement on one area of a layout.
#[derive(Clone, Copy, Debug, PartialEq, Eq, Structural)]
pub enum Constraint {
    /// At least this many cells.
    Min(u16),
    /// Exactly this many cells.
    Length(u16),
    /// This percentage of the split area.
    Percentage(u16),
}

/// The row just below `area`, saturated at `u16::MAX` as ratatui's
/// `Rect::bottom` saturates.
pub open spec fn bottom_of(area: Rect) -> int {
    if area.y + area.height > u16::MAX {
        u16::MAX as int
    } else {
        area.y + area.height
    }
}

/// The column just right of `area`, saturated at `u16::MAX` as ratatui's
/// `Rect::right` saturates.
pub open spec fn right_of(area: Rect) -> int {
    if area.x + area.width > u16::MAX {
        u16::MAX as int
    } else {
        area.x + area.width
    }
}

/// `part` starts no higher and ends no lower than `area`.
pub open spec fn within_rows(part: Rect, area: Rect) -> bool {
    area.y <= part.y && part.y + part.height <= bottom_of(area)
}

/// `part` starts no further left and ends no further right than `area`.
pub open spec fn within_columns(part: Rect, area: Rect) -> bool {
    area.x <= part.x && part.x + part.width <= right_of(area)
}

/// `part` can be an area of a vertical split of `area`: it has `area`'s
/// columns and lies within its rows.
pub open spec fn vertical_piece(part: Rect, area: Rect) -> bool {
    part.x == area.x && part.width == area.width && within_rows(part, area)
}

/// `part` can be an area of a horizontal split of `area`: it has `area`'s
/// rows and lies within its columns.
pub open spec fn horizontal_piece(part: Rect, area: Rect) -> bool {
    part.y == area.y && part.height == area.height && within_columns(part, area)
}

/// Whether `areas` is an answer that ratatui's constraint solver can give
/// for a split of `area` with the given direction, flex mode, spacing and
/// constraints. This is a relation, not a function: the solver may give
/// different answers to the same request, so nothing follows from it about
/// two splits agreeing.
pub uninterp spec fn layout_outcome(
    area: Rect,
    direction: Direction,
    flex: Flex,
    spacing: u16,
    constraints: Seq<Constraint>,
    areas: Seq<Rect>,
) -> bool;

/// `ratatui::layout::Layout::split` on a layout with the given direction,
/// flex mode, spacing and constraints (no margin).
///
/// Claimed of it, as the source shows: the areas are an answer of the
/// solver to exactly this request (`layout_outcome`); one area comes back per constraint
/// (one segment is built per constraint); the cross axis of every area is
/// copied from `area` (`changes_to_rects`); and along the split axis every
/// area lies within `area`, because every solver variable is held within
/// the area's start and end by required constraints
/// (`configure_variable_in_area_constraints`), those bounds are whole
/// cells, and an area's size is its end less its start, saturating.
/// Where the areas fall within `area` is left unsaid: the solver picks
/// among equally good layouts by walking hash maps whose order differs from
/// process to process, so the result is not a function of the arguments.
#[verifier::external_body]
pub fn split_area(
    area: Rect,
    direction: Direction,
    flex: Flex,
    spacing: u16,
    constraints: &Vec<Constraint>,
) -> (r: Vec<Rect>)
    ensures
        layout_outcome(area, direction, flex, spacing, constraints@, r@),
        r@.len() == constraints@.len(),
        forall|i: int|
            0 <= i < r@.len() ==> (direction == Direction::Vertical ==> vertical_piece(
                #[trigger] r@[i],
                area,
            )) && (direction == Direction::Horizontal ==> horizontal_piece(r@[i], area)),
{
    let areas = Layout::default().direction(match direction {
        Direction::Horizontal => Dir::Horizontal,
        Direction::Vertical => Dir::Vertical,
    }).flex(match flex {
        Flex::Start => Fx::Start,
        Flex::Center => Fx::Center,
    }).spacing(spacing).constraints(constraints.iter().map(|c| match *c {
        Constraint::Min(v) => Cn::Min(v),
        Constraint::Length(v) => Cn::Length(v),
        Constraint::Percentage(v) => Cn::Percentage(v),
    })).split(Area { x: area.x, y: area.y, width: area.width, height: area.height });
    areas.iter().map(|a| Rect { x: a.x, y: a.y, width: a.width, height: a.height }).collect()
}

} // verus!
