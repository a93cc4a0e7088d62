//! The four compass directions and wraparound-aware single-step movement.
use vstd::prelude::*;
use crate::geom::{Bounds, Position};

verus! {

/// A direction in which the snake can move.
#[derive(Clone, Copy, Debug, PartialEq, Eq, Structural)]
pub enum Direction {
    North,
    East,
    South,
    West,
}

/// What `decrement_in_bounds` returns: one step towards zero, wrapping to
/// `max - 1` at the lower edge when `wrap` is set.
pub open spec fn spec_decrement(x: u16, max: u16, wrap: bool) -> Option<u16> {
    if x >= 1 {
        Some((x - 1) as u16)
    } else if wrap {
        Some((max - 1) as u16)
    } else {
        None
    }
}

/// What `increment_in_bounds` returns: one step away from zero, wrapping to
/// `0` at the upper edge when `wrap` is set.
pub open spec fn spec_increment(x: u16, max: u16, wrap: bool) -> Option<u16> {
    if x + 1 < max {
        Some((x + 1) as u16)
    } else if wrap {
        Some(0u16)
    } else {
        None
    }
}

/// Decrease `x` by 1.  If the new value would leave `0..max`, either wrap
/// around to the far edge (if `wrap` is set) or report an edge collision by
/// returning `None`.
pub fn decrement_in_bounds(x: u16, max: u16, wrap: bool) -> (r: Option<u16>)
    requires
        x < max,
    ensures
        r == spec_decrement(x, max, wrap),
        r matches Some(v) ==> v < max,
        wrap ==> r is Some,
        !wrap ==> ((r is None) <==> x == 0),
{
    if x >= 1 {
        Some(x - 1)
    } else if wrap {
        Some(max - 1)
    } else {
        None
    }
}

/// Increase `x` by 1.  If the new value would leave `0..max`, either wrap
/// around to `0` (if `wrap` is set) or report an edge collision by
/// returning `None`.
pub fn increment_in_bounds(x: u16, max: u16, wrap: bool) -> (r: Option<u16>)
    requires
        x < max,
    ensures
        r == spec_increment(x, max, wrap),
        r matches Some(v) ==> v < max,
        wrap ==> r is Some,
        !wrap ==> ((r is None) <==> x + 1 == max),
{
    if x + 1 < max {
        Some(x + 1)
    } else if wrap {
        Some(0)
    } else {
        None
    }
}

impl Direction {
    /// Where a step from `pos` in this direction lands, or `None` for a
    /// non-wrapping edge collision.
    pub open spec fn spec_advance(self, pos: Position, bounds: Bounds) -> Option<Position> {
        match self {
            Direction::North => match spec_decrement(pos.y, bounds.height, bounds.wrap) {
                Some(y) => Some(Position { x: pos.x, y }),
                None => None,
            },
            Direction::South => match spec_increment(pos.y, bounds.height, bounds.wrap) {
                Some(y) => Some(Position { x: pos.x, y }),
                None => None,
            },
            Direction::East => match spec_increment(pos.x, bounds.width, bounds.wrap) {
                Some(x) => Some(Position { x, y: pos.y }),
                None => None,
            },
            Direction::West => match spec_decrement(pos.x, bounds.width, bounds.wrap) {
                Some(x) => Some(Position { x, y: pos.y }),
                None => None,
            },
        }
    }

    /// Is `pos` on the edge of the level that a step in this direction
    /// would cross?
    pub open spec fn spec_at_edge(self, pos: Position, bounds: Bounds) -> bool {
        match self {
            Direction::North => pos.y == 0,
            Direction::South => pos.y + 1 == bounds.height,
            Direction::East => pos.x + 1 == bounds.width,
            Direction::West => pos.x == 0,
        }
    }

    /// Move `pos` one cell in this direction within `bounds`.  At an edge,
    /// the step wraps around to the opposite edge when `bounds.wrap` is
    /// set, and otherwise returns `None` to signal an edge collision.
    ///
    /// With wraparound a step never fails; without it, a step fails exactly
    /// at the edge the step would cross.
    pub fn advance(self, pos: Position, bounds: Bounds) -> (r: Option<Position>)
        requires
            bounds.wf(),
            bounds.spec_contains(pos),
        ensures
            r == self.spec_advance(pos, bounds),
            r matches Some(q) ==> bounds.spec_contains(q),
            bounds.wrap ==> r is Some,
            !bounds.wrap ==> ((r is None) <==> self.spec_at_edge(pos, bounds)),
    {
        match self {
            Direction::North => match decrement_in_bounds(pos.y, bounds.height, bounds.wrap) {
                Some(y) => Some(Position { x: pos.x, y }),
                None => None,
            },
            Direction::South => match increment_in_bounds(pos.y, bounds.height, bounds.wrap) {
                Some(y) => Some(Position { x: pos.x, y }),
                None => None,
            },
            Direction::East => match increment_in_bounds(pos.x, bounds.width, bounds.wrap) {
                Some(x) => Some(Position { x, y: pos.y }),
                None => None,
            },
            Direction::West => match decrement_in_bounds(pos.x, bounds.width, bounds.wrap) {
                Some(x) => Some(Position { x, y: pos.y }),
                None => None,
            },
        }
    }

    /// The opposite compass direction.
    pub fn reverse(self) -> (r: Direction)
        ensures
            r == self.spec_reverse(),
    {
        match self {
            Direction::North => Direction::South,
            Direction::East => Direction::West,
            Direction::South => Direction::North,
            Direction::West => Direction::East,
        }
    }

    /// The opposite of each compass direction.
    pub open spec fn spec_reverse(self) -> Direction {
        match self {
            Direction::North => Direction::South,
            Direction::East => Direction::West,
            Direction::South => Direction::North,
            Direction::West => Direction::East,
        }
    }
}

} // verus!
