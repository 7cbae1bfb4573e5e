//! Grid geometry: 2D integer positions and the four cardinal headings.

use vstd::prelude::*;

verus! {

/// Primitive 2D vector, used both for board positions and for unit deltas.
#[derive(Copy, Clone, Eq, PartialEq, Structural, Default, Debug)]
pub struct Vec2 {
    pub x: i32,
    pub y: i32,
}

impl Vec2 {
    /// Componentwise sum.
    pub fn add(self, rhs: Vec2) -> (r: Vec2)
        requires
            i32::MIN <= self.x + rhs.x <= i32::MAX,
            i32::MIN <= self.y + rhs.y <= i32::MAX,
        ensures
            r.x == self.x + rhs.x,
            r.y == self.y + rhs.y,
    {
        Vec2 { x: self.x + rhs.x, y: self.y + rhs.y }
    }

    /// Componentwise difference.
    pub fn sub(self, rhs: Vec2) -> (r: Vec2)
        requires
            i32::MIN <= self.x - rhs.x <= i32::MAX,
            i32::MIN <= self.y - rhs.y <= i32::MAX,
        ensures
            r.x == self.x - rhs.x,
            r.y == self.y - rhs.y,
    {
        Vec2 { x: self.x - rhs.x, y: self.y - rhs.y }
    }
}

/// Direction the snake is facing. The grid is in screen coordinates:
/// `y` grows downward, so north is `y - 1`.
#[derive(Copy, Clone, Eq, PartialEq, Structural, Debug)]
pub enum Direction {
    N,
    S,
    E,
    W,
}

/// The unit delta a heading moves by on each tick.
pub open spec fn delta(d: Direction) -> Vec2 {
    match d {
        Direction::N => Vec2 { x: 0, y: -1i32 },
        Direction::S => Vec2 { x: 0, y: 1 },
        Direction::E => Vec2 { x: 1, y: 0 },
        Direction::W => Vec2 { x: -1i32, y: 0 },
    }
}

/// The opposite heading.
pub open spec fn opposite(d: Direction) -> Direction {
    match d {
        Direction::N => Direction::S,
        Direction::S => Direction::N,
        Direction::E => Direction::W,
        Direction::W => Direction::E,
    }
}

/// The cell one step from `p` in direction `d` (exact when no i32 overflow occurs).
pub open spec fn step(p: Vec2, d: Direction) -> Vec2 {
    Vec2 { x: (p.x + delta(d).x) as i32, y: (p.y + delta(d).y) as i32 }
}

impl Direction {
    /// The unit delta of this heading.
    pub fn to_delta(self) -> (r: Vec2)
        ensures
            r == delta(self),
    {
        match self {
            Direction::N => Vec2 { x: 0, y: -1 },
            Direction::S => Vec2 { x: 0, y: 1 },
            Direction::E => Vec2 { x: 1, y: 0 },
            Direction::W => Vec2 { x: -1, y: 0 },
        }
    }

    /// The opposite heading.
    pub fn reverse(self) -> (r: Direction)
        ensures
            r == opposite(self),
    {
        match self {
            Direction::N => Direction::S,
            Direction::S => Direction::N,
            Direction::E => Direction::W,
            Direction::W => Direction::E,
        }
    }
}

} // verus!
