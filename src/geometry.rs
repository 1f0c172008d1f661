//! Grid points and the four axis-aligned headings.
use vstd::prelude::*;

verus! {

/// A point of the world, in world units. Waypoints are whole multiples of
/// the grid scale.
#[derive(Clone, Copy, Debug, PartialEq, Eq, Structural)]
pub struct Point {
    pub x: i64,
    pub y: i64,
}

impl Point {
    pub fn new(x: i64, y: i64) -> (r: Point)
        ensures
            r.x == x,
            r.y == y,
    {
        Point { x, y }
    }
}

/// One of the four axis-aligned headings.
#[derive(Clone, Copy, Debug, PartialEq, Eq, Structural)]
pub enum Direction {
    Left,
    Right,
    Up,
    Down,
}

impl Direction {
    /// The x component of the unit vector of this heading.
    pub open spec fn dx(self) -> int {
        match self {
            Direction::Left => -1,
            Direction::Right => 1,
            Direction::Up => 0,
            Direction::Down => 0,
        }
    }

    /// The y component of the unit vector of this heading.
    pub open spec fn dy(self) -> int {
        match self {
            Direction::Left => 0,
            Direction::Right => 0,
            Direction::Up => 1,
            Direction::Down => -1,
        }
    }

    /// The unit vector of this heading.
    pub fn unit(&self) -> (r: Point)
        ensures
            r.x == self.dx(),
            r.y == self.dy(),
    {
        match self {
            Direction::Left => Point { x: -1, y: 0 },
            Direction::Right => Point { x: 1, y: 0 },
            Direction::Up => Point { x: 0, y: 1 },
            Direction::Down => Point { x: 0, y: -1 },
        }
    }
}

/// The dot product of two vectors given by their components.
pub open spec fn dot(ax: int, ay: int, bx: int, by: int) -> int {
    ax * bx + ay * by
}

/// `a` lies exactly one grid step of size `g` from `b` along one axis.
pub open spec fn one_step_apart(a: Point, b: Point, g: int) -> bool {
    ||| (a.x - b.x == g && a.y == b.y)
    ||| (a.x - b.x == -g && a.y == b.y)
    ||| (a.x == b.x && a.y - b.y == g)
    ||| (a.x == b.x && a.y - b.y == -g)
}

/// `p` moved by `g` grid units along heading `d`.
pub open spec fn moved(p: Point, d: Direction, g: int) -> (int, int) {
    (p.x + d.dx() * g, p.y + d.dy() * g)
}

/// Moving `p` by `g` along `d` stays within the range of `i64`.
pub open spec fn move_fits(p: Point, d: Direction, g: int) -> bool {
    &&& i64::MIN <= moved(p, d, g).0 <= i64::MAX
    &&& i64::MIN <= moved(p, d, g).1 <= i64::MAX
}

/// Moves `p` by `g` grid units along heading `d`.
pub fn move_point(p: Point, d: Direction, g: i64) -> (r: Point)
    requires
        move_fits(p, d, g as int),
    ensures
        r.x == moved(p, d, g as int).0,
        r.y == moved(p, d, g as int).1,
{
    match d {
        Direction::Left => Point { x: p.x - g, y: p.y },
        Direction::Right => Point { x: p.x + g, y: p.y },
        Direction::Up => Point { x: p.x, y: p.y + g },
        Direction::Down => Point { x: p.x, y: p.y - g },
    }
}

} // verus!
