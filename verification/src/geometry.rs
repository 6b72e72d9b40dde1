//! Geometry: the 2-D integer coordinate type and pure functions over it —
//! unit steps, city-block distance, and a bounds check.

use vstd::prelude::*;
use crate::command::Direction;
use crate::command::opposite;

verus! {

/// A coordinate on the integer grid. Plain value type: equality and copy
/// are by value, and there is no invariant beyond representability.
#[derive(Clone, Copy, Debug, PartialEq, Eq, Structural)]
pub struct Point {
    pub x: i32,
    pub y: i32,
}

/// Where `p` ends after `n` unit moves along `d`, at the specification
/// level. The changed coordinate is truncated where it leaves the `i32`
/// range; `can_move` says when that cannot happen.
pub open spec fn moved(p: Point, n: int, d: Direction) -> Point {
    match d {
        Direction::Up => Point { x: p.x, y: (p.y + n) as i32 },
        Direction::Down => Point { x: p.x, y: (p.y - n) as i32 },
        Direction::Left => Point { x: (p.x - n) as i32, y: p.y },
        Direction::Right => Point { x: (p.x + n) as i32, y: p.y },
    }
}

/// The coordinate changed by `n` moves along `d` stays in the `i32` range.
pub open spec fn can_move(p: Point, n: int, d: Direction) -> bool {
    match d {
        Direction::Up => p.y + n <= i32::MAX,
        Direction::Down => i32::MIN <= p.y - n,
        Direction::Left => i32::MIN <= p.x - n,
        Direction::Right => p.x + n <= i32::MAX,
    }
}

/// Where `p` ends after a single unit step along `d`.
pub open spec fn step_spec(p: Point, d: Direction) -> Point {
    moved(p, 1, d)
}

/// A single unit step along `d` keeps the changed coordinate representable.
pub open spec fn can_step(p: Point, d: Direction) -> bool {
    can_move(p, 1, d)
}

/// Shifts `position` by exactly one unit along `to`: `Up` is `y + 1`,
/// `Down` is `y - 1`, `Left` is `x - 1`, `Right` is `x + 1`.
pub fn step(position: Point, to: Direction) -> (r: Point)
    requires
        can_step(position, to),
    ensures
        r == step_spec(position, to),
{
    match to {
        Direction::Up => Point { x: position.x, y: position.y + 1 },
        Direction::Down => Point { x: position.x, y: position.y - 1 },
        Direction::Left => Point { x: position.x - 1, y: position.y },
        Direction::Right => Point { x: position.x + 1, y: position.y },
    }
}

/// The absolute value of a mathematical integer.
pub open spec fn abs_val(v: int) -> int {
    if v < 0 { -v } else { v }
}

/// City-block (L1) distance between two points:
/// `|a.x - b.x| + |a.y - b.y|`.
pub open spec fn distance_spec(a: Point, b: Point) -> int {
    abs_val(a.x - b.x) + abs_val(a.y - b.y)
}

/// City-block (L1) distance between `a` and `b`. Defined whenever the sum
/// of the coordinate differences is representable in the result type.
pub fn city_block_distance(a: &Point, b: &Point) -> (r: usize)
    requires
        distance_spec(*a, *b) <= usize::MAX,
    ensures
        r == distance_spec(*a, *b),
{
    let dx: usize = if a.x >= b.x {
        (a.x as i64 - b.x as i64) as usize
    } else {
        (b.x as i64 - a.x as i64) as usize
    };
    let dy: usize = if a.y >= b.y {
        (a.y as i64 - b.y as i64) as usize
    } else {
        (b.y as i64 - a.y as i64) as usize
    };
    dx + dy
}

/// True iff `p` lies in the square centred on the origin with half-width
/// `max_x` and half-height `max_y`: `|p.x| <= max_x` and `|p.y| <= max_y`.
pub fn is_within_bounds(p: Point, max_x: usize, max_y: usize) -> (r: bool)
    ensures
        r == (abs_val(p.x as int) <= max_x && abs_val(p.y as int) <= max_y),
{
    let ax: usize = if p.x >= 0 { p.x as usize } else { (-(p.x as i64)) as usize };
    let ay: usize = if p.y >= 0 { p.y as usize } else { (-(p.y as i64)) as usize };
    ax <= max_x && ay <= max_y
}

impl Point {
    /// The origin, `(0, 0)`.
    pub fn new() -> (r: Self)
        ensures
            r == (Point { x: 0, y: 0 }),
    {
        Point { x: 0, y: 0 }
    }

    /// True iff this point is the origin.
    pub fn is_origin(self) -> (r: bool)
        ensures
            r == (self.x == 0 && self.y == 0),
    {
        self.x == 0 && self.y == 0
    }

    /// Shifts this point one unit along `direction`, in place.
    pub fn step(&mut self, direction: Direction)
        requires
            can_step(*old(self), direction),
        ensures
            *final(self) == step_spec(*old(self), direction),
    {
        match direction {
            Direction::Up => self.y = self.y + 1,
            Direction::Down => self.y = self.y - 1,
            Direction::Left => self.x = self.x - 1,
            Direction::Right => self.x = self.x + 1,
        }
    }
}

/// Round-trip law: one step along `d` and one step back along
/// `opposite(d)` return to the starting point, whenever the first step
/// keeps the coordinate representable.
pub proof fn lemma_step_round_trip(p: Point, d: Direction)
    requires
        can_step(p, d),
    ensures
        step_spec(step_spec(p, d), opposite(d)) == p,
{
}

/// Distance is symmetric in its arguments.
pub proof fn lemma_distance_symmetric(a: Point, b: Point)
    ensures
        distance_spec(a, b) == distance_spec(b, a),
{
}

/// The distance from a point to itself is zero.
pub proof fn lemma_distance_self(a: Point)
    ensures
        distance_spec(a, a) == 0,
{
}

} // verus!
