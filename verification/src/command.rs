//! The command vocabulary: the four movement directions and the closed set
//! of messages a caller may send to the reducer.

use vstd::prelude::*;

verus! {

/// One of the four axis-aligned movement directions on the grid.
///
/// The set is closed: every `match` over it is exhaustive, so adding a
/// variant is a compile-time-visible change at every use site.
#[derive(Clone, Copy, Debug, PartialEq, Eq, Structural)]
pub enum Direction {
    Up,
    Down,
    Left,
    Right,
}

impl Direction {
    /// Whether this direction points along the positive half of its axis.
    pub open spec fn is_positive_spec(self) -> bool {
        self is Up || self is Right
    }

    /// `Up` and `Right` point along the positive half of an axis;
    /// `Down` and `Left` do not.
    pub fn is_positive(&self) -> (r: bool)
        ensures
            r == self.is_positive_spec(),
    {
        match self {
            Direction::Up | Direction::Right => true,
            Direction::Down | Direction::Left => false,
        }
    }
}

/// The direction that undoes one step of `d`.
pub open spec fn opposite(d: Direction) -> Direction {
    match d {
        Direction::Up => Direction::Down,
        Direction::Down => Direction::Up,
        Direction::Left => Direction::Right,
        Direction::Right => Direction::Left,
    }
}

/// A message (command) for the reducer.
///
/// `Start` activates the entity, `Move` shifts it one unit, and
/// `Run(speed, d)` shifts it `speed` units along `d` in one transition.
#[derive(Clone, Copy, Debug, PartialEq, Eq, Structural)]
pub enum Msg {
    Start,
    Move(Direction),
    Run(u32, Direction),
}

} // verus!
