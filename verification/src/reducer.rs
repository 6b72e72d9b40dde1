//! The reducer: the entity state and the transition function from
//! (state, message) to the next state, plus the partial vertical-only step.

use vstd::prelude::*;
use crate::command::Direction;
use crate::command::Msg;
use crate::geometry::Point;
use crate::geometry::can_move;
use crate::geometry::can_step;
use crate::geometry::moved;
use crate::geometry::step;
use crate::geometry::step_spec;

verus! {

/// The state of the tracked entity: whether it has been started, and where
/// it stands on the grid. A plain value: each transition consumes the old
/// state and returns a fresh one.
#[derive(Clone, Copy, Debug, PartialEq, Eq, Structural)]
pub struct Model {
    pub is_playing: bool,
    pub position: Point,
}

/// The state that `update` returns for `model` and `msg`: `Start` latches
/// activity on, `Move(d)` steps once along `d`, `Run(speed, d)` steps
/// `speed` times along `d`; nothing else changes.
pub open spec fn update_spec(model: Model, msg: Msg) -> Model {
    match msg {
        Msg::Start => Model { is_playing: true, position: model.position },
        Msg::Move(d) => Model {
            is_playing: model.is_playing,
            position: moved(model.position, 1, d),
        },
        Msg::Run(speed, d) => Model {
            is_playing: model.is_playing,
            position: moved(model.position, speed as int, d),
        },
    }
}

/// The movement that `msg` asks of `model` keeps the changed coordinate in
/// the `i32` range. `Start` moves nothing, so it is always allowed.
pub open spec fn can_update(model: Model, msg: Msg) -> bool {
    match msg {
        Msg::Start => true,
        Msg::Move(d) => can_move(model.position, 1, d),
        Msg::Run(speed, d) => can_move(model.position, speed as int, d),
    }
}

/// Running for `n + 1` units is one unit step beyond running for `n`:
/// the law that lets `Run` be read as `step` applied `speed` times.
pub proof fn lemma_moved_unfolds(p: Point, n: int, d: Direction)
    requires
        0 <= n,
        can_move(p, n + 1, d),
    ensures
        can_step(moved(p, n, d), d),
        step_spec(moved(p, n, d), d) == moved(p, n + 1, d),
{
}

/// Steps `position` one unit along `direction`, `speed` times over.
fn run(position: Point, speed: u32, direction: Direction) -> (r: Point)
    requires
        can_move(position, speed as int, direction),
    ensures
        r == moved(position, speed as int, direction),
{
    let mut q = position;
    let mut i: u32 = 0;
    while i < speed
        invariant
            i <= speed,
            can_move(position, speed as int, direction),
            q == moved(position, i as int, direction),
        decreases speed - i,
    {
        proof {
            lemma_moved_unfolds(position, i as int, direction);
        }
        q = step(q, direction);
        i = i + 1;
    }
    q
}

/// The transition function. Total over the closed command set: `Start`
/// activates the entity and leaves the position alone, `Move(d)` steps the
/// position once along `d` and leaves activity alone, and `Run(speed, d)`
/// applies that step `speed` times in one transition (`speed == 0` is a
/// no-op).
pub fn update(model: Model, msg: Msg) -> (r: Model)
    requires
        can_update(model, msg),
    ensures
        r == update_spec(model, msg),
{
    match msg {
        Msg::Start => Model { is_playing: true, position: model.position },
        Msg::Move(direction) => Model {
            is_playing: model.is_playing,
            position: step(model.position, direction),
        },
        Msg::Run(speed, direction) => Model {
            is_playing: model.is_playing,
            position: run(model.position, speed, direction),
        },
    }
}

/// Whether `update(model, msg)` may be called: the executable mirror of
/// `can_update`, for callers that must test before they transition.
pub fn can_apply(model: &Model, msg: &Msg) -> (r: bool)
    ensures
        r == can_update(*model, *msg),
{
    match msg {
        Msg::Start => true,
        Msg::Move(d) => match d {
            Direction::Up => model.position.y < i32::MAX,
            Direction::Down => i32::MIN < model.position.y,
            Direction::Left => i32::MIN < model.position.x,
            Direction::Right => model.position.x < i32::MAX,
        },
        Msg::Run(speed, d) => match d {
            Direction::Up => {
                model.position.y as i64 + *speed as i64 <= i32::MAX as i64
            },
            Direction::Down => {
                i32::MIN as i64 <= model.position.y as i64 - *speed as i64
            },
            Direction::Left => {
                i32::MIN as i64 <= model.position.x as i64 - *speed as i64
            },
            Direction::Right => {
                model.position.x as i64 + *speed as i64 <= i32::MAX as i64
            },
        },
    }
}

/// What `step_if_vertical` returns: the stepped point for the two vertical
/// directions, absence for the two horizontal ones.
pub open spec fn step_if_vertical_spec(position: Point, to: Direction) -> Option<Point> {
    match to {
        Direction::Up => Some(step_spec(position, Direction::Up)),
        Direction::Down => Some(step_spec(position, Direction::Down)),
        Direction::Left => None,
        Direction::Right => None,
    }
}

/// The partial vertical-only transition: a present value — the position
/// shifted one unit up or down — exactly for `Up` and `Down`, and absence
/// for `Left` and `Right`. The caller handles the absent case; there is no
/// failure path.
pub fn step_if_vertical(position: Point, to: Direction) -> (r: Option<Point>)
    requires
        (to is Up || to is Down) ==> can_step(position, to),
    ensures
        r == step_if_vertical_spec(position, to),
{
    match to {
        Direction::Up => Some(Point { x: position.x, y: position.y + 1 }),
        Direction::Down => Some(Point { x: position.x, y: position.y - 1 }),
        Direction::Left => None,
        Direction::Right => None,
    }
}

/// `Start` is a one-way latch: it turns activity on, changes nothing else,
/// and a second `Start` changes nothing at all.
pub proof fn lemma_start_latches(s: Model)
    ensures
        update_spec(s, Msg::Start).is_playing == true,
        update_spec(s, Msg::Start).position == s.position,
        update_spec(update_spec(s, Msg::Start), Msg::Start) == update_spec(s, Msg::Start),
{
}

/// `Move(d)` steps the position exactly as `step` does and never touches
/// activity.
pub proof fn lemma_move_is_step(s: Model, d: Direction)
    ensures
        update_spec(s, Msg::Move(d)).position == step_spec(s.position, d),
        update_spec(s, Msg::Move(d)).is_playing == s.is_playing,
{
}

/// The vertical-only transition agrees with `step` on `Up` and `Down` and
/// yields nothing on `Left` and `Right`, for every position.
pub proof fn lemma_step_if_vertical_cases(p: Point)
    ensures
        step_if_vertical_spec(p, Direction::Up) == Some(step_spec(p, Direction::Up)),
        step_if_vertical_spec(p, Direction::Down) == Some(step_spec(p, Direction::Down)),
        step_if_vertical_spec(p, Direction::Left) == None::<Point>,
        step_if_vertical_spec(p, Direction::Right) == None::<Point>,
{
}

/// A zero-speed `Run` is a no-op: the state comes back unchanged.
pub proof fn lemma_run_zero(s: Model, d: Direction)
    ensures
        update_spec(s, Msg::Run(0, d)) == s,
{
}

} // verus!
