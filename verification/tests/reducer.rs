use grid_entity::command::Direction;
use grid_entity::command::Msg;
use grid_entity::geometry::city_block_distance;
use grid_entity::geometry::is_within_bounds;
use grid_entity::geometry::step;
use grid_entity::geometry::Point;
use grid_entity::reducer::can_apply;
use grid_entity::reducer::step_if_vertical;
use grid_entity::reducer::update;
use grid_entity::reducer::Model;

fn inactive_at(x: i32, y: i32) -> Model {
    Model {
        is_playing: false,
        position: Point { x, y },
    }
}

#[test]
fn start_activates_and_leaves_the_position_alone() {
    let s = inactive_at(4, -2);
    let after = update(s, Msg::Start);
    assert!(after.is_playing);
    assert_eq!(after.position, Point { x: 4, y: -2 });
}

#[test]
fn start_is_idempotent() {
    let s = inactive_at(0, 0);
    let once = update(s, Msg::Start);
    let twice = update(once, Msg::Start);
    assert!(once.is_playing);
    assert!(twice.is_playing);
    assert_eq!(twice, once);
}

#[test]
fn move_steps_the_position_and_keeps_activity() {
    let inactive = inactive_at(1, 1);
    let moved_inactive = update(inactive, Msg::Move(Direction::Left));
    assert_eq!(moved_inactive.position, step(inactive.position, Direction::Left));
    assert_eq!(moved_inactive.position, Point { x: 0, y: 1 });
    assert!(!moved_inactive.is_playing);

    let active = Model {
        is_playing: true,
        position: Point { x: 1, y: 1 },
    };
    let moved_active = update(active, Msg::Move(Direction::Down));
    assert_eq!(moved_active.position, Point { x: 1, y: 0 });
    assert!(moved_active.is_playing);
}

#[test]
fn run_at_zero_speed_changes_nothing() {
    let s = Model {
        is_playing: true,
        position: Point { x: -5, y: 8 },
    };
    assert_eq!(update(s, Msg::Run(0, Direction::Up)), s);
    assert_eq!(update(s, Msg::Run(0, Direction::Left)), s);
}

#[test]
fn run_three_right_is_three_single_steps() {
    let s = inactive_at(2, 2);
    let ran = update(s, Msg::Run(3, Direction::Right));
    let stepped = step(
        step(step(s.position, Direction::Right), Direction::Right),
        Direction::Right,
    );
    assert_eq!(ran.position, stepped);
    assert_eq!(ran.position, Point { x: 5, y: 2 });
    assert!(!ran.is_playing);
}

#[test]
fn run_covers_each_direction() {
    let s = inactive_at(0, 0);
    assert_eq!(update(s, Msg::Run(4, Direction::Up)).position, Point { x: 0, y: 4 });
    assert_eq!(update(s, Msg::Run(4, Direction::Down)).position, Point { x: 0, y: -4 });
    assert_eq!(update(s, Msg::Run(4, Direction::Left)).position, Point { x: -4, y: 0 });
    assert_eq!(update(s, Msg::Run(4, Direction::Right)).position, Point { x: 4, y: 0 });
}

#[test]
fn vertical_steps_are_present_and_horizontal_ones_absent() {
    let p = Point { x: 9, y: -9 };
    assert_eq!(step_if_vertical(p, Direction::Up), Some(Point { x: 9, y: -8 }));
    assert_eq!(step_if_vertical(p, Direction::Up), Some(step(p, Direction::Up)));
    assert_eq!(step_if_vertical(p, Direction::Down), Some(Point { x: 9, y: -10 }));
    assert_eq!(step_if_vertical(p, Direction::Left), None);
    assert_eq!(step_if_vertical(p, Direction::Right), None);
}

#[test]
fn start_move_up_move_right_scenario() {
    let s0 = inactive_at(0, 0);
    let s1 = update(s0, Msg::Start);
    assert!(s1.is_playing);
    assert_eq!(s1.position, Point { x: 0, y: 0 });
    let s2 = update(s1, Msg::Move(Direction::Up));
    assert!(s2.is_playing);
    assert_eq!(s2.position, Point { x: 0, y: 1 });
    let s3 = update(s2, Msg::Move(Direction::Right));
    assert!(s3.is_playing);
    assert_eq!(s3.position, Point { x: 1, y: 1 });
    assert_eq!(city_block_distance(&s0.position, &s3.position), 2);
    assert!(is_within_bounds(s3.position, 10, 10));
}

#[test]
fn can_apply_accepts_whatever_stays_representable() {
    let s = inactive_at(0, 0);
    assert!(can_apply(&s, &Msg::Start));
    assert!(can_apply(&s, &Msg::Move(Direction::Up)));
    assert!(can_apply(&s, &Msg::Run(i32::MAX as u32, Direction::Down)));
    assert!(!can_apply(&s, &Msg::Run(u32::MAX, Direction::Down)));
}

#[test]
fn can_apply_rejects_moves_off_the_representable_grid() {
    let at_top = Model {
        is_playing: true,
        position: Point { x: 0, y: i32::MAX },
    };
    assert!(!can_apply(&at_top, &Msg::Move(Direction::Up)));
    assert!(can_apply(&at_top, &Msg::Move(Direction::Down)));
    assert!(!can_apply(&at_top, &Msg::Run(1, Direction::Up)));
    assert!(can_apply(&at_top, &Msg::Run(0, Direction::Up)));

    let near_left = Model {
        is_playing: true,
        position: Point { x: i32::MIN + 2, y: 0 },
    };
    assert!(can_apply(&near_left, &Msg::Run(2, Direction::Left)));
    assert!(!can_apply(&near_left, &Msg::Run(3, Direction::Left)));
}
