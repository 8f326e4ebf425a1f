use arena_survival::direction::Direction;
use arena_survival::enemy::Pose;
use arena_survival::geometry::Vec2i;
use arena_survival::health::LifeStatus;
use arena_survival::movement::{
    apply_movement, handle_mouse_aim, sync_aim_direction, sync_walk_direction, update_animation,
    PLAYER_ACCELERATION,
};

#[test]
fn movement_accelerates_along_input() {
    let v = apply_movement(Vec2i::zero(), LifeStatus::Alive, Vec2i::new(0, 1000), PLAYER_ACCELERATION, 100);
    assert_eq!(v, Vec2i::new(0, 180_000));
}

#[test]
fn movement_is_normalized() {
    let v = apply_movement(Vec2i::zero(), LifeStatus::Alive, Vec2i::new(600, 800), 1000, 1000);
    assert_eq!(v, Vec2i::new(600_000, 800_000));
    let w = apply_movement(Vec2i::zero(), LifeStatus::Alive, Vec2i::new(60, 80), 1000, 1000);
    assert_eq!(w, v);
}

#[test]
fn no_input_no_movement() {
    let v = apply_movement(Vec2i::new(5, 5), LifeStatus::Alive, Vec2i::zero(), 1800, 16);
    assert_eq!(v, Vec2i::new(5, 5));
}

#[test]
fn dead_player_does_not_move() {
    let v = apply_movement(Vec2i::zero(), LifeStatus::Dead, Vec2i::new(1000, 0), 1800, 16);
    assert_eq!(v, Vec2i::zero());
}

#[test]
fn walk_direction_from_input() {
    assert_eq!(sync_walk_direction(Vec2i::new(-1000, 0)), Some(Direction::Left));
    assert_eq!(sync_walk_direction(Vec2i::new(700, 700)), Some(Direction::TopRight));
    assert_eq!(sync_walk_direction(Vec2i::zero()), None);
}

#[test]
fn aim_keeps_or_clears() {
    let right = Some(Direction::Right);
    assert_eq!(sync_aim_direction(right, Vec2i::new(0, -1000), false), Some(Direction::Bottom));
    assert_eq!(sync_aim_direction(right, Vec2i::zero(), true), right);
    assert_eq!(sync_aim_direction(right, Vec2i::zero(), false), None);
}

#[test]
fn mouse_aim_mirrors_screen_y() {
    assert_eq!(handle_mouse_aim(None, Vec2i::new(0, 10_000)), Some(Direction::Bottom));
    assert_eq!(handle_mouse_aim(None, Vec2i::new(10_000, -10_000)), Some(Direction::TopRight));
    // within the dead zone
    assert_eq!(handle_mouse_aim(Some(Direction::Left), Vec2i::new(6000, 0)), Some(Direction::Left));
}

#[test]
fn animation_faces_and_leans() {
    let look = update_animation(Some(Direction::TopLeft), false);
    assert_eq!(look.pose, Pose::Walk);
    assert!(look.flip_x);
    assert_eq!(look.tilt, -1);
    let look = update_animation(Some(Direction::Top), true);
    assert!(look.flip_x);
    assert_eq!(look.tilt, 0);
    let look = update_animation(None, false);
    assert_eq!(look.pose, Pose::Idle);
    assert_eq!(Pose::Walk.name(), "walk");
}
