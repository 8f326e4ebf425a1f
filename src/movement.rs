use vstd::prelude::*;
use crate::direction::{direction_of, Direction};
use crate::enemy::Pose;
use crate::geometry::{abs, add_scaled, normalize_or_zero, pushed, unit_of, Vec2i, UNIT};
use crate::health::LifeStatus;

verus! {

/// Smallest unit-vector component, in thousandths, that counts as a
/// movement input.
pub const MOVE_DEADZONE: i64 = 100;

/// Smallest squared pointer motion, in squared thousandths of a unit, that
/// changes the aim.
pub const MOUSE_AIM_DEADZONE: u128 = 40_000_000;

/// Acceleration of the player, in world units per second squared.
pub const PLAYER_ACCELERATION: u32 = 1800;

/// A movement input stick, in thousandths: each axis within `[-1, 1]`.
pub open spec fn is_axis(v: Vec2i) -> bool {
    abs(v.x as int) <= UNIT && abs(v.y as int) <= UNIT
}

/// The velocity a live player takes from a movement input held for
/// `delta_ms`: its unit vector times `acceleration`, unless no component of
/// that unit vector reaches the dead zone.
pub open spec fn moved(v: Vec2i, axis: Vec2i, acceleration: int, delta_ms: int) -> Vec2i {
    let u = unit_of(axis.x as int, axis.y as int);
    if abs(u.0) < MOVE_DEADZONE && abs(u.1) < MOVE_DEADZONE {
        v
    } else {
        pushed(v, u, acceleration * delta_ms, 1000)
    }
}

/// Applies the movement input to the player's velocity; a dead player does
/// not move.
pub fn apply_movement(
    velocity: Vec2i,
    status: LifeStatus,
    axis: Vec2i,
    acceleration: u32,
    delta_ms: u64,
) -> (r: Vec2i)
    requires
        is_axis(axis),
    ensures
        status == LifeStatus::Dead ==> r == velocity,
        status == LifeStatus::Alive ==> r == moved(velocity, axis, acceleration as int, delta_ms as int),
{
    if status == LifeStatus::Dead {
        return velocity;
    }
    let direction = normalize_or_zero(axis);
    let ax = if direction.x >= 0 { direction.x } else { -direction.x };
    let ay = if direction.y >= 0 { direction.y } else { -direction.y };
    if ax < MOVE_DEADZONE && ay < MOVE_DEADZONE {
        return velocity;
    }
    let a: u128 = acceleration as u128;
    let dt: u128 = delta_ms as u128;
    proof {
        assert(a * dt <= 0x1_0000_0000_0000_0000_0000_0000) by (nonlinear_arith)
            requires
                a <= u32::MAX,
                dt <= u64::MAX,
        ;
    }
    add_scaled(velocity, direction, a * dt, 1000)
}

/// The direction the player walks in for a movement input: the compass
/// direction of the input, if any.
pub fn sync_walk_direction(axis: Vec2i) -> (r: Option<Direction>)
    requires
        is_axis(axis),
    ensures
        r == direction_of(axis.x as int, axis.y as int),
{
    Direction::try_from_axis(axis)
}

/// The aim after an aim input: the input's direction when it has one;
/// otherwise none, unless the pointer aims, in which case the aim stays.
pub fn sync_aim_direction(current: Option<Direction>, axis: Vec2i, mouse_aim_enabled: bool) -> (r:
    Option<Direction>)
    requires
        is_axis(axis),
    ensures
        direction_of(axis.x as int, axis.y as int) is Some ==> r == direction_of(
            axis.x as int,
            axis.y as int,
        ),
        direction_of(axis.x as int, axis.y as int) is None ==> r == (if mouse_aim_enabled {
            current
        } else {
            None
        }),
{
    match Direction::try_from_axis(axis) {
        Some(d) => Some(d),
        None => if mouse_aim_enabled {
            current
        } else {
            None
        },
    }
}

/// The aim after pointer motion `pan` (screen axes, y pointing down): a
/// motion past the dead zone that names a direction sets the aim to that
/// direction mirrored top to bottom; anything else leaves the aim.
pub fn handle_mouse_aim(current: Option<Direction>, pan: Vec2i) -> (r: Option<Direction>)
    requires
        pan.wf(),
    ensures
        r == (if crate::geometry::sq_len(pan.x as int, pan.y as int) > MOUSE_AIM_DEADZONE {
            match direction_of(pan.x as int, pan.y as int) {
                Some(d) => Some(mirrored_y(d)),
                None => current,
            }
        } else {
            current
        }),
{
    let motion = crate::geometry::distance_squared(pan, Vec2i::zero());
    if motion > MOUSE_AIM_DEADZONE {
        match Direction::try_from_axis(pan) {
            Some(d) => Some(d.opposite_y()),
            None => current,
        }
    } else {
        current
    }
}

pub open spec fn mirrored_y(d: Direction) -> Direction {
    match d {
        Direction::Top => Direction::Bottom,
        Direction::Bottom => Direction::Top,
        Direction::TopLeft => Direction::BottomLeft,
        Direction::TopRight => Direction::BottomRight,
        Direction::BottomLeft => Direction::TopLeft,
        Direction::BottomRight => Direction::TopRight,
        _ => d,
    }
}

/// How the player's sprite shows a walk direction.
#[derive(PartialEq, Eq, Structural, Clone, Copy, Debug)]
pub struct PlayerLook {
    pub pose: Pose,
    /// Mirrored to face left.
    pub flip_x: bool,
    /// Lean: `1` tilts counter-clockwise, `-1` clockwise, `0` upright.
    pub tilt: i8,
}

/// Walking shows the walk pose, faces the horizontal part of the direction
/// (straight up or down keeps the current facing) and leans into diagonal
/// motion; standing still shows the idle pose upright.
pub fn update_animation(walk: Option<Direction>, flip_x: bool) -> (r: PlayerLook)
    ensures
        r.pose == (if walk is Some {
            Pose::Walk
        } else {
            Pose::Idle
        }),
        r.flip_x == (match walk {
            Some(Direction::Left) | Some(Direction::TopLeft) | Some(Direction::BottomLeft) => true,
            Some(Direction::Right) | Some(Direction::TopRight) | Some(Direction::BottomRight) => false,
            _ => flip_x,
        }),
        r.tilt == (match walk {
            Some(Direction::TopRight) | Some(Direction::BottomLeft) => 1i8,
            Some(Direction::TopLeft) | Some(Direction::BottomRight) => -1i8,
            _ => 0i8,
        }),
{
    match walk {
        Some(dir) => match dir {
            Direction::Top | Direction::Bottom => PlayerLook { pose: Pose::Walk, flip_x, tilt: 0 },
            Direction::Left => PlayerLook { pose: Pose::Walk, flip_x: true, tilt: 0 },
            Direction::Right => PlayerLook { pose: Pose::Walk, flip_x: false, tilt: 0 },
            Direction::TopLeft => PlayerLook { pose: Pose::Walk, flip_x: true, tilt: -1 },
            Direction::TopRight => PlayerLook { pose: Pose::Walk, flip_x: false, tilt: 1 },
            Direction::BottomLeft => PlayerLook { pose: Pose::Walk, flip_x: true, tilt: 1 },
            Direction::BottomRight => PlayerLook { pose: Pose::Walk, flip_x: false, tilt: -1 },
        },
        None => PlayerLook { pose: Pose::Idle, flip_x, tilt: 0 },
    }
}

} // verus!
