use arena_survival::combat::{bullet_layers, CollisionTag};
use arena_survival::bullet::{
    handle_bullet_timers, handle_collect_bullet, handle_spawn_bullet, BulletSettings,
    CollisionClass,
};
use arena_survival::direction::Direction;
use arena_survival::enemy::Pose;
use arena_survival::geometry::Vec2i;
use arena_survival::player::Player;

#[test]
fn default_settings() {
    let s = BulletSettings::default();
    assert_eq!(s.speed, 200);
    assert_eq!(s.duration_ms, 500);
    assert_eq!(s.spawn_offset, 8);
}

/// Fired right from the origin, the projectile flies at 200 units/s and
/// turns collectible, with damping, when its 500 ms run out.
#[test]
fn bullet_turns_collectible_after_flight() {
    let settings = BulletSettings::default();
    let mut player = Player::new(Vec2i::zero());
    player.aim = Some(Direction::Right);
    let mut bullet = handle_spawn_bullet(&mut player, &settings).unwrap();
    assert_eq!(bullet.velocity, Vec2i::new(200_000, 0));
    assert_eq!(bullet.position, Vec2i::new(8000, 0));
    assert_eq!(player.velocity, Vec2i::new(-400_000, 0));
    assert!(!player.bullet_available);
    assert_eq!(bullet.collision_class(), CollisionClass::Damaging);
    assert_eq!(bullet.pose(), Pose::Fly);
    assert_eq!(bullet.linear_damping, 0);
    handle_bullet_timers(&mut bullet, &settings, 499);
    assert_eq!(bullet.collision_class(), CollisionClass::Damaging);
    handle_bullet_timers(&mut bullet, &settings, 1);
    assert_eq!(bullet.collision_class(), CollisionClass::Collectible);
    assert_eq!(bullet.linear_damping, 2);
    assert_eq!(bullet.pose(), Pose::Idle);
}

#[test]
fn no_fire_without_projectile() {
    let settings = BulletSettings::default();
    let mut player = Player::new(Vec2i::zero());
    player.aim = Some(Direction::Top);
    assert!(handle_spawn_bullet(&mut player, &settings).is_some());
    let after_first = player;
    assert!(handle_spawn_bullet(&mut player, &settings).is_none());
    assert_eq!(player, after_first);
}

#[test]
fn no_fire_without_aim() {
    let settings = BulletSettings::default();
    let mut player = Player::new(Vec2i::zero());
    assert!(handle_spawn_bullet(&mut player, &settings).is_none());
    assert!(player.bullet_available);
}

/// One shot per cycle: fire, let it land, collect it, fire again.
#[test]
fn fire_collect_cycle() {
    let settings = BulletSettings::default();
    let mut player = Player::new(Vec2i::zero());
    player.aim = Some(Direction::BottomLeft);
    let mut out = handle_spawn_bullet(&mut player, &settings);
    assert!(out.is_some());
    // still flying: cannot be picked up
    handle_collect_bullet(&mut player, &mut out);
    assert!(out.is_some());
    assert!(!player.bullet_available);
    let mut b = out.unwrap();
    handle_bullet_timers(&mut b, &settings, 500);
    let mut out = Some(b);
    handle_collect_bullet(&mut player, &mut out);
    assert!(out.is_none());
    assert!(player.bullet_available);
    assert!(handle_spawn_bullet(&mut player, &settings).is_some());
}

#[test]
fn layers_flip_on_expiry() {
    let settings = BulletSettings::default();
    let mut player = Player::new(Vec2i::zero());
    player.aim = Some(Direction::Right);
    let mut bullet = handle_spawn_bullet(&mut player, &settings).unwrap();
    let flying = bullet_layers(&bullet);
    assert_eq!(flying.memberships, vec![CollisionTag::Bullet, CollisionTag::Entity]);
    assert_eq!(flying.filters, vec![CollisionTag::Solid, CollisionTag::Enemy]);
    handle_bullet_timers(&mut bullet, &settings, 500);
    let resting = bullet_layers(&bullet);
    assert_eq!(resting.memberships, vec![CollisionTag::Collectable]);
    assert_eq!(resting.filters, vec![CollisionTag::Solid, CollisionTag::Enemy, CollisionTag::Player]);
}
