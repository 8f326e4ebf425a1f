use arena_survival::direction::Direction;
use arena_survival::enemy::EnemyVariant;
use arena_survival::geometry::Vec2i;
use arena_survival::health::LifeStatus;
use arena_survival::session::{classify, Body, CollisionEvent, Contact, Session};

#[test]
fn roles_in_either_order() {
    let a = CollisionEvent { a: Body::Enemy(2), b: Body::Bullet };
    let b = CollisionEvent { a: Body::Bullet, b: Body::Enemy(2) };
    assert_eq!(classify(a), Contact::BulletEnemy(2));
    assert_eq!(classify(b), Contact::BulletEnemy(2));
    assert_eq!(classify(CollisionEvent { a: Body::Enemy(0), b: Body::Player }), Contact::PlayerEnemy(0));
    assert_eq!(classify(CollisionEvent { a: Body::Player, b: Body::Bullet }), Contact::BulletPlayer);
    assert_eq!(classify(CollisionEvent { a: Body::Solid, b: Body::Bullet }), Contact::Ignored);
}

#[test]
fn new_session_is_clear() {
    let s = Session::new(Vec2i::zero());
    assert_eq!(s.score.value(), 0);
    assert_eq!(s.timer.elapsed_ms(), 0);
    assert!(s.enemies.is_empty());
    assert!(s.bullet.is_none());
    assert_eq!(s.waves.len(), 2);
    assert!(!s.game_over);
}

/// A one-hit enemy struck by a fast projectile loses its last hit point,
/// is tagged dead, earns its worth, shrinks, and is removed.
#[test]
fn kill_and_despawn() {
    let mut s = Session::new(Vec2i::zero());
    s.player.aim = Some(Direction::Right);
    s.fire();
    assert!(s.bullet.is_some());
    s.spawn_enemy(EnemyVariant::Basic, Vec2i::new(20_000, 0));
    let events = vec![CollisionEvent { a: Body::Enemy(0), b: Body::Bullet }];
    let out = s.tick(false, &events, 16);
    assert!(!out.player_died);
    assert!(out.waves.is_empty());
    assert_eq!(s.score.value(), 10);
    assert_eq!(s.enemies.len(), 1);
    assert_eq!(s.enemies[0].health.points(), 0);
    assert_eq!(s.enemies[0].status, LifeStatus::Dead);
    assert_eq!(s.enemies[0].scale.x, 984);
    s.tick(false, &Vec::new(), 500);
    assert_eq!(s.enemies.len(), 1);
    s.tick(false, &Vec::new(), 484);
    assert!(s.enemies.is_empty());
    assert_eq!(s.score.value(), 10);
}

#[test]
fn player_death_ends_session() {
    let mut s = Session::new(Vec2i::zero());
    s.player.health.damage(99);
    s.spawn_enemy(EnemyVariant::Basic, Vec2i::new(5000, 0));
    let events = vec![CollisionEvent { a: Body::Player, b: Body::Enemy(0) }];
    let out = s.tick(false, &events, 16);
    assert!(out.player_died);
    assert!(s.game_over);
    assert_eq!(s.player.status, LifeStatus::Dead);
    let out = s.tick(false, &Vec::new(), 16);
    assert!(!out.player_died);
}

#[test]
fn pickup_rearms_through_session() {
    let mut s = Session::new(Vec2i::zero());
    s.player.aim = Some(Direction::Left);
    s.tick(true, &Vec::new(), 16);
    assert!(s.bullet.is_some());
    assert!(!s.player.bullet_available);
    let pickup = vec![CollisionEvent { a: Body::Bullet, b: Body::Player }];
    s.tick(true, &pickup, 16);
    assert!(s.bullet.is_some());
    s.tick(false, &Vec::new(), 500);
    s.tick(false, &pickup, 16);
    assert!(s.bullet.is_none());
    assert!(s.player.bullet_available);
}

#[test]
fn waves_arrive_with_survival_time() {
    let mut s = Session::new(Vec2i::zero());
    let out = s.tick(false, &Vec::new(), 4999);
    assert!(out.waves.is_empty());
    let out = s.tick(false, &Vec::new(), 1);
    assert_eq!(out.waves.len(), 1);
    assert_eq!(out.waves[0].enemies.len(), 1);
    assert_eq!(s.waves[0].wave_counter, 1);
    assert_eq!(s.score.value(), 1);
}

#[test]
fn paused_session_time_stands_still() {
    let mut s = Session::new(Vec2i::zero());
    arena_survival::survival_timer::pause_timer(&mut s.timer);
    s.tick(false, &Vec::new(), 10_000);
    assert_eq!(s.timer.elapsed_ms(), 0);
    assert_eq!(s.waves[0].wave_counter, 0);
}

#[test]
fn score_never_drops_over_ticks() {
    let mut s = Session::new(Vec2i::zero());
    s.player.aim = Some(Direction::Top);
    s.spawn_enemy(EnemyVariant::Bigger, Vec2i::new(0, 20_000));
    s.spawn_enemy(EnemyVariant::Basic, Vec2i::new(0, -20_000));
    let mut last = s.score.value();
    for step in 0..40u64 {
        let events = if step % 3 == 0 {
            vec![
                CollisionEvent { a: Body::Bullet, b: Body::Enemy(0) },
                CollisionEvent { a: Body::Enemy(1), b: Body::Player },
            ]
        } else {
            Vec::new()
        };
        s.tick(step % 2 == 0, &events, 250);
        assert!(s.score.value() >= last);
        last = s.score.value();
    }
    assert!(last > 0);
}
