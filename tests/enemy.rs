use arena_survival::enemy::{
    handle_enemy_stun, nearest_goal, run_enemy_behavior, steer_enemy, Enemy, EnemyVariant,
    EnemyVariantBundle, Pose, StunState,
};
use arena_survival::geometry::Vec2i;
use arena_survival::health::LifeStatus;
use arena_survival::timer::Countdown;

#[test]
fn variant_presets() {
    let basic = EnemyVariantBundle::from_variant(EnemyVariant::Basic);
    assert_eq!(basic.settings.speed, 400);
    assert_eq!(basic.settings.stun_duration_ms, 2000);
    assert_eq!(basic.settings.score_worth, 10);
    assert_eq!(basic.health.points(), 1);
    let bigger = EnemyVariantBundle::from_variant(EnemyVariant::Bigger);
    assert_eq!(bigger.settings.speed, 200);
    assert_eq!(bigger.settings.knockback_strength_bullet, 1200);
    assert_eq!(bigger.settings.score_worth, 100);
    assert_eq!(bigger.health.points(), 3);
    assert_eq!(bigger.scale.x, 2000);
}

#[test]
fn nearest_goal_picks_closest_first_on_tie() {
    let goals = vec![Vec2i::new(10, 0), Vec2i::new(3, 4), Vec2i::new(-5, 0), Vec2i::new(0, 5)];
    assert_eq!(nearest_goal(Vec2i::zero(), &goals), Some(1));
    assert_eq!(nearest_goal(Vec2i::zero(), &Vec::new()), None);
}

/// A basic enemy 200 units from the player accelerates straight at it and
/// closes the distance.
#[test]
fn enemy_seeks_goal() {
    let goal = Vec2i::new(200_000, 0);
    let goals = vec![goal];
    let mut enemy = Enemy::spawn(EnemyVariant::Basic, Vec2i::zero());
    let mut position = enemy.position;
    let mut last_distance = 200_000i64;
    for _ in 0..10 {
        steer_enemy(&mut enemy, &goals, 16);
        assert!(enemy.velocity.x > 0);
        assert_eq!(enemy.velocity.y, 0);
        position = Vec2i::new(position.x + enemy.velocity.x * 16 / 1000, position.y);
        enemy.position = position;
        let distance = goal.x - position.x;
        assert!(distance < last_distance);
        last_distance = distance;
    }
    // 400 units/s^2 for 10 ticks of 16 ms
    assert_eq!(enemy.velocity, Vec2i::new(64_000, 0));
}

#[test]
fn diagonal_pursuit_points_at_goal() {
    let goals = vec![Vec2i::new(-3000, 4000)];
    let mut enemy = Enemy::spawn(EnemyVariant::Bigger, Vec2i::zero());
    steer_enemy(&mut enemy, &goals, 1000);
    // unit (-600, 800) times 200 units/s^2 for one second
    assert_eq!(enemy.velocity, Vec2i::new(-120_000, 160_000));
}

#[test]
fn no_goal_no_steering() {
    let mut enemy = Enemy::spawn(EnemyVariant::Basic, Vec2i::new(5, 5));
    steer_enemy(&mut enemy, &Vec::new(), 16);
    assert_eq!(enemy.velocity, Vec2i::zero());
}

#[test]
fn stunned_and_dead_enemies_do_not_steer() {
    let goals = vec![Vec2i::new(1000, 0)];
    let mut stunned = Enemy::spawn(EnemyVariant::Basic, Vec2i::zero());
    stunned.stun = StunState::Stunned(Countdown::new(2000));
    let mut dead = Enemy::spawn(EnemyVariant::Basic, Vec2i::zero());
    dead.status = LifeStatus::Dead;
    let mut enemies = vec![stunned, dead, Enemy::spawn(EnemyVariant::Basic, Vec2i::zero())];
    run_enemy_behavior(&mut enemies, &goals, 100);
    assert_eq!(enemies[0].velocity, Vec2i::zero());
    assert_eq!(enemies[1].velocity, Vec2i::zero());
    assert_eq!(enemies[2].velocity, Vec2i::new(40_000, 0));
}

#[test]
fn stun_wears_off() {
    let mut enemy = Enemy::spawn(EnemyVariant::Basic, Vec2i::zero());
    enemy.stun = StunState::Stunned(Countdown::new(2000));
    assert_eq!(enemy.pose(), Pose::Stun);
    handle_enemy_stun(&mut enemy, 1999);
    assert!(enemy.is_stunned_exec());
    handle_enemy_stun(&mut enemy, 1);
    assert!(!enemy.is_stunned_exec());
    assert_eq!(enemy.pose(), Pose::Idle);
    assert_eq!(Pose::Stun.name(), "stun");
}
