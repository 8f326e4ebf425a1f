use arena_survival::bullet::{Bullet, BulletPhase};
use arena_survival::combat::{handle_bullet_enemy_collision, handle_enemy_collision};
use arena_survival::enemy::{Enemy, EnemyVariant, StunState};
use arena_survival::geometry::Vec2i;
use arena_survival::health::LifeStatus;
use arena_survival::player::Player;
use arena_survival::score::Score;
use arena_survival::timer::Countdown;

fn flying(position: Vec2i, velocity: Vec2i) -> Bullet {
    Bullet { position, velocity, phase: BulletPhase::Flying(Countdown::new(500)), linear_damping: 0 }
}

#[test]
fn enemy_contact_pushes_and_hurts_player() {
    let mut player = Player::new(Vec2i::new(10_000, 0));
    let enemy = Enemy::spawn(EnemyVariant::Basic, Vec2i::zero());
    handle_enemy_collision(&mut player, &enemy);
    assert_eq!(player.velocity, Vec2i::new(300_000, 0));
    assert_eq!(player.health.points(), 99);
}

#[test]
fn stunned_enemy_is_harmless() {
    let mut player = Player::new(Vec2i::new(10_000, 0));
    let mut enemy = Enemy::spawn(EnemyVariant::Basic, Vec2i::zero());
    enemy.stun = StunState::Stunned(Countdown::new(2000));
    handle_enemy_collision(&mut player, &enemy);
    assert_eq!(player.velocity, Vec2i::zero());
    assert_eq!(player.health.points(), 100);
}

#[test]
fn overlapping_contact_has_no_push() {
    let mut player = Player::new(Vec2i::zero());
    let enemy = Enemy::spawn(EnemyVariant::Basic, Vec2i::zero());
    handle_enemy_collision(&mut player, &enemy);
    assert_eq!(player.velocity, Vec2i::zero());
    assert_eq!(player.health.points(), 99);
}

#[test]
fn hit_stuns_damages_and_knocks_back() {
    let bullet = flying(Vec2i::zero(), Vec2i::new(200_000, 0));
    let mut enemy = Enemy::spawn(EnemyVariant::Bigger, Vec2i::new(0, 5000));
    let mut score = Score::new();
    handle_bullet_enemy_collision(&bullet, &mut enemy, &mut score);
    assert_eq!(enemy.health.points(), 2);
    assert_eq!(enemy.velocity, Vec2i::new(0, 1_200_000));
    assert_eq!(enemy.stun, StunState::Stunned(Countdown::new(4000)));
    assert_eq!(score.value(), 0);
}

#[test]
fn stunned_enemy_takes_no_second_hit() {
    let bullet = flying(Vec2i::zero(), Vec2i::new(200_000, 0));
    let mut enemy = Enemy::spawn(EnemyVariant::Bigger, Vec2i::new(5000, 0));
    let mut score = Score::new();
    handle_bullet_enemy_collision(&bullet, &mut enemy, &mut score);
    let after_first = enemy;
    handle_bullet_enemy_collision(&bullet, &mut enemy, &mut score);
    assert_eq!(enemy, after_first);
    assert_eq!(enemy.health.points(), 2);
}

#[test]
fn slow_projectile_is_ignored() {
    let bullet = flying(Vec2i::zero(), Vec2i::new(29_999, 0));
    let mut enemy = Enemy::spawn(EnemyVariant::Basic, Vec2i::new(5000, 0));
    let mut score = Score::new();
    handle_bullet_enemy_collision(&bullet, &mut enemy, &mut score);
    assert_eq!(enemy.health.points(), 1);
    assert!(!enemy.is_stunned_exec());
    let bullet = flying(Vec2i::zero(), Vec2i::new(30_000, 0));
    handle_bullet_enemy_collision(&bullet, &mut enemy, &mut score);
    assert_eq!(enemy.health.points(), 0);
}

#[test]
fn collectible_projectile_does_not_hurt() {
    let bullet = Bullet {
        position: Vec2i::zero(),
        velocity: Vec2i::new(200_000, 0),
        phase: BulletPhase::Collectible,
        linear_damping: 2,
    };
    let mut enemy = Enemy::spawn(EnemyVariant::Basic, Vec2i::new(5000, 0));
    let mut score = Score::new();
    handle_bullet_enemy_collision(&bullet, &mut enemy, &mut score);
    assert_eq!(enemy.health.points(), 1);
}

#[test]
fn kill_scores_worth() {
    let bullet = flying(Vec2i::zero(), Vec2i::new(200_000, 0));
    let mut enemy = Enemy::spawn(EnemyVariant::Basic, Vec2i::new(5000, 0));
    let mut score = Score(7);
    handle_bullet_enemy_collision(&bullet, &mut enemy, &mut score);
    assert_eq!(score.value(), 17);
    assert_eq!(enemy.status, LifeStatus::Alive);
}

#[test]
fn score_saturates() {
    let mut score = Score(u64::MAX - 1);
    score.add(10);
    assert_eq!(score.value(), u64::MAX);
}
