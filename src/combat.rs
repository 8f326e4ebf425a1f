use vstd::prelude::*;
use crate::bullet::Bullet;
use crate::enemy::{Enemy, StunState};
use crate::geometry::{
    add_scaled, displacement, distance_squared, normalize_or_zero, pushed, sq_len, unit_of, Vec2i,
};
use crate::health::{damaged, Health, LifeStatus};
use crate::player::Player;
use crate::score::{credited, Score};
use crate::timer::Countdown;

verus! {

/// Speed a projectile needs to hurt an enemy, in thousandths of a world
/// unit per second.
pub const MIN_DAMAGE_SPEED: i64 = 30_000;

/// Contact with an active enemy pushes the player away from it and costs
/// one hit point; a stunned or dead enemy is harmless.
pub open spec fn player_hit(p: Player, e: Enemy) -> Player {
    if e.is_active() {
        Player {
            velocity: pushed(
                p.velocity,
                unit_of(p.position.x - e.position.x, p.position.y - e.position.y),
                e.settings.knockback_strength as int,
                1,
            ),
            health: Health(damaged(p.health.0 as int, 1) as u32),
            ..p
        }
    } else {
        p
    }
}

/// Resolves an enemy touching the player.
pub fn handle_enemy_collision(player: &mut Player, enemy: &Enemy)
    requires
        old(player).wf(),
        enemy.wf(),
    ensures
        final(player).wf(),
        *final(player) == player_hit(*old(player), *enemy),
{
    if enemy.status != LifeStatus::Alive || enemy.is_stunned_exec() {
        return ;
    }
    let direction = normalize_or_zero(displacement(player.position, enemy.position));
    player.velocity = add_scaled(
        player.velocity,
        direction,
        enemy.settings.knockback_strength as u128,
        1,
    );
    player.health.damage(1);
}

/// A projectile hurts on contact while flying at `MIN_DAMAGE_SPEED` or more.
pub open spec fn bullet_can_damage(b: Bullet) -> bool {
    b.is_flying() && sq_len(b.velocity.x as int, b.velocity.y as int) >= MIN_DAMAGE_SPEED
        * MIN_DAMAGE_SPEED
}

/// A qualifying projectile hitting a live enemy that is not stunned pushes it
/// away, costs it one hit point and stuns it; the score gains the enemy's
/// worth when that hit leaves it without hit points. Any other contact
/// changes nothing.
pub open spec fn enemy_hit(b: Bullet, e: Enemy, score: int) -> (Enemy, int) {
    if bullet_can_damage(b) && e.status == LifeStatus::Alive && !e.is_stunned() {
        let health = damaged(e.health.0 as int, 1);
        (
            Enemy {
                velocity: pushed(
                    e.velocity,
                    unit_of(e.position.x - b.position.x, e.position.y - b.position.y),
                    e.settings.knockback_strength_bullet as int,
                    1,
                ),
                health: Health(health as u32),
                stun: StunState::Stunned(
                    Countdown { duration_ms: e.settings.stun_duration_ms, elapsed_ms: 0, finished: false },
                ),
                ..e
            },
            if health == 0 {
                credited(score, e.settings.score_worth as int)
            } else {
                score
            },
        )
    } else {
        (e, score)
    }
}

/// Resolves the projectile touching an enemy.
pub fn handle_bullet_enemy_collision(bullet: &Bullet, enemy: &mut Enemy, score: &mut Score)
    requires
        bullet.wf(),
        old(enemy).wf(),
    ensures
        final(enemy).wf(),
        (*final(enemy), final(score).0 as int) == enemy_hit(*bullet, *old(enemy), old(score).0 as int),
        final(score).0 >= old(score).0,
{
    if !bullet.is_flying_exec() {
        return ;
    }
    let fast = distance_squared(bullet.velocity, Vec2i::zero()) >= (MIN_DAMAGE_SPEED
        * MIN_DAMAGE_SPEED) as u128;
    if !fast || enemy.status != LifeStatus::Alive || enemy.is_stunned_exec() {
        return ;
    }
    let direction = normalize_or_zero(displacement(enemy.position, bullet.position));
    enemy.velocity = add_scaled(
        enemy.velocity,
        direction,
        enemy.settings.knockback_strength_bullet as u128,
        1,
    );
    enemy.health.damage(1);
    enemy.stun = StunState::Stunned(Countdown::new(enemy.settings.stun_duration_ms));
    if !enemy.health.is_alive() {
        score.add(enemy.settings.score_worth as u64);
    }
}

/// Hitting an enemy that is already stunned changes neither the enemy, its
/// stun countdown, nor the score.
pub proof fn lemma_stunned_enemy_unaffected(b: Bullet, e: Enemy, score: int)
    requires
        e.is_stunned(),
    ensures
        enemy_hit(b, e, score) == (e, score),
{
}

/// Resolving the same contact twice in a row has the effect of resolving it
/// once: the first hit stuns the enemy, so the second finds it stunned.
pub proof fn lemma_hit_idempotent(b: Bullet, e: Enemy, score: int)
    ensures
        enemy_hit(b, enemy_hit(b, e, score).0, enemy_hit(b, e, score).1) == enemy_hit(b, e, score),
        enemy_hit(b, e, score).0.health.0 >= damaged(e.health.0 as int, 1),
{
}

/// Resolving a hit never lowers the score.
pub proof fn lemma_hit_keeps_score(b: Bullet, e: Enemy, score: int)
    requires
        0 <= score <= u64::MAX,
    ensures
        score <= enemy_hit(b, e, score).1 <= u64::MAX,
{
}

/// Collision categories of the physics layer.
#[derive(PartialEq, Eq, Structural, Clone, Copy, Debug)]
pub enum CollisionTag {
    Default,
    Solid,
    Entity,
    Player,
    Enemy,
    Bullet,
    Collectable,
}

/// The categories a body belongs to, and those it collides with.
pub struct CollisionLayers {
    pub memberships: Vec<CollisionTag>,
    pub filters: Vec<CollisionTag>,
}

fn tags2(a: CollisionTag, b: CollisionTag) -> (r: Vec<CollisionTag>)
    ensures
        r@ == seq![a, b],
{
    let mut r: Vec<CollisionTag> = Vec::new();
    r.push(a);
    r.push(b);
    proof {
        assert(r@ =~= seq![a, b]);
    }
    r
}

fn tags3(a: CollisionTag, b: CollisionTag, c: CollisionTag) -> (r: Vec<CollisionTag>)
    ensures
        r@ == seq![a, b, c],
{
    let mut r = tags2(a, b);
    r.push(c);
    proof {
        assert(r@ =~= seq![a, b, c]);
    }
    r
}

/// The player is a player entity; it meets solids, enemies and collectible
/// projectiles.
pub fn player_layers() -> (r: CollisionLayers)
    ensures
        r.memberships@ == seq![CollisionTag::Player, CollisionTag::Entity],
        r.filters@ == seq![CollisionTag::Solid, CollisionTag::Enemy, CollisionTag::Collectable],
{
    CollisionLayers {
        memberships: tags2(CollisionTag::Player, CollisionTag::Entity),
        filters: tags3(CollisionTag::Solid, CollisionTag::Enemy, CollisionTag::Collectable),
    }
}

/// An enemy is an enemy entity; it meets solids, the player, projectiles and
/// other enemies.
pub fn enemy_layers() -> (r: CollisionLayers)
    ensures
        r.memberships@ == seq![CollisionTag::Enemy, CollisionTag::Entity],
        r.filters@ == seq![
            CollisionTag::Solid,
            CollisionTag::Player,
            CollisionTag::Bullet,
            CollisionTag::Enemy,
        ],
{
    let mut filters = tags3(CollisionTag::Solid, CollisionTag::Player, CollisionTag::Bullet);
    filters.push(CollisionTag::Enemy);
    proof {
        assert(filters@ =~= seq![
            CollisionTag::Solid,
            CollisionTag::Player,
            CollisionTag::Bullet,
            CollisionTag::Enemy,
        ]);
    }
    CollisionLayers { memberships: tags2(CollisionTag::Enemy, CollisionTag::Entity), filters }
}

/// A flying projectile is a damaging entity that meets solids and enemies; a
/// collectible one only belongs to the collectible category and meets its
/// spawner as well.
pub fn bullet_layers(bullet: &Bullet) -> (r: CollisionLayers)
    ensures
        bullet.is_flying() ==> r.memberships@ == seq![CollisionTag::Bullet, CollisionTag::Entity]
            && r.filters@ == seq![CollisionTag::Solid, CollisionTag::Enemy],
        !bullet.is_flying() ==> r.memberships@ == seq![CollisionTag::Collectable] && r.filters@
            == seq![CollisionTag::Solid, CollisionTag::Enemy, CollisionTag::Player],
{
    if bullet.is_flying_exec() {
        CollisionLayers {
            memberships: tags2(CollisionTag::Bullet, CollisionTag::Entity),
            filters: tags2(CollisionTag::Solid, CollisionTag::Enemy),
        }
    } else {
        let mut memberships: Vec<CollisionTag> = Vec::new();
        memberships.push(CollisionTag::Collectable);
        proof {
            assert(memberships@ =~= seq![CollisionTag::Collectable]);
        }
        CollisionLayers {
            memberships,
            filters: tags3(CollisionTag::Solid, CollisionTag::Enemy, CollisionTag::Player),
        }
    }
}

} // verus!
