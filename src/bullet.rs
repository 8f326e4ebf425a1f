use vstd::prelude::*;
use crate::direction::{direction_vec, opposite_of, Direction};
use crate::enemy::Pose;
use crate::geometry::{add_scaled, pushed, Vec2i};
use crate::player::Player;
use crate::timer::Countdown;

verus! {

/// Tuning of the projectile.
#[derive(PartialEq, Eq, Structural, Clone, Copy, Debug)]
pub struct BulletSettings {
    /// Distance from the spawner at which a projectile appears, in world units.
    pub spawn_offset: u32,
    /// Launch speed, in world units per second.
    pub speed: u32,
    /// Flight time before the projectile turns collectible.
    pub duration_ms: u64,
    /// Linear damping a collectible projectile drifts to rest with.
    pub velocity_damping: u32,
    /// Recoil speed given to the spawner, opposite to the aim.
    pub player_knockback: u32,
}

impl Default for BulletSettings {
    fn default() -> (r: Self)
        ensures
            r.spawn_offset == 8,
            r.speed == 200,
            r.duration_ms == 500,
            r.velocity_damping == 2,
            r.player_knockback == 400,
    {
        BulletSettings {
            spawn_offset: 8,
            speed: 200,
            duration_ms: 500,
            velocity_damping: 2,
            player_knockback: 400,
        }
    }
}

/// The projectile's lifecycle before it is collected.
#[derive(PartialEq, Eq, Structural, Clone, Copy, Debug)]
pub enum BulletPhase {
    /// Damages enemies until the flight countdown finishes.
    Flying(Countdown),
    /// Inert; its spawner picks it up on contact.
    Collectible,
}

/// What a projectile collides as.
#[derive(PartialEq, Eq, Structural, Clone, Copy, Debug)]
pub enum CollisionClass {
    /// Hits solids and enemies.
    Damaging,
    /// Hits solids, enemies and its spawner, which collects it.
    Collectible,
}

/// The player's projectile.
#[derive(PartialEq, Eq, Structural, Clone, Copy, Debug)]
pub struct Bullet {
    pub position: Vec2i,
    pub velocity: Vec2i,
    pub phase: BulletPhase,
    /// Zero while flying.
    pub linear_damping: u32,
}

impl Bullet {
    pub open spec fn wf(self) -> bool {
        &&& self.position.wf()
        &&& self.velocity.wf()
        &&& match self.phase {
            BulletPhase::Flying(c) => c.wf(),
            BulletPhase::Collectible => true,
        }
    }

    pub open spec fn is_flying(self) -> bool {
        self.phase is Flying
    }

    pub fn collision_class(&self) -> (r: CollisionClass)
        ensures
            r == (if self.is_flying() {
                CollisionClass::Damaging
            } else {
                CollisionClass::Collectible
            }),
    {
        match self.phase {
            BulletPhase::Flying(_) => CollisionClass::Damaging,
            BulletPhase::Collectible => CollisionClass::Collectible,
        }
    }

    pub fn pose(&self) -> (r: Pose)
        ensures
            r == (if self.is_flying() {
                Pose::Fly
            } else {
                Pose::Idle
            }),
    {
        match self.phase {
            BulletPhase::Flying(_) => Pose::Fly,
            BulletPhase::Collectible => Pose::Idle,
        }
    }
}

/// The projectile a spawner aiming along `d` launches.
pub open spec fn launched(p: Player, d: Direction, s: BulletSettings) -> Bullet {
    Bullet {
        position: pushed(p.position, direction_vec(d), s.spawn_offset as int, 1),
        velocity: pushed(Vec2i { x: 0, y: 0 }, direction_vec(d), s.speed as int, 1),
        phase: BulletPhase::Flying(Countdown { duration_ms: s.duration_ms, elapsed_ms: 0, finished: false }),
        linear_damping: 0,
    }
}

/// Firing: a spawner holding its projectile and aiming somewhere launches it,
/// recoils opposite to its aim and no longer holds a projectile. Without the
/// projectile, or without an aim, nothing happens.
pub open spec fn fired(p: Player, s: BulletSettings) -> (Player, Option<Bullet>) {
    if p.bullet_available {
        match p.aim {
            Some(d) => (
                Player {
                    velocity: pushed(p.velocity, direction_vec(opposite_of(d)), s.player_knockback as int, 1),
                    bullet_available: false,
                    ..p
                },
                Some(launched(p, d, s)),
            ),
            None => (p, None),
        }
    } else {
        (p, None)
    }
}

/// Fires the player's projectile on a fire input.
pub fn handle_spawn_bullet(player: &mut Player, settings: &BulletSettings) -> (r: Option<Bullet>)
    requires
        old(player).wf(),
    ensures
        final(player).wf(),
        (*final(player), r) == fired(*old(player), *settings),
        r matches Some(b) ==> b.wf(),
{
    if !player.bullet_available {
        return None;
    }
    match player.aim {
        Some(dir) => {
            let dir_vec = dir.vec();
            let position = add_scaled(player.position, dir_vec, settings.spawn_offset as u128, 1);
            let velocity = add_scaled(Vec2i::zero(), dir_vec, settings.speed as u128, 1);
            let back = dir.opposite().vec();
            player.velocity = add_scaled(player.velocity, back, settings.player_knockback as u128, 1);
            player.bullet_available = false;
            Some(
                Bullet {
                    position,
                    velocity,
                    phase: BulletPhase::Flying(Countdown::new(settings.duration_ms)),
                    linear_damping: 0,
                },
            )
        },
        None => None,
    }
}

/// The projectile after `delta_ms` more milliseconds of flight: once the
/// countdown finishes it turns collectible and takes on damping.
pub open spec fn bullet_ticked(b: Bullet, s: BulletSettings, delta_ms: int) -> Bullet {
    match b.phase {
        BulletPhase::Flying(c) => if c.ticked(delta_ms).finished {
            Bullet { phase: BulletPhase::Collectible, linear_damping: s.velocity_damping, ..b }
        } else {
            Bullet { phase: BulletPhase::Flying(c.ticked(delta_ms)), ..b }
        },
        BulletPhase::Collectible => b,
    }
}

/// Advances the flight countdown of a projectile.
pub fn handle_bullet_timers(bullet: &mut Bullet, settings: &BulletSettings, delta_ms: u64)
    requires
        old(bullet).wf(),
    ensures
        final(bullet).wf(),
        *final(bullet) == bullet_ticked(*old(bullet), *settings, delta_ms as int),
{
    match bullet.phase {
        BulletPhase::Flying(c) => {
            let mut c = c;
            c.tick(delta_ms);
            if c.is_finished() {
                bullet.phase = BulletPhase::Collectible;
                bullet.linear_damping = settings.velocity_damping;
            } else {
                bullet.phase = BulletPhase::Flying(c);
            }
        },
        BulletPhase::Collectible => {},
    }
}

/// Collection: a collectible projectile touching a spawner that is missing
/// it is destroyed, and the spawner may fire again.
pub open spec fn collected(p: Player, b: Option<Bullet>) -> (Player, Option<Bullet>) {
    match b {
        Some(bullet) => if !bullet.is_flying() && !p.bullet_available {
            (Player { bullet_available: true, ..p }, None)
        } else {
            (p, b)
        },
        None => (p, b),
    }
}

/// Resolves the projectile touching the player.
pub fn handle_collect_bullet(player: &mut Player, bullet: &mut Option<Bullet>)
    ensures
        (*final(player), *final(bullet)) == collected(*old(player), *old(bullet)),
{
    let collect = match bullet {
        Some(b) => !b.is_flying_exec() && !player.bullet_available,
        None => false,
    };
    if collect {
        *bullet = None;
        player.bullet_available = true;
    }
}

impl Bullet {
    pub fn is_flying_exec(&self) -> (r: bool)
        ensures
            r == self.is_flying(),
    {
        match self.phase {
            BulletPhase::Flying(_) => true,
            BulletPhase::Collectible => false,
        }
    }
}

/// A spawner without its projectile never fires; a successful shot leaves
/// the spawner unable to fire again until the projectile is collected; a
/// flying projectile cannot be collected; collecting a collectible one
/// re-arms the spawner, which can then fire again.
pub proof fn lemma_single_outstanding(p: Player, s: BulletSettings, b: Bullet)
    ensures
        !p.bullet_available ==> fired(p, s) == (p, None::<Bullet>),
        fired(p, s).1 is Some ==> {
            &&& !fired(p, s).0.bullet_available
            &&& fired(fired(p, s).0, s).1 is None
        },
        b.is_flying() ==> collected(p, Some(b)) == (p, Some(b)),
        !b.is_flying() && !p.bullet_available ==> {
            &&& collected(p, Some(b)).0.bullet_available
            &&& collected(p, Some(b)).1 is None
            &&& (p.aim is Some ==> fired(collected(p, Some(b)).0, s).1 is Some)
        },
{
}

} // verus!
