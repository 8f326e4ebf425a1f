use vstd::prelude::*;
use crate::geometry::{
    add_scaled, displacement, distance_squared, normalize_or_zero, pushed, sq_len, unit_of, Vec2i,
};
use crate::health::{Health, LifeStatus, Scale};
use crate::timer::Countdown;

verus! {

/// The enemy archetypes: a common fast and fragile one, and a rare slow and
/// tanky one worth more.
#[derive(PartialEq, Eq, Structural, Clone, Copy, Debug)]
pub enum EnemyVariant {
    Basic,
    Bigger,
}

/// Fixed stats of an enemy variant.
#[derive(PartialEq, Eq, Structural, Clone, Copy, Debug)]
pub struct EnemySettings {
    /// Pursuit acceleration, in world units per second squared.
    pub speed: u32,
    pub stun_duration_ms: u64,
    /// Speed given to the player when this enemy touches it.
    pub knockback_strength: u32,
    /// Speed this enemy is pushed back with when a projectile hits it.
    pub knockback_strength_bullet: u32,
    pub score_worth: u32,
}

/// What a variant sets on an enemy: its stats, its size and its hit points.
#[derive(PartialEq, Eq, Structural, Clone, Copy, Debug)]
pub struct EnemyVariantBundle {
    pub settings: EnemySettings,
    pub scale: Scale,
    pub health: Health,
}

pub open spec fn variant_bundle(variant: EnemyVariant) -> EnemyVariantBundle {
    match variant {
        EnemyVariant::Basic => EnemyVariantBundle {
            settings: EnemySettings {
                speed: 400,
                stun_duration_ms: 2000,
                knockback_strength: 300,
                knockback_strength_bullet: 800,
                score_worth: 10,
            },
            scale: Scale { x: 1000, y: 1000 },
            health: Health(1),
        },
        EnemyVariant::Bigger => EnemyVariantBundle {
            settings: EnemySettings {
                speed: 200,
                stun_duration_ms: 4000,
                knockback_strength: 600,
                knockback_strength_bullet: 1200,
                score_worth: 100,
            },
            scale: Scale { x: 2000, y: 2000 },
            health: Health(3),
        },
    }
}

impl EnemyVariantBundle {
    pub fn from_variant(variant: EnemyVariant) -> (r: Self)
        ensures
            r == variant_bundle(variant),
    {
        match variant {
            EnemyVariant::Basic => EnemyVariantBundle {
                settings: EnemySettings {
                    speed: 400,
                    stun_duration_ms: 2000,
                    knockback_strength: 300,
                    knockback_strength_bullet: 800,
                    score_worth: 10,
                },
                scale: Scale { x: 1000, y: 1000 },
                health: Health(1),
            },
            EnemyVariant::Bigger => EnemyVariantBundle {
                settings: EnemySettings {
                    speed: 200,
                    stun_duration_ms: 4000,
                    knockback_strength: 600,
                    knockback_strength_bullet: 1200,
                    score_worth: 100,
                },
                scale: Scale { x: 2000, y: 2000 },
                health: Health(3),
            },
        }
    }
}

/// The pose an animated entity shows.
#[derive(PartialEq, Eq, Structural, Clone, Copy, Debug)]
pub enum Pose {
    Idle,
    Walk,
    Stun,
    Fly,
}

impl Pose {
    pub fn name(self) -> (r: &'static str)
        ensures
            r@ == (match self {
                Pose::Idle => "idle"@,
                Pose::Walk => "walk"@,
                Pose::Stun => "stun"@,
                Pose::Fly => "fly"@,
            }),
    {
        proof {
            reveal_strlit("idle");
            reveal_strlit("walk");
            reveal_strlit("stun");
            reveal_strlit("fly");
        }
        match self {
            Pose::Idle => "idle",
            Pose::Walk => "walk",
            Pose::Stun => "stun",
            Pose::Fly => "fly",
        }
    }
}

/// The stun state machine of one enemy.
#[derive(PartialEq, Eq, Structural, Clone, Copy, Debug)]
pub enum StunState {
    Active,
    /// Incapacitated until the countdown finishes.
    Stunned(Countdown),
}

/// One enemy of the arena.
#[derive(PartialEq, Eq, Structural, Clone, Copy, Debug)]
pub struct Enemy {
    pub variant: EnemyVariant,
    pub settings: EnemySettings,
    pub health: Health,
    pub status: LifeStatus,
    pub stun: StunState,
    pub position: Vec2i,
    pub velocity: Vec2i,
    pub scale: Scale,
}

impl Enemy {
    pub open spec fn wf(self) -> bool {
        &&& self.position.wf()
        &&& self.velocity.wf()
        &&& match self.stun {
            StunState::Stunned(c) => c.wf(),
            StunState::Active => true,
        }
    }

    pub open spec fn is_stunned(self) -> bool {
        self.stun is Stunned
    }

    /// Alive and not stunned: the enemies that pursue and hurt the player.
    pub open spec fn is_active(self) -> bool {
        self.status == LifeStatus::Alive && !self.is_stunned()
    }

    /// A fresh, active enemy of `variant` at rest at `position`, with the
    /// stats, hit points and size of its variant.
    pub open spec fn spawn_spec(variant: EnemyVariant, position: Vec2i) -> Enemy {
        Enemy {
            variant,
            settings: variant_bundle(variant).settings,
            health: variant_bundle(variant).health,
            status: LifeStatus::Alive,
            stun: StunState::Active,
            position,
            velocity: Vec2i { x: 0, y: 0 },
            scale: variant_bundle(variant).scale,
        }
    }

    pub fn spawn(variant: EnemyVariant, position: Vec2i) -> (r: Self)
        requires
            position.wf(),
        ensures
            r.wf(),
            r == Enemy::spawn_spec(variant, position),
    {
        let bundle = EnemyVariantBundle::from_variant(variant);
        Enemy {
            variant,
            settings: bundle.settings,
            health: bundle.health,
            status: LifeStatus::Alive,
            stun: StunState::Active,
            position,
            velocity: Vec2i::zero(),
            scale: bundle.scale,
        }
    }

    pub fn is_stunned_exec(&self) -> (r: bool)
        ensures
            r == self.is_stunned(),
    {
        match self.stun {
            StunState::Stunned(_) => true,
            StunState::Active => false,
        }
    }

    pub fn pose(&self) -> (r: Pose)
        ensures
            r == (if self.is_stunned() {
                Pose::Stun
            } else {
                Pose::Idle
            }),
    {
        if self.is_stunned_exec() {
            Pose::Stun
        } else {
            Pose::Idle
        }
    }
}

/// The enemy after its stun timer advanced by `delta_ms`: a stun whose
/// countdown finishes ends.
pub open spec fn stun_ticked(e: Enemy, delta_ms: int) -> Enemy {
    match e.stun {
        StunState::Active => e,
        StunState::Stunned(c) => if c.ticked(delta_ms).finished {
            Enemy { stun: StunState::Active, ..e }
        } else {
            Enemy { stun: StunState::Stunned(c.ticked(delta_ms)), ..e }
        },
    }
}

/// Advances the stun countdown of an enemy and returns it to active once the
/// countdown finishes.
pub fn handle_enemy_stun(enemy: &mut Enemy, delta_ms: u64)
    requires
        old(enemy).wf(),
    ensures
        final(enemy).wf(),
        *final(enemy) == stun_ticked(*old(enemy), delta_ms as int),
{
    match enemy.stun {
        StunState::Active => {},
        StunState::Stunned(c) => {
            let mut c = c;
            c.tick(delta_ms);
            if c.is_finished() {
                enemy.stun = StunState::Active;
            } else {
                enemy.stun = StunState::Stunned(c);
            }
        },
    }
}

/// The index of the goal nearest to `from` among the first `n` goals by
/// squared distance; on a tie the earlier goal is kept.
pub open spec fn nearest_in(from: Vec2i, goals: Seq<Vec2i>, n: int) -> Option<int>
    decreases n,
{
    if n <= 0 {
        None
    } else {
        match nearest_in(from, goals, n - 1) {
            None => Some(n - 1),
            Some(best) => if dist_sq(from, goals[n - 1]) < dist_sq(from, goals[best]) {
                Some(n - 1)
            } else {
                Some(best)
            },
        }
    }
}

pub open spec fn dist_sq(a: Vec2i, b: Vec2i) -> int {
    sq_len(a.x - b.x, a.y - b.y)
}

pub open spec fn all_wf(points: Seq<Vec2i>) -> bool {
    forall|i: int| 0 <= i < points.len() ==> #[trigger] points[i].wf()
}

/// The nearest of the first `n` goals is one of them, no farther than any
/// of them, and strictly nearer than every goal before it.
pub proof fn lemma_nearest_in(from: Vec2i, goals: Seq<Vec2i>, n: int)
    requires
        0 <= n <= goals.len(),
    ensures
        (n == 0) == nearest_in(from, goals, n).is_none(),
        nearest_in(from, goals, n) matches Some(i) ==> {
            &&& 0 <= i < n
            &&& forall|j: int| 0 <= j < n ==> dist_sq(from, goals[i]) <= dist_sq(from, #[trigger] goals[j])
            &&& forall|j: int| 0 <= j < i ==> dist_sq(from, goals[i]) < dist_sq(from, #[trigger] goals[j])
        },
    decreases n,
{
    if n > 0 {
        lemma_nearest_in(from, goals, n - 1);
    }
}

/// Index of the goal nearest to `from`, the first one on a tie; `None`
/// without goals.
pub fn nearest_goal(from: Vec2i, goals: &Vec<Vec2i>) -> (r: Option<usize>)
    requires
        from.wf(),
        all_wf(goals@),
    ensures
        r matches Some(i) ==> nearest_in(from, goals@, goals@.len() as int) == Some(i as int),
        r is None ==> nearest_in(from, goals@, goals@.len() as int) is None,
{
    let mut best: Option<usize> = None;
    let mut best_dist: u128 = 0;
    let mut i: usize = 0;
    while i < goals.len()
        invariant
            0 <= i <= goals@.len(),
            from.wf(),
            all_wf(goals@),
            best matches Some(b) ==> nearest_in(from, goals@, i as int) == Some(b as int)
                && best_dist == dist_sq(from, goals@[b as int]) && b < i,
            best is None ==> nearest_in(from, goals@, i as int) is None,
        decreases goals@.len() - i,
    {
        let goal = goals[i];
        assert(goals@[i as int].wf());
        let d = distance_squared(from, goal);
        match best {
            None => {
                best = Some(i);
                best_dist = d;
            },
            Some(_) => {
                if d < best_dist {
                    best = Some(i);
                    best_dist = d;
                }
            },
        }
        i = i + 1;
    }
    best
}

/// The velocity an enemy at `from` with velocity `v` takes when steering
/// toward `goal` for `delta_ms` milliseconds at acceleration `speed`.
pub open spec fn pursuit_velocity(v: Vec2i, from: Vec2i, goal: Vec2i, speed: int, delta_ms: int) -> Vec2i {
    pushed(v, unit_of(goal.x - from.x, goal.y - from.y), speed * delta_ms, 1000)
}

/// One pursuit step: an active enemy accelerates toward the nearest goal;
/// any other enemy, or any enemy when there is no goal, is left alone.
pub open spec fn pursued(e: Enemy, goals: Seq<Vec2i>, delta_ms: int) -> Enemy {
    if e.is_active() {
        match nearest_in(e.position, goals, goals.len() as int) {
            Some(i) => Enemy {
                velocity: pursuit_velocity(
                    e.velocity,
                    e.position,
                    goals[i],
                    e.settings.speed as int,
                    delta_ms,
                ),
                ..e
            },
            None => e,
        }
    } else {
        e
    }
}

/// Steers one enemy toward its nearest goal.
pub fn steer_enemy(enemy: &mut Enemy, goals: &Vec<Vec2i>, delta_ms: u64)
    requires
        old(enemy).wf(),
        all_wf(goals@),
    ensures
        final(enemy).wf(),
        *final(enemy) == pursued(*old(enemy), goals@, delta_ms as int),
{
    if enemy.status != LifeStatus::Alive || enemy.is_stunned_exec() {
        return ;
    }
    proof {
        lemma_nearest_in(enemy.position, goals@, goals@.len() as int);
    }
    match nearest_goal(enemy.position, goals) {
        Some(i) => {
            let goal = goals[i];
            assert(goals@[i as int].wf());
            let direction = normalize_or_zero(displacement(goal, enemy.position));
            let speed: u128 = enemy.settings.speed as u128;
            let dt: u128 = delta_ms as u128;
            proof {
                assert(speed * dt <= 0x1_0000_0000_0000_0000_0000_0000) by (nonlinear_arith)
                    requires
                        speed <= u32::MAX,
                        dt <= u64::MAX,
                ;
            }
            let num: u128 = speed * dt;
            enemy.velocity = add_scaled(enemy.velocity, direction, num, 1000);
        },
        None => {},
    }
}

/// Pursuit for every enemy of the arena, each independently.
pub fn run_enemy_behavior(enemies: &mut Vec<Enemy>, goals: &Vec<Vec2i>, delta_ms: u64)
    requires
        forall|i: int| 0 <= i < old(enemies)@.len() ==> (#[trigger] old(enemies)@[i]).wf(),
        all_wf(goals@),
    ensures
        final(enemies)@.len() == old(enemies)@.len(),
        forall|i: int|
            0 <= i < final(enemies)@.len() ==> #[trigger] final(enemies)@[i] == pursued(
                old(enemies)@[i],
                goals@,
                delta_ms as int,
            ),
        forall|i: int| 0 <= i < final(enemies)@.len() ==> (#[trigger] final(enemies)@[i]).wf(),
{
    let ghost start = enemies@;
    let mut i: usize = 0;
    while i < enemies.len()
        invariant
            0 <= i <= enemies@.len(),
            enemies@.len() == start.len(),
            all_wf(goals@),
            forall|j: int| 0 <= j < start.len() ==> (#[trigger] start[j]).wf(),
            forall|j: int| 0 <= j < i ==> #[trigger] enemies@[j] == pursued(start[j], goals@, delta_ms as int),
            forall|j: int| 0 <= j < i ==> (#[trigger] enemies@[j]).wf(),
            forall|j: int| i <= j < enemies@.len() ==> #[trigger] enemies@[j] == start[j],
        decreases enemies@.len() - i,
    {
        let mut e = enemies[i];
        steer_enemy(&mut e, goals, delta_ms);
        enemies.set(i, e);
        i = i + 1;
    }
}

} // verus!
