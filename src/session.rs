use vstd::prelude::*;
use crate::bullet::{
    collected, fired, handle_bullet_timers, handle_collect_bullet, handle_spawn_bullet, Bullet,
    BulletSettings,
};
use crate::combat::{enemy_hit, handle_bullet_enemy_collision, handle_enemy_collision, player_hit};
use crate::enemy::{handle_enemy_stun, run_enemy_behavior, Enemy, EnemyVariant};
use crate::geometry::Vec2i;
use crate::health::{
    damaged, just_died, should_despawn, shrink_dead, status_for, sync_alive_dead, LifeStatus,
};
use crate::player::Player;
use crate::score::Score;
use crate::survival_timer::{start_timer, tick_timer, SurvivalTimer};
use crate::waves::{handle_waves_manager, is_wave, waves_managers, Wave, WavesManager};

verus! {

/// A participant of a collision, as the physics layer reports it.
#[derive(PartialEq, Eq, Structural, Clone, Copy, Debug)]
pub enum Body {
    Player,
    /// The enemy at this index of the session's enemies.
    Enemy(usize),
    Bullet,
    /// Walls and anything else without a rule.
    Solid,
}

/// Two bodies that started touching this tick, in no particular order.
#[derive(PartialEq, Eq, Structural, Clone, Copy, Debug)]
pub struct CollisionEvent {
    pub a: Body,
    pub b: Body,
}

/// The rule a collision falls under, whichever order its bodies came in.
#[derive(PartialEq, Eq, Structural, Clone, Copy, Debug)]
pub enum Contact {
    PlayerEnemy(usize),
    BulletEnemy(usize),
    BulletPlayer,
    Ignored,
}

pub open spec fn contact_of(a: Body, b: Body) -> Contact {
    match (a, b) {
        (Body::Player, Body::Enemy(i)) => Contact::PlayerEnemy(i),
        (Body::Enemy(i), Body::Player) => Contact::PlayerEnemy(i),
        (Body::Bullet, Body::Enemy(i)) => Contact::BulletEnemy(i),
        (Body::Enemy(i), Body::Bullet) => Contact::BulletEnemy(i),
        (Body::Bullet, Body::Player) => Contact::BulletPlayer,
        (Body::Player, Body::Bullet) => Contact::BulletPlayer,
        _ => Contact::Ignored,
    }
}

/// Classifies a collision by the roles of both bodies.
pub fn classify(event: CollisionEvent) -> (r: Contact)
    ensures
        r == contact_of(event.a, event.b),
{
    match (event.a, event.b) {
        (Body::Player, Body::Enemy(i)) => Contact::PlayerEnemy(i),
        (Body::Enemy(i), Body::Player) => Contact::PlayerEnemy(i),
        (Body::Bullet, Body::Enemy(i)) => Contact::BulletEnemy(i),
        (Body::Enemy(i), Body::Bullet) => Contact::BulletEnemy(i),
        (Body::Bullet, Body::Player) => Contact::BulletPlayer,
        (Body::Player, Body::Bullet) => Contact::BulletPlayer,
        _ => Contact::Ignored,
    }
}

/// What a tick hands to the presentation layer.
pub struct TickOutcome {
    /// Waves to place around the player.
    pub waves: Vec<Wave>,
    /// The player died this tick: the session is over.
    pub player_died: bool,
}

/// The state of one gameplay session.
pub struct Session {
    pub player: Player,
    pub enemies: Vec<Enemy>,
    /// The player's projectile while it is out.
    pub bullet: Option<Bullet>,
    pub score: Score,
    pub timer: SurvivalTimer,
    pub waves: Vec<WavesManager>,
    pub bullet_settings: BulletSettings,
    pub game_over: bool,
}

/// After this tick's reconciliation: status from hit points, and dead
/// enemies shrink.
pub open spec fn reconciled(e: Enemy, delta_ms: int) -> Enemy {
    let status = status_for(e.health.0 as int);
    if status == LifeStatus::Dead {
        Enemy {
            status,
            scale: crate::health::Scale {
                x: damaged(e.scale.x as int, delta_ms) as u64,
                y: damaged(e.scale.y as int, delta_ms) as u64,
            },
            ..e
        }
    } else {
        Enemy { status, ..e }
    }
}

/// A dead enemy whose scale has reached zero on an axis is removed.
pub open spec fn kept(e: Enemy) -> bool {
    !(e.status == LifeStatus::Dead && (e.scale.x == 0 || e.scale.y == 0))
}

/// The session as plain values.
pub struct SessionView {
    pub player: Player,
    pub enemies: Seq<Enemy>,
    pub bullet: Option<Bullet>,
    pub score: int,
    pub timer: crate::timer::Stopwatch,
    pub waves: Seq<WavesManager>,
    pub bullet_settings: BulletSettings,
    pub game_over: bool,
}

impl View for Session {
    type V = SessionView;

    open spec fn view(&self) -> SessionView {
        SessionView {
            player: self.player,
            enemies: self.enemies@,
            bullet: self.bullet,
            score: self.score.0 as int,
            timer: self.timer.0,
            waves: self.waves@,
            bullet_settings: self.bullet_settings,
            game_over: self.game_over,
        }
    }
}

/// The fire input: launches the projectile when it is not out.
pub open spec fn fire_step(v: SessionView) -> SessionView {
    if v.bullet.is_none() {
        let f = fired(v.player, v.bullet_settings);
        SessionView { player: f.0, bullet: f.1, ..v }
    } else {
        v
    }
}

/// One collision under its rule; a collision naming a missing enemy or
/// projectile, or falling under no rule, changes nothing.
pub open spec fn collision_step(v: SessionView, event: CollisionEvent) -> SessionView {
    match contact_of(event.a, event.b) {
        Contact::PlayerEnemy(i) => if i < v.enemies.len() {
            SessionView { player: player_hit(v.player, v.enemies[i as int]), ..v }
        } else {
            v
        },
        Contact::BulletEnemy(i) => match v.bullet {
            Some(b) => if i < v.enemies.len() {
                let hit = enemy_hit(b, v.enemies[i as int], v.score);
                SessionView { enemies: v.enemies.update(i as int, hit.0), score: hit.1, ..v }
            } else {
                v
            },
            None => v,
        },
        Contact::BulletPlayer => {
            let c = collected(v.player, v.bullet);
            SessionView { player: c.0, bullet: c.1, ..v }
        },
        Contact::Ignored => v,
    }
}

/// The first `n` collisions of a tick, in order.
pub open spec fn collisions_step(v: SessionView, events: Seq<CollisionEvent>, n: int) -> SessionView
    decreases n,
{
    if n <= 0 {
        v
    } else {
        collision_step(collisions_step(v, events, n - 1), events[n - 1])
    }
}

/// Every enemy pursues the live player.
pub open spec fn pursuit_step(v: SessionView, delta_ms: int) -> SessionView {
    SessionView {
        enemies: v.enemies.map_values(|e: Enemy| crate::enemy::pursued(e, goals_of(v.player), delta_ms)),
        ..v
    }
}

/// The survival stopwatch after `delta_ms`, saturating.
pub open spec fn stopwatch_ticked(w: crate::timer::Stopwatch, delta_ms: int) -> crate::timer::Stopwatch {
    if w.paused {
        w
    } else if w.elapsed_ms + delta_ms > u64::MAX {
        crate::timer::Stopwatch { elapsed_ms: u64::MAX, ..w }
    } else {
        crate::timer::Stopwatch { elapsed_ms: (w.elapsed_ms + delta_ms) as u64, ..w }
    }
}

/// Stun countdowns, the flight countdown and the survival timer advance.
pub open spec fn timers_step(v: SessionView, delta_ms: int) -> SessionView {
    SessionView {
        enemies: v.enemies.map_values(|e: Enemy| crate::enemy::stun_ticked(e, delta_ms)),
        bullet: match v.bullet {
            Some(b) => Some(crate::bullet::bullet_ticked(b, v.bullet_settings, delta_ms)),
            None => None,
        },
        timer: stopwatch_ticked(v.timer, delta_ms),
        ..v
    }
}

/// A track caught up with `secs` seconds of survival.
pub open spec fn track_caught_up(m: WavesManager, secs: int) -> WavesManager {
    WavesManager {
        wave_counter: crate::waves::caught_up(m.wave_counter as int, m.settings, secs) as u32,
        ..m
    }
}

/// The score after the first `n` tracks caught up with `secs`, in order.
pub open spec fn score_after_tracks(score: int, tracks: Seq<WavesManager>, secs: int, n: int) -> int
    decreases n,
{
    if n <= 0 {
        score
    } else {
        let m = tracks[n - 1];
        crate::waves::score_after_waves(
            score_after_tracks(score, tracks, secs, n - 1),
            m.settings.score_mult as int,
            m.wave_counter as int,
            crate::waves::caught_up(m.wave_counter as int, m.settings, secs) - m.wave_counter,
        )
    }
}

/// Waves a track is behind by after `secs` seconds of survival.
pub open spec fn deficit(m: WavesManager, secs: int) -> int {
    crate::waves::caught_up(m.wave_counter as int, m.settings, secs) - m.wave_counter
}

/// Waves the first `n` tracks are behind by, together.
pub open spec fn waves_total(tracks: Seq<WavesManager>, secs: int, n: int) -> int
    decreases n,
{
    if n <= 0 {
        0
    } else {
        waves_total(tracks, secs, n - 1) + deficit(tracks[n - 1], secs)
    }
}

pub proof fn lemma_waves_total_grows(tracks: Seq<WavesManager>, secs: int, a: int, b: int)
    requires
        0 <= a <= b,
    ensures
        waves_total(tracks, secs, a) <= waves_total(tracks, secs, b),
    decreases b - a,
{
    if a < b {
        lemma_waves_total_grows(tracks, secs, a, b - 1);
    }
}

/// The waves a catch-up of session `v` returns: track by track, each
/// track's missed waves in order of index, all around the player.
pub open spec fn waves_emitted(v: SessionView, r: Seq<Wave>) -> bool {
    let secs = whole_secs(v.timer.elapsed_ms as int);
    &&& r.len() == waves_total(v.waves, secs, v.waves.len() as int)
    &&& forall|t: int, j: int|
        0 <= t < v.waves.len() && 0 <= j < deficit(v.waves[t], secs) ==> is_wave(
            #[trigger] r[waves_total(v.waves, secs, t) + j],
            v.waves[t].settings,
            v.waves[t].wave_counter + j,
            v.player.position,
        )
}

/// Every track catches up with the survival time, crediting the score.
pub open spec fn waves_step(v: SessionView) -> SessionView {
    let secs = whole_secs(v.timer.elapsed_ms as int);
    SessionView {
        waves: v.waves.map_values(|m: WavesManager| track_caught_up(m, secs)),
        score: score_after_tracks(v.score, v.waves, secs, v.waves.len() as int),
        ..v
    }
}

/// Statuses follow hit points, dead enemies shrink and vanish, and the
/// player's death ends the session.
pub open spec fn lifecycle_step(v: SessionView, delta_ms: int) -> SessionView {
    let status = status_for(v.player.health.0 as int);
    SessionView {
        player: Player { status, ..v.player },
        enemies: v.enemies.map_values(|e: Enemy| reconciled(e, delta_ms)).filter(|e: Enemy| kept(e)),
        game_over: v.game_over || (v.player.status == LifeStatus::Alive && status == LifeStatus::Dead),
        ..v
    }
}

/// A tick up to wave escalation: the fire input, the collisions in order,
/// pursuit and the timers.
pub open spec fn before_waves(
    v: SessionView,
    fire_pressed: bool,
    events: Seq<CollisionEvent>,
    delta_ms: int,
) -> SessionView {
    let fired_v = if fire_pressed {
        fire_step(v)
    } else {
        v
    };
    let hit = collisions_step(fired_v, events, events.len() as int);
    timers_step(pursuit_step(hit, delta_ms), delta_ms)
}

/// A whole tick: then wave escalation and life and death.
pub open spec fn tick_step(
    v: SessionView,
    fire_pressed: bool,
    events: Seq<CollisionEvent>,
    delta_ms: int,
) -> SessionView {
    lifecycle_step(waves_step(before_waves(v, fire_pressed, events, delta_ms)), delta_ms)
}

impl Session {
    /// Well-formed entities; the projectile is out exactly when the spawner
    /// may not fire; every wave track has valid settings.
    pub open spec fn wf(self) -> bool {
        &&& self.player.wf()
        &&& forall|i: int| 0 <= i < self.enemies@.len() ==> (#[trigger] self.enemies@[i]).wf()
        &&& (self.bullet matches Some(b) ==> b.wf())
        &&& self.player.bullet_available <==> self.bullet.is_none()
        &&& forall|i: int| 0 <= i < self.waves@.len() ==> (#[trigger] self.waves@[i]).settings.wf()
    }

    /// A session entered with the player at `player_pos`: no enemies, no
    /// projectile out, score and survival time at zero and running, and the
    /// two wave tracks at their start.
    pub fn new(player_pos: Vec2i) -> (r: Self)
        requires
            player_pos.wf(),
        ensures
            r.wf(),
            r.player == Player::new_spec(player_pos),
            r.enemies@.len() == 0,
            r.bullet.is_none(),
            r.score.0 == 0,
            r.timer.0.elapsed_ms == 0,
            !r.timer.0.paused,
            r.waves@.len() == 2,
            forall|i: int| 0 <= i < 2 ==> (#[trigger] r.waves@[i]).wave_counter == 0,
            !r.game_over,
    {
        let mut timer = SurvivalTimer::new();
        start_timer(&mut timer);
        Session {
            player: Player::new(player_pos),
            enemies: Vec::new(),
            bullet: None,
            score: Score::new(),
            timer,
            waves: waves_managers(),
            bullet_settings: BulletSettings::default(),
            game_over: false,
        }
    }

    /// Adds an enemy of `variant` at `position`, as a wave places it.
    pub fn spawn_enemy(&mut self, variant: EnemyVariant, position: Vec2i)
        requires
            old(self).wf(),
            position.wf(),
        ensures
            final(self).wf(),
            final(self)@ == (SessionView {
                enemies: old(self)@.enemies.push(Enemy::spawn_spec(variant, position)),
                ..old(self)@
            }),
    {
        self.enemies.push(Enemy::spawn(variant, position));
    }

    /// Fires on a fire input; the projectile is launched only if the player
    /// holds it and aims somewhere.
    pub fn fire(&mut self)
        requires
            old(self).wf(),
        ensures
            final(self).wf(),
            final(self)@ == fire_step(old(self)@),
    {
        if self.bullet.is_none() {
            let settings = self.bullet_settings;
            self.bullet = handle_spawn_bullet(&mut self.player, &settings);
        }
    }

    /// Applies the rule of one collision.
    pub fn resolve_collision(&mut self, event: CollisionEvent)
        requires
            old(self).wf(),
        ensures
            final(self).wf(),
            final(self).score.0 >= old(self).score.0,
            final(self)@ == collision_step(old(self)@, event),
    {
        match classify(event) {
            Contact::PlayerEnemy(i) => {
                if i < self.enemies.len() {
                    let enemy = self.enemies[i];
                    handle_enemy_collision(&mut self.player, &enemy);
                }
            },
            Contact::BulletEnemy(i) => {
                if i < self.enemies.len() {
                    match self.bullet {
                        Some(b) => {
                            let mut enemy = self.enemies[i];
                            handle_bullet_enemy_collision(&b, &mut enemy, &mut self.score);
                            self.enemies.set(i, enemy);
                        },
                        None => {},
                    }
                }
            },
            Contact::BulletPlayer => {
                handle_collect_bullet(&mut self.player, &mut self.bullet);
            },
            Contact::Ignored => {},
        }
    }
}

impl Session {
    /// Enemy pursuit: every active enemy steers toward the player while the
    /// player is alive; with no live goal nobody steers.
    pub fn run_enemy_behavior(&mut self, delta_ms: u64)
        requires
            old(self).wf(),
        ensures
            final(self).wf(),
            final(self)@ == pursuit_step(old(self)@, delta_ms as int),
    {
        let mut goals: Vec<Vec2i> = Vec::new();
        if self.player.status == LifeStatus::Alive {
            goals.push(self.player.position);
        }
        proof {
            assert(goals@ =~= goals_of(self.player));
        }
        run_enemy_behavior(&mut self.enemies, &goals, delta_ms);
        proof {
            assert(self.enemies@ =~= old(self).enemies@.map_values(
                |e: Enemy| crate::enemy::pursued(e, goals_of(old(self).player), delta_ms as int),
            ));
        }
    }

    /// Advances the stun countdowns, the projectile's flight countdown and
    /// the survival timer.
    pub fn tick_timers(&mut self, delta_ms: u64)
        requires
            old(self).wf(),
        ensures
            final(self).wf(),
            final(self)@ == timers_step(old(self)@, delta_ms as int),
    {
        let ghost start = self.enemies@;
        let mut i: usize = 0;
        while i < self.enemies.len()
            invariant
                0 <= i <= self.enemies@.len(),
                self.enemies@.len() == start.len(),
                forall|j: int| 0 <= j < start.len() ==> (#[trigger] start[j]).wf(),
                forall|j: int|
                    0 <= j < i ==> #[trigger] self.enemies@[j] == crate::enemy::stun_ticked(
                        start[j],
                        delta_ms as int,
                    ),
                forall|j: int| 0 <= j < i ==> (#[trigger] self.enemies@[j]).wf(),
                forall|j: int| i <= j < self.enemies@.len() ==> #[trigger] self.enemies@[j] == start[j],
                self.player == old(self).player,
                self.bullet == old(self).bullet,
                self.score == old(self).score,
                self.waves@ == old(self).waves@,
                same_frame(*old(self), *self),
                old(self).wf(),
            decreases self.enemies@.len() - i,
        {
            let mut e = self.enemies[i];
            handle_enemy_stun(&mut e, delta_ms);
            self.enemies.set(i, e);
            i = i + 1;
        }
        match self.bullet {
            Some(b) => {
                let mut b = b;
                handle_bullet_timers(&mut b, &self.bullet_settings, delta_ms);
                self.bullet = Some(b);
            },
            None => {},
        }
        tick_timer(&mut self.timer, delta_ms);
        proof {
            assert(self.enemies@ =~= old(self).enemies@.map_values(
                |e: Enemy| crate::enemy::stun_ticked(e, delta_ms as int),
            ));
        }
    }

    /// Catches every wave track up with the survival time, crediting the
    /// score, and returns the waves to place, track by track.
    pub fn run_waves(&mut self) -> (r: Vec<Wave>)
        requires
            old(self).wf(),
        ensures
            final(self).wf(),
            final(self).score.0 >= old(self).score.0,
            final(self)@ == waves_step(old(self)@),
            waves_emitted(old(self)@, r@),
    {
        let secs_wide = self.timer.0.elapsed_secs();
        let secs: u32 = if secs_wide > u32::MAX as u64 {
            u32::MAX
        } else {
            secs_wide as u32
        };
        let ghost start = self.waves@;
        let mut all: Vec<Wave> = Vec::new();
        let mut i: usize = 0;
        while i < self.waves.len()
            invariant
                0 <= i <= self.waves@.len(),
                self.waves@.len() == start.len(),
                secs == whole_secs(self.timer.0.elapsed_ms as int),
                forall|j: int| 0 <= j < start.len() ==> (#[trigger] start[j]).settings.wf(),
                forall|j: int|
                    0 <= j < i ==> {
                        &&& (#[trigger] self.waves@[j]).settings == start[j].settings
                        &&& self.waves@[j].wave_counter == crate::waves::caught_up(
                            start[j].wave_counter as int,
                            start[j].settings,
                            secs as int,
                        )
                    },
                forall|j: int| i <= j < self.waves@.len() ==> #[trigger] self.waves@[j] == start[j],
                self.score.0 >= old(self).score.0,
                self.score.0 == score_after_tracks(old(self).score.0 as int, start, secs as int, i as int),
                start == old(self).waves@,
                self.player == old(self).player,
                self.enemies@ == old(self).enemies@,
                self.bullet == old(self).bullet,
                same_frame(*old(self), *self),
                all@.len() == waves_total(start, secs as int, i as int),
                forall|t: int, j: int|
                    0 <= t < i && 0 <= j < deficit(start[t], secs as int) ==> is_wave(
                        #[trigger] all@[waves_total(start, secs as int, t) + j],
                        start[t].settings,
                        start[t].wave_counter + j,
                        old(self).player.position,
                    ),
            decreases self.waves@.len() - i,
        {
            let mut manager = self.waves[i];
            let mut batch = handle_waves_manager(
                &mut manager,
                secs,
                &mut self.score,
                self.player.position,
            );
            self.waves.set(i, manager);
            let ghost before = all@;
            let ghost added = batch@;
            assert(added.len() == deficit(start[i as int], secs as int));
            assert(waves_total(start, secs as int, i + 1) == waves_total(start, secs as int, i as int)
                + deficit(start[i as int], secs as int));
            all.append(&mut batch);
            proof {
                assert(all@ == before + added);
                assert forall|t: int, j: int|
                    0 <= t < i + 1 && 0 <= j < deficit(start[t], secs as int) implies is_wave(
                        #[trigger] all@[waves_total(start, secs as int, t) + j],
                        start[t].settings,
                        start[t].wave_counter + j,
                        old(self).player.position,
                    ) by {
                    lemma_waves_total_grows(start, secs as int, 0, t);
                    assert(waves_total(start, secs as int, t + 1) == waves_total(start, secs as int, t)
                        + deficit(start[t], secs as int));
                    if t < i {
                        lemma_waves_total_grows(start, secs as int, t + 1, i as int);
                        assert(all@[waves_total(start, secs as int, t) + j] == before[waves_total(start, secs as int, t) + j]);
                    } else {
                        assert(all@[waves_total(start, secs as int, t) + j] == added[j]);
                    }
                }
            }
            i = i + 1;
        }
        proof {
            assert(self.waves@ =~= old(self).waves@.map_values(
                |m: WavesManager| track_caught_up(m, secs as int),
            ));
        }
        all
    }

    /// Retags every entity by its hit points, shrinks dead enemies and
    /// removes those that have shrunk away. Returns whether the player died
    /// this tick, which also ends the session.
    pub fn reconcile_lifecycle(&mut self, delta_ms: u64) -> (r: bool)
        requires
            old(self).wf(),
        ensures
            final(self).wf(),
            r == (old(self).player.status == LifeStatus::Alive && final(self).player.status
                == LifeStatus::Dead),
            final(self)@ == lifecycle_step(old(self)@, delta_ms as int),
    {
        let before = self.player.status;
        self.player.status = sync_alive_dead(self.player.status, &self.player.health);
        let died = just_died(before, self.player.status);
        if died {
            self.game_over = true;
        }
        let ghost start = self.enemies@;
        let ghost mapped = start.map_values(|e: Enemy| reconciled(e, delta_ms as int));
        let mut remaining: Vec<Enemy> = Vec::new();
        let mut i: usize = 0;
        while i < self.enemies.len()
            invariant
                0 <= i <= self.enemies@.len(),
                self.enemies@ == start,
                mapped == start.map_values(|e: Enemy| reconciled(e, delta_ms as int)),
                forall|j: int| 0 <= j < start.len() ==> (#[trigger] start[j]).wf(),
                remaining@ == mapped.take(i as int).filter(|e: Enemy| kept(e)),
                forall|j: int| 0 <= j < remaining@.len() ==> (#[trigger] remaining@[j]).wf(),
                self.timer == old(self).timer,
                self.bullet_settings == old(self).bullet_settings,
                self.waves@ == old(self).waves@,
                self.bullet == old(self).bullet,
                self.score == old(self).score,
                self.game_over == (old(self).game_over || died),
                self.player.position == old(self).player.position,
                self.player.velocity == old(self).player.velocity,
                self.player.health == old(self).player.health,
                self.player.bullet_available == old(self).player.bullet_available,
                self.player.wf(),
                self.player.status == status_for(old(self).player.health.0 as int),
                died == (old(self).player.status == LifeStatus::Alive && self.player.status
                    == LifeStatus::Dead),
            decreases self.enemies@.len() - i,
        {
            let mut e = self.enemies[i];
            e.status = sync_alive_dead(e.status, &e.health);
            if e.status == LifeStatus::Dead {
                e.scale = shrink_dead(e.scale, delta_ms);
            }
            let gone = e.status == LifeStatus::Dead && should_despawn(e.scale);
            proof {
                assert(e == mapped[i as int]);
                assert(mapped.take(i as int + 1).drop_last() =~= mapped.take(i as int));
                reveal(Seq::filter);
            }
            if !gone {
                remaining.push(e);
            }
            proof {
                assert(remaining@ =~= mapped.take(i as int + 1).filter(|e: Enemy| kept(e)));
            }
            i = i + 1;
        }
        proof {
            assert(mapped.take(start.len() as int) =~= mapped);
        }
        self.enemies = remaining;
        proof {
            assert(self.player == Player { status: status_for(old(self).player.health.0 as int), ..old(self).player });
        }
        died
    }

    /// One simulation tick, in a fixed order: the fire input, the
    /// collisions of this tick, enemy pursuit, the timers, wave escalation,
    /// then life and death. The score never goes down, no wave track goes
    /// back, and the projectile stays out exactly while the spawner may
    /// not fire.
    pub fn tick(&mut self, fire_pressed: bool, events: &Vec<CollisionEvent>, delta_ms: u64) -> (r: TickOutcome)
        requires
            old(self).wf(),
        ensures
            final(self).wf(),
            final(self).score.0 >= old(self).score.0,
            final(self).waves@.len() == old(self).waves@.len(),
            forall|i: int|
                0 <= i < final(self).waves@.len() ==> (#[trigger] final(self).waves@[i]).wave_counter
                    >= old(self).waves@[i].wave_counter,
            final(self).timer.0.elapsed_ms >= old(self).timer.0.elapsed_ms,
            final(self).game_over == (old(self).game_over || r.player_died),
            final(self)@ == tick_step(old(self)@, fire_pressed, events@, delta_ms as int),
            waves_emitted(before_waves(old(self)@, fire_pressed, events@, delta_ms as int), r.waves@),
    {
        if fire_pressed {
            self.fire();
        }
        let ghost fired_v = self@;
        let mut k: usize = 0;
        while k < events.len()
            invariant
                self@ == collisions_step(fired_v, events@, k as int),
                0 <= k <= events@.len(),
                self.wf(),
                self.score.0 >= old(self).score.0,
                self.waves@ == old(self).waves@,
                self.timer == old(self).timer,
                self.game_over == old(self).game_over,
            decreases events@.len() - k,
        {
            self.resolve_collision(events[k]);
            k = k + 1;
        }
        self.run_enemy_behavior(delta_ms);
        self.tick_timers(delta_ms);
        let ghost before_waves = self.waves@;
        let ghost elapsed = self.timer.0.elapsed_ms;
        let waves = self.run_waves();
        proof {
            assert forall|i: int| 0 <= i < self.waves@.len() implies (#[trigger] self.waves@[i]).wave_counter
                >= old(self).waves@[i].wave_counter by {
                assert(before_waves[i] == old(self).waves@[i]);
            }
        }
        let player_died = self.reconcile_lifecycle(delta_ms);
        TickOutcome { waves, player_died }
    }
}

/// Whole seconds of a millisecond count, as the wave tracks read them.
pub open spec fn whole_secs(ms: int) -> int {
    if ms / 1000 > u32::MAX {
        u32::MAX as int
    } else {
        ms / 1000
    }
}

/// The goals enemies pursue: the player while alive.
pub open spec fn goals_of(p: Player) -> Seq<Vec2i> {
    if p.status == LifeStatus::Alive {
        seq![p.position]
    } else {
        seq![]
    }
}

/// The survival timer, the tuning and the game-over flag are as they were.
pub open spec fn same_frame(a: Session, b: Session) -> bool {
    &&& a.timer == b.timer
    &&& a.bullet_settings == b.bullet_settings
    &&& a.game_over == b.game_over
}

} // verus!
