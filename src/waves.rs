use vstd::prelude::*;
use rand::Rng;
use crate::enemy::EnemyVariant;
use crate::geometry::Vec2i;
use crate::score::{credited, Score};

verus! {

/// Settings of one wave track: which variant it spawns, how often and how
/// many, how far from the player, and what each wave is worth.
#[derive(PartialEq, Eq, Structural, Clone, Copy, Debug)]
pub struct WavesManagerSettings {
    pub enemy_variant: EnemyVariant,
    /// A new wave every this many seconds of survival time.
    pub spawn_every_n_secs: u32,
    /// Enemies of the first wave.
    pub initial_enemies: u32,
    /// Extra enemies per wave index.
    pub enemies_incr_per_wave: u32,
    /// Least spawn distance from the player, in world units.
    pub spawn_radius_min: u32,
    /// Greatest spawn distance from the player, in world units.
    pub spawn_radius_max: u32,
    /// Each wave adds its number times this to the score.
    pub score_mult: u32,
}

impl WavesManagerSettings {
    /// A positive interval and a non-empty radius range.
    pub open spec fn wf(self) -> bool {
        self.spawn_every_n_secs > 0 && self.spawn_radius_min
            <= self.spawn_radius_max
    }
}

impl Default for WavesManagerSettings {
    /// The common track: one more basic enemy every five seconds.
    fn default() -> (r: Self)
        ensures
            r.wf(),
            r.enemy_variant == EnemyVariant::Basic,
            r.spawn_every_n_secs == 5,
            r.initial_enemies == 1,
            r.enemies_incr_per_wave == 1,
            r.spawn_radius_min == 100,
            r.spawn_radius_max == 200,
            r.score_mult == 1,
    {
        WavesManagerSettings {
            enemy_variant: EnemyVariant::Basic,
            spawn_every_n_secs: 5,
            initial_enemies: 1,
            enemies_incr_per_wave: 1,
            spawn_radius_min: 100,
            spawn_radius_max: 200,
            score_mult: 1,
        }
    }
}

/// One wave track and the number of waves it has spawned.
#[derive(PartialEq, Eq, Structural, Clone, Copy, Debug)]
pub struct WavesManager {
    pub settings: WavesManagerSettings,
    pub wave_counter: u32,
}

impl WavesManager {
    /// A track that has spawned nothing yet.
    pub fn from_settings(settings: WavesManagerSettings) -> (r: Self)
        ensures
            r.settings == settings,
            r.wave_counter == 0,
    {
        WavesManager { settings, wave_counter: 0 }
    }
}

/// The two tracks of a session: basic enemies every five seconds, and a
/// bigger enemy every minute worth far more.
pub fn waves_managers() -> (r: Vec<WavesManager>)
    ensures
        r@.len() == 2,
        r@[0].settings.enemy_variant == EnemyVariant::Basic,
        r@[0].settings.spawn_every_n_secs == 5,
        r@[0].settings.initial_enemies == 1,
        r@[0].settings.enemies_incr_per_wave == 1,
        r@[0].settings.spawn_radius_min == 100,
        r@[0].settings.spawn_radius_max == 200,
        r@[0].settings.score_mult == 1,
        r@[1].settings.enemy_variant == EnemyVariant::Bigger,
        r@[1].settings.spawn_every_n_secs == 60,
        r@[1].settings.initial_enemies == 1,
        r@[1].settings.enemies_incr_per_wave == 1,
        r@[1].settings.spawn_radius_min == 250,
        r@[1].settings.spawn_radius_max == 300,
        r@[1].settings.score_mult == 500,
        forall|i: int| 0 <= i < 2 ==> (#[trigger] r@[i]).wave_counter == 0 && r@[i].settings.wf(),
{
    let mut r: Vec<WavesManager> = Vec::new();
    r.push(WavesManager::from_settings(WavesManagerSettings::default()));
    r.push(
        WavesManager::from_settings(
            WavesManagerSettings {
                enemy_variant: EnemyVariant::Bigger,
                spawn_every_n_secs: 60,
                initial_enemies: 1,
                enemies_incr_per_wave: 1,
                spawn_radius_min: 250,
                spawn_radius_max: 300,
                score_mult: 500,
            },
        ),
    );
    r
}

/// Where one enemy of a wave appears: at angle `2π * index / count` around
/// the wave's center, `radius` world units away.
#[derive(PartialEq, Eq, Structural, Clone, Copy, Debug)]
pub struct EnemySpawn {
    pub variant: EnemyVariant,
    pub index: u64,
    pub count: u64,
    pub radius: u32,
}

/// One batch of enemies, spawned around the player's position.
pub struct Wave {
    pub index: u32,
    pub center: Vec2i,
    pub enemies: Vec<EnemySpawn>,
}

/// Waves a track should have spawned after `elapsed_secs` of survival.
pub open spec fn expected_waves(s: WavesManagerSettings, elapsed_secs: int) -> int {
    elapsed_secs / (s.spawn_every_n_secs as int)
}

/// The wave counter after a track has caught up with `elapsed_secs`.
pub open spec fn caught_up(counter: int, s: WavesManagerSettings, elapsed_secs: int) -> int {
    if expected_waves(s, elapsed_secs) > counter {
        expected_waves(s, elapsed_secs)
    } else {
        counter
    }
}

/// Enemies in the wave with index `wave_index`.
pub open spec fn enemy_count(s: WavesManagerSettings, wave_index: int) -> int {
    s.initial_enemies + wave_index * s.enemies_incr_per_wave
}

/// The score after the waves numbered `from + 1` through `from + n` each
/// added their number times `mult`.
pub open spec fn score_after_waves(score: int, mult: int, from: int, n: int) -> int
    decreases n,
{
    if n <= 0 {
        score
    } else {
        credited(score_after_waves(score, mult, from, n - 1), (from + n) * mult)
    }
}

/// `w` is the wave with index `wave_index` of a track with settings `s`,
/// centered on `center`.
pub open spec fn is_wave(w: Wave, s: WavesManagerSettings, wave_index: int, center: Vec2i) -> bool {
    &&& w.index == wave_index
    &&& w.center == center
    &&& w.enemies@.len() == enemy_count(s, wave_index)
    &&& forall|k: int|
        0 <= k < w.enemies@.len() ==> {
            let e = #[trigger] w.enemies@[k];
            &&& e.variant == s.enemy_variant
            &&& e.index == k
            &&& e.count == enemy_count(s, wave_index)
            &&& s.spawn_radius_min <= e.radius <= s.spawn_radius_max
        }
}

proof fn lemma_u32_product(a: int, b: int)
    requires
        0 <= a <= u32::MAX,
        0 <= b <= u32::MAX,
    ensures
        0 <= a * b <= 0xFFFF_FFFE_0000_0001,
{
    assert(0 <= a * b <= 0xFFFF_FFFE_0000_0001) by (nonlinear_arith)
        requires
            0 <= a <= u32::MAX,
            0 <= b <= u32::MAX,
    ;
}

/// Relies on `rand::Rng::random_range` over `rand::rng()`, the thread-local
/// generator: some value of `lo..=hi`. It panics only on an empty range.
#[verifier::external_body]
fn random_radius(lo: u32, hi: u32) -> (r: u32)
    requires
        lo <= hi,
    ensures
        lo <= r <= hi,
{
    rand::rng().random_range(lo..=hi)
}

/// The wave with index `wave_index` of a track: `initial_enemies + wave_index
/// * enemies_incr_per_wave` enemies spread evenly around `center`, each at a
/// distance drawn at random from the track's radius range.
pub fn wave(settings: &WavesManagerSettings, wave_index: u32, center: Vec2i) -> (r: Wave)
    requires
        settings.wf(),
    ensures
        is_wave(r, *settings, wave_index as int, center),
{
    proof {
        lemma_u32_product(wave_index as int, settings.enemies_incr_per_wave as int);
    }
    let count: u64 = settings.initial_enemies as u64 + wave_index as u64
        * settings.enemies_incr_per_wave as u64;
    let mut enemies: Vec<EnemySpawn> = Vec::new();
    let mut k: u64 = 0;
    while k < count
        invariant
            settings.wf(),
            count == enemy_count(*settings, wave_index as int),
            k <= count,
            enemies@.len() == k,
            forall|j: int|
                0 <= j < k ==> {
                    let e = #[trigger] enemies@[j];
                    &&& e.variant == settings.enemy_variant
                    &&& e.index == j
                    &&& e.count == count
                    &&& settings.spawn_radius_min <= e.radius
                        <= settings.spawn_radius_max
                },
        decreases count - k,
    {
        let radius = random_radius(
            settings.spawn_radius_min,
            settings.spawn_radius_max,
        );
        enemies.push(EnemySpawn { variant: settings.enemy_variant, index: k, count, radius });
        k = k + 1;
    }
    Wave { index: wave_index, center, enemies }
}

/// Catches a track up with the survival time: spawns exactly the waves it
/// is behind by, `elapsed_secs / spawn_every_n_secs` minus its counter when
/// that is positive and none otherwise, in order of index, all around
/// `player_pos`. Each wave raises the counter by one and adds the new
/// counter times `score_mult` to the score.
pub fn handle_waves_manager(
    manager: &mut WavesManager,
    elapsed_secs: u32,
    score: &mut Score,
    player_pos: Vec2i,
) -> (r: Vec<Wave>)
    requires
        old(manager).settings.wf(),
    ensures
        final(manager).settings == old(manager).settings,
        final(manager).wave_counter == caught_up(
            old(manager).wave_counter as int,
            old(manager).settings,
            elapsed_secs as int,
        ),
        final(manager).wave_counter >= old(manager).wave_counter,
        r@.len() == final(manager).wave_counter - old(manager).wave_counter,
        forall|k: int|
            0 <= k < r@.len() ==> is_wave(
                #[trigger] r@[k],
                old(manager).settings,
                old(manager).wave_counter + k,
                player_pos,
            ),
        final(score).0 == score_after_waves(
            old(score).0 as int,
            old(manager).settings.score_mult as int,
            old(manager).wave_counter as int,
            r@.len() as int,
        ),
        final(score).0 >= old(score).0,
{
    let expected = elapsed_secs / manager.settings.spawn_every_n_secs;
    let ghost start = *old(manager);
    let ghost start_score = old(score).0 as int;
    let mut waves: Vec<Wave> = Vec::new();
    while manager.wave_counter < expected
        invariant
            manager.settings == start.settings,
            start.settings.wf(),
            expected == expected_waves(start.settings, elapsed_secs as int),
            start.wave_counter <= manager.wave_counter,
            manager.wave_counter <= caught_up(start.wave_counter as int, start.settings, elapsed_secs as int),
            waves@.len() == manager.wave_counter - start.wave_counter,
            forall|k: int|
                0 <= k < waves@.len() ==> is_wave(
                    #[trigger] waves@[k],
                    start.settings,
                    start.wave_counter + k,
                    player_pos,
                ),
            score.0 == score_after_waves(
                start_score,
                start.settings.score_mult as int,
                start.wave_counter as int,
                waves@.len() as int,
            ),
            score.0 >= start_score,
        decreases expected - manager.wave_counter,
    {
        let w = wave(&manager.settings, manager.wave_counter, player_pos);
        waves.push(w);
        manager.wave_counter = manager.wave_counter + 1;
        proof {
            lemma_u32_product(manager.wave_counter as int, manager.settings.score_mult as int);
        }
        let points: u64 = manager.wave_counter as u64 * manager.settings.score_mult as u64;
        score.add(points);
    }
    waves
}

/// Survival time never makes a track go back: its counter after catching
/// up is at least what it was, and catching up with a later time never
/// gives a smaller counter.
pub proof fn lemma_waves_monotonic(
    counter: int,
    s: WavesManagerSettings,
    t1: int,
    t2: int,
)
    requires
        s.wf(),
        0 <= t1 <= t2,
    ensures
        caught_up(counter, s, t1) >= counter,
        caught_up(counter, s, t1) <= caught_up(counter, s, t2),
        caught_up(caught_up(counter, s, t1), s, t2) == caught_up(counter, s, t2),
{
    let d = s.spawn_every_n_secs as int;
    assert(t1 / d <= t2 / d) by (nonlinear_arith)
        requires
            0 <= t1 <= t2,
            d > 0,
    ;
}

/// The score never goes down as waves are credited.
pub proof fn lemma_score_after_waves_grows(score: int, mult: int, from: int, n: int)
    requires
        0 <= score <= u64::MAX,
        mult >= 0,
        from >= 0,
    ensures
        score <= score_after_waves(score, mult, from, n) <= u64::MAX,
    decreases n,
{
    if n > 0 {
        lemma_score_after_waves_grows(score, mult, from, n - 1);
        assert((from + n) * mult >= 0) by (nonlinear_arith)
            requires
                from + n >= 0,
                mult >= 0,
        ;
    }
}

} // verus!
