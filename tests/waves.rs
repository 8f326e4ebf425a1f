use arena_survival::enemy::EnemyVariant;
use arena_survival::geometry::Vec2i;
use arena_survival::score::Score;
use arena_survival::waves::{handle_waves_manager, wave, waves_managers, WavesManager, WavesManagerSettings};

#[test]
fn default_tracks() {
    let m = waves_managers();
    assert_eq!(m.len(), 2);
    assert_eq!(m[0].settings.spawn_every_n_secs, 5);
    assert_eq!(m[1].settings.enemy_variant, EnemyVariant::Bigger);
    assert_eq!(m[1].settings.score_mult, 500);
    assert_eq!(WavesManagerSettings::default().spawn_radius_max, 200);
}

#[test]
fn wave_size_and_radius() {
    let settings = WavesManagerSettings::default();
    let w = wave(&settings, 3, Vec2i::new(7, 7));
    assert_eq!(w.index, 3);
    assert_eq!(w.center, Vec2i::new(7, 7));
    assert_eq!(w.enemies.len(), 4);
    for (k, e) in w.enemies.iter().enumerate() {
        assert_eq!(e.index, k as u64);
        assert_eq!(e.count, 4);
        assert!(e.radius >= 100 && e.radius <= 200);
        assert_eq!(e.variant, EnemyVariant::Basic);
    }
}

/// At 25 s with a 5 s interval and three waves behind it, a track spawns
/// waves 3 and 4 and reaches five.
#[test]
fn two_batches_at_25s() {
    let mut m = WavesManager::from_settings(WavesManagerSettings::default());
    m.wave_counter = 3;
    let mut score = Score::new();
    let waves = handle_waves_manager(&mut m, 25, &mut score, Vec2i::zero());
    assert_eq!(waves.len(), 2);
    assert_eq!(m.wave_counter, 5);
    assert_eq!(waves[0].index, 3);
    assert_eq!(waves[1].index, 4);
    assert_eq!(waves[0].enemies.len(), 4);
    assert_eq!(waves[1].enemies.len(), 5);
    assert_eq!(score.value(), 4 + 5);
}

#[test]
fn skipped_ticks_spawn_every_missed_wave() {
    let mut m = WavesManager::from_settings(WavesManagerSettings::default());
    let mut score = Score::new();
    let waves = handle_waves_manager(&mut m, 15, &mut score, Vec2i::zero());
    assert_eq!(waves.len(), 3);
    assert_eq!(m.wave_counter, 3);
    assert_eq!(score.value(), 1 + 2 + 3);
    let again = handle_waves_manager(&mut m, 15, &mut score, Vec2i::zero());
    assert!(again.is_empty());
    assert_eq!(m.wave_counter, 3);
}

#[test]
fn counter_never_goes_back() {
    let mut m = WavesManager::from_settings(WavesManagerSettings::default());
    m.wave_counter = 10;
    let mut score = Score(42);
    let waves = handle_waves_manager(&mut m, 20, &mut score, Vec2i::zero());
    assert!(waves.is_empty());
    assert_eq!(m.wave_counter, 10);
    assert_eq!(score.value(), 42);
}

#[test]
fn bigger_track_score_multiplier() {
    let managers = waves_managers();
    let mut m = managers[1];
    let mut score = Score::new();
    let waves = handle_waves_manager(&mut m, 120, &mut score, Vec2i::zero());
    assert_eq!(waves.len(), 2);
    assert_eq!(score.value(), 500 + 1000);
    assert!(waves[1].enemies.iter().all(|e| e.radius >= 250 && e.radius <= 300));
}
