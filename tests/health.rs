use arena_survival::health::{just_died, should_despawn, shrink_dead, sync_alive_dead, Health, LifeStatus, Scale};

#[test]
fn damage_subtracts() {
    let mut h = Health::new(5);
    h.damage(2);
    assert_eq!(h.points(), 3);
    assert!(h.is_alive());
}

#[test]
fn damage_saturates_at_zero() {
    let mut h = Health::new(3);
    h.damage(10);
    assert_eq!(h.points(), 0);
    assert!(!h.is_alive());
    h.damage(u32::MAX);
    assert_eq!(h.points(), 0);
}

#[test]
fn damage_to_exactly_zero_kills() {
    let mut h = Health::new(1);
    h.damage(1);
    assert_eq!(h.points(), 0);
    assert!(!h.is_alive());
}

#[test]
fn damage_zero_changes_nothing() {
    let mut h = Health::new(7);
    h.damage(0);
    assert_eq!(h.points(), 7);
}

#[test]
fn status_follows_health() {
    assert_eq!(sync_alive_dead(LifeStatus::Alive, &Health::new(0)), LifeStatus::Dead);
    assert_eq!(sync_alive_dead(LifeStatus::Alive, &Health::new(2)), LifeStatus::Alive);
    assert_eq!(sync_alive_dead(LifeStatus::Dead, &Health::new(2)), LifeStatus::Alive);
    assert_eq!(sync_alive_dead(LifeStatus::Dead, &Health::new(0)), LifeStatus::Dead);
}

#[test]
fn death_is_edge_triggered() {
    assert!(just_died(LifeStatus::Alive, LifeStatus::Dead));
    assert!(!just_died(LifeStatus::Dead, LifeStatus::Dead));
    assert!(!just_died(LifeStatus::Alive, LifeStatus::Alive));
}

#[test]
fn dead_entities_shrink_and_clamp() {
    let s = shrink_dead(Scale { x: 1000, y: 2000 }, 400);
    assert_eq!(s, Scale { x: 600, y: 1600 });
    assert!(!should_despawn(s));
    let s = shrink_dead(s, 700);
    assert_eq!(s, Scale { x: 0, y: 900 });
    assert!(should_despawn(s));
}
