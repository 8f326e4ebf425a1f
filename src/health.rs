use vstd::prelude::*;

verus! {

/// Hit points of an entity. Damage saturates at zero.
#[derive(PartialEq, Eq, Structural, Clone, Copy, Debug)]
pub struct Health(pub u32);

/// What `damage(amount)` leaves of `points` hit points: `max(0, points - amount)`.
pub open spec fn damaged(points: int, amount: int) -> int {
    if points - amount > 0 {
        points - amount
    } else {
        0
    }
}

impl Health {
    pub fn new(health: u32) -> (r: Self)
        ensures
            r.0 == health,
    {
        Health(health)
    }

    pub fn points(&self) -> (r: u32)
        ensures
            r == self.0,
    {
        self.0
    }

    pub fn is_alive(&self) -> (r: bool)
        ensures
            r == (self.0 > 0),
    {
        self.0 > 0
    }

    /// Removes `amount` hit points, stopping at zero.
    pub fn damage(&mut self, amount: u32)
        ensures
            final(self).0 == damaged(old(self).0 as int, amount as int),
    {
        self.0 = self.0.saturating_sub(amount);
    }
}

/// Whether an entity is tagged alive or dead.
#[derive(PartialEq, Eq, Structural, Clone, Copy, Debug)]
pub enum LifeStatus {
    Alive,
    Dead,
}

/// The status an entity takes for the hit points it has.
pub open spec fn status_for(points: int) -> LifeStatus {
    if points > 0 {
        LifeStatus::Alive
    } else {
        LifeStatus::Dead
    }
}

/// Retags an entity after its health changed: alive with no hit points left
/// becomes dead, and dead with hit points restored becomes alive.
pub fn sync_alive_dead(status: LifeStatus, health: &Health) -> (r: LifeStatus)
    ensures
        r == status_for(health.0 as int),
{
    match status {
        LifeStatus::Alive => {
            if !health.is_alive() {
                LifeStatus::Dead
            } else {
                LifeStatus::Alive
            }
        },
        LifeStatus::Dead => {
            if health.is_alive() {
                LifeStatus::Alive
            } else {
                LifeStatus::Dead
            }
        },
    }
}

/// True exactly on the tick in which an entity turns from alive to dead.
pub fn just_died(before: LifeStatus, after: LifeStatus) -> (r: bool)
    ensures
        r == (before == LifeStatus::Alive && after == LifeStatus::Dead),
{
    before == LifeStatus::Alive && after == LifeStatus::Dead
}

/// Planar scale in thousandths: 1000 is the natural size.
#[derive(PartialEq, Eq, Structural, Clone, Copy, Debug)]
pub struct Scale {
    pub x: u64,
    pub y: u64,
}

/// A dead entity shrinks on both axes by one unit of scale per second,
/// which is one thousandth per millisecond, and never below zero.
pub fn shrink_dead(scale: Scale, delta_ms: u64) -> (r: Scale)
    ensures
        r.x as int == damaged(scale.x as int, delta_ms as int),
        r.y as int == damaged(scale.y as int, delta_ms as int),
{
    Scale { x: scale.x.saturating_sub(delta_ms), y: scale.y.saturating_sub(delta_ms) }
}

/// A dead entity is removed once either axis of its scale has reached zero.
pub fn should_despawn(scale: Scale) -> (r: bool)
    ensures
        r == (scale.x == 0 || scale.y == 0),
{
    scale.x == 0 || scale.y == 0
}

} // verus!
