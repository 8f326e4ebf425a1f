use vstd::prelude::*;
use crate::direction::Direction;
use crate::geometry::Vec2i;
use crate::health::{Health, LifeStatus};

verus! {

/// Hit points a player starts a session with.
pub const PLAYER_HEALTH: u32 = 100;

/// The player: the goal enemies pursue, and the spawner of the one
/// projectile.
#[derive(PartialEq, Eq, Structural, Clone, Copy, Debug)]
pub struct Player {
    pub position: Vec2i,
    pub velocity: Vec2i,
    pub health: Health,
    pub status: LifeStatus,
    /// Whether the spawner may fire: false while its projectile is out.
    pub bullet_available: bool,
    /// The resolved aim, if any input gives one.
    pub aim: Option<Direction>,
}

impl Player {
    pub open spec fn wf(self) -> bool {
        self.position.wf() && self.velocity.wf()
    }

    /// A player at rest at `position`, at full health, ready to fire, not
    /// aiming.
    pub open spec fn new_spec(position: Vec2i) -> Player {
        Player {
            position,
            velocity: Vec2i { x: 0, y: 0 },
            health: Health(PLAYER_HEALTH),
            status: LifeStatus::Alive,
            bullet_available: true,
            aim: None,
        }
    }

    pub fn new(position: Vec2i) -> (r: Self)
        requires
            position.wf(),
        ensures
            r.wf(),
            r == Player::new_spec(position),
    {
        Player {
            position,
            velocity: Vec2i::zero(),
            health: Health::new(PLAYER_HEALTH),
            status: LifeStatus::Alive,
            bullet_available: true,
            aim: None,
        }
    }
}

} // verus!
