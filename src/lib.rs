//! Simulation core of a top-down arena survival game: health and death,
//! enemy stun and pursuit, projectile flight and collection, collision
//! resolution, survival timing and wave escalation.
//!
//! Distances, positions and velocities are fixed-point integers in
//! thousandths of a world unit; durations are whole milliseconds.
pub mod bullet;
pub mod combat;
pub mod direction;
pub mod enemy;
pub mod geometry;
pub mod health;
pub mod input;
pub mod movement;
pub mod player;
pub mod score;
pub mod session;
pub mod survival_timer;
pub mod timer;
pub mod waves;
