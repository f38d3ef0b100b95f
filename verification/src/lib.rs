//! Simulation core for a wrap-around arena space-combat game: kinematic
//! integration with drag, boundary wrapping, pairwise circle collision with
//! penetration resolution, damage/health/fragmentation rules, and
//! lifetime-based despawning.
//!
//! All quantities are fixed-point integers: positions and speeds in
//! milli-units (one thousandth of a pixel, or of a pixel per second),
//! angles in milli-radians, durations in milliseconds.

pub mod fixed;
pub mod trig;
pub mod vec2;
pub mod components;
pub mod world;
pub mod kinematics;
pub mod wrap;
pub mod collision;
pub mod rng;
pub mod damage;
pub mod lifetime;
pub mod control;
pub mod pipeline;
