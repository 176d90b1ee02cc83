//! Simulation core of a 2D physics puzzle game: exact rational arithmetic,
//! vector and position primitives, axis-aligned hitboxes, a fixed-timestep
//! integrator with floor bounce, momentum-based collision resolution, and the
//! nested state machines that drive a grab-release-ballistic player object
//! through a roster of levels.
//!
//! All world-space quantities are exact rationals ([`rational::Q`]); an
//! operation whose reduced result would leave the machine range reports
//! `None` instead of silently losing precision.

pub mod ball;
pub mod collision;
pub mod constants;
pub mod frame;
pub mod game;
pub mod game_pad_tracker;
pub mod level_object;
pub mod position;
pub mod projectile;
pub mod projectile_status;
pub mod rational;
pub mod vector;
