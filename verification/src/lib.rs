//! Combat core of a small physics-driven skirmish game.
//!
//! Lengths, speeds and impulses are whole numbers of thousandths of a world
//! unit (see [`units`]); health and explosion power are whole points.

pub mod units;
pub mod layers;
pub mod enemies;
pub mod player;

pub use layers::{CollisionLayers, PhysicsLayers};
