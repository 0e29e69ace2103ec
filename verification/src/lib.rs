//! Orchestration core of a deterministic, seed-driven 2D destructible-terrain
//! simulation.
//!
//! The [`world::World`] type owns a deterministic random stream, an optional
//! preview terrain, an optional committed game state (terrain plus physics
//! world) and a renderer handle, and sequences them through a reproducible
//! lifecycle: seeding, preview generation, full initialization, per-tick
//! physics stepping and render delegation.

pub mod geometry;
pub mod land;
pub mod landgen;
pub mod physics;
pub mod prng;
pub mod render;
pub mod world;
