//! Simulation core of a small arcade shooter: clock, edge-triggered input,
//! entity registry with deferred events, and a layer-filtered collision pass.

pub mod time;
pub mod engine;
pub mod keyboard;
pub mod geometry;
pub mod entity;
pub mod bullet;
pub mod player;
pub mod enemies;
pub mod enemy_spawner;
pub mod you_lost;
