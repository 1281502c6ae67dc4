//! Simulation core of a tick-driven tower-defense game.
//!
//! The library owns the game's data model and transition rules: wave
//! spawning, enemy movement, combat resolution, economy settlement,
//! tower placement and the win/loss evaluation. Windowing, input capture
//! and rendering are left to the surrounding program; the core works on
//! plain integer world units so that every rule is stated and proved
//! exactly.

pub mod catalog;
pub mod combat;
pub mod economy;
pub mod entities;
pub mod game;
pub mod geometry;
pub mod movement;
pub mod outcome;
pub mod spawner;
pub mod state;
