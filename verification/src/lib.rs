//! Core simulation of a grid-based snake arcade game: a snake that grows by
//! eating food and fires limited-ammo bullets, static traps, a roaming enemy,
//! and a timed difficulty ramp, all driven by an external frame loop.
pub mod common;
pub mod entities;
pub mod game;
