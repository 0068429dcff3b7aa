//! Liwin: configuration records and the rules of the fog-of-war exploration
//! game, with their contracts proved by Verus.
pub mod config;
pub mod controls;
pub mod game;
pub mod generation;
pub mod laws;
pub mod tally;
pub mod text;
pub mod world;
