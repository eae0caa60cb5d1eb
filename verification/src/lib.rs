//! Deterministic game logic of a top-down open-world city game: the random
//! stream that generates the world, player key/mouse bindings with their
//! `config.ini` format, keyboard/mouse state with edge detection, the city
//! grid's integer geometry, traffic headings, the player's mode machine and
//! the texture helpers of the model loader.

pub mod car;
pub mod city;
pub mod color;
pub mod fx;
pub mod glb;
pub mod rng;
pub mod traffic;
pub mod wildlife;
pub mod text;
pub mod config;
pub mod ini;
pub mod input;
pub mod mission;
pub mod state;
