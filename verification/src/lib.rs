//! Core rules of a small 2D "collect the stars, avoid the enemies" arcade
//! game, kept free of any engine concern. Positions are whole pixels,
//! durations are whole milliseconds, and directions are fixed-point unit
//! vectors, so every rule is plain integer arithmetic with a proved contract.
//! A host binary owns the window, the clock, the keyboard and the random
//! numbers; it hands plain values in and carries the results back out.

pub mod app_states;
pub mod camera;
pub mod enemy;
pub mod events;
pub mod geometry;
pub mod input;
pub mod people;
pub mod player;
pub mod score;
pub mod settings;
pub mod star;
pub mod timer;
