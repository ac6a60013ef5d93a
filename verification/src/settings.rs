//! Tuning constants for the game rules.
//!
//! Speeds are in pixels per second, sizes in pixels, and times in
//! milliseconds. Direction vectors use a fixed-point scale of
//! [`DIR_ONE`] per unit, and random draws are fractions of
//! [`FRACTION_ONE`].

use vstd::prelude::*;

verus! {

// Fixed-point scales.

/// Length of a unit direction vector, in fixed-point direction units.
pub const DIR_ONE: i64 = 1000;

/// Denominator of a unit-interval random fraction: a draw `f` satisfies
/// `0 <= f < FRACTION_ONE` and stands for the real number `f / FRACTION_ONE`.
pub const FRACTION_ONE: u64 = 1000000;

/// Milliseconds per second, for turning speeds into per-frame steps.
pub const MS_PER_SEC: u64 = 1000;

/// Numerator of the fixed-point ratio that scales a diagonal step down to
/// unit length; `DIAG_NUM / DIAG_DEN` stands for `1 / sqrt(2)`.
pub const DIAG_NUM: u64 = 707;

/// Denominator of the diagonal scaling ratio.
pub const DIAG_DEN: u64 = 1000;

/// Largest coordinate magnitude the rules are stated for. Keeping every
/// position inside this bound keeps all the squared-distance arithmetic
/// inside `i64`.
pub const POS_LIMIT: i64 = 1000000000;

/// Largest frame delta the rules are stated for, in milliseconds.
pub const DT_LIMIT: u64 = 1000000;

// Player settings.

/// Player speed, in pixels per second.
pub const PLAYER_SPEED: u64 = 250;

/// Side length of the player sprite, in pixels.
pub const PLAYER_SCALE: i64 = 30;

/// Whether the host should log each movement key while it is held.
pub const LOG_PLAYER_MOVEMENT: bool = false;

/// Whether the host should log each star the player collects.
pub const LOG_COLLECTING_STARS: bool = true;

// Star settings.

/// Side length of a star sprite, in pixels.
pub const STAR_SCALE: i64 = 30;

/// Stars placed when the game starts.
pub const NUMBER_OF_STARS_AT_STARTUP: usize = 10;

/// Period of the repeating star-spawn timer, in milliseconds.
pub const STAR_SPAWN_TIME_MS: u64 = 3000;

/// Stars added each time the star-spawn timer finishes.
pub const AMOUNT_OF_STARS_PER_SPAWN: usize = 2;

// Enemy settings.

/// Side length of an enemy sprite, in pixels.
pub const ENEMY_SCALE: i64 = 45;

/// Whether the host should play a sound when an enemy bounces off a wall.
pub const PLAY_ENEMY_BOUNCE_SOUND: bool = true;

/// Enemies placed when the game starts.
pub const NUMBER_OF_ENEMIES: usize = 10;

/// Lowest enemy speed an enemy can be drawn with, in pixels per second.
pub const ENEMY_SPEED_MIN: u64 = 25;

/// One past the highest enemy speed an enemy can be drawn with, in pixels
/// per second: drawn speeds lie in `ENEMY_SPEED_MIN .. ENEMY_SPEED_MAX`.
pub const ENEMY_SPEED_MAX: u64 = 500;

/// Period of the repeating enemy-spawn timer, in milliseconds.
pub const ENEMY_SPAWN_TIMER_MS: u64 = 5000;

/// Enemies added each time the enemy-spawn timer finishes.
pub const ENEMY_SPAWN_OVER_TIME: usize = 3;

} // verus!
