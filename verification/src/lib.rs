//! Core engine for a terminal snake game.
//!
//! A snake moves on a bounded, optionally toroidal grid, grows by eating
//! fruit, and dies when it collides with itself, an obstacle, or a
//! non-wrapping edge.  This crate holds the verified gameplay engine: the
//! level and obstacle generator, the snake's movement and growth model, the
//! fruit-placement algorithm, and the tick- and event-driven game state
//! machine, together with the menu and option-editing state machines that
//! surround a round.  Terminal rendering and disk persistence live in the
//! unverified application layer around this crate.
use vstd::prelude::*;

pub mod command;
pub mod direction;
pub mod game;
pub mod geom;
pub mod highscores;
pub mod level;
pub mod logo;
pub mod menu;
pub mod options;
pub mod paths;
pub mod paused;
pub mod rng;
pub mod snake;
pub mod warning;

verus! {

/// Maximum number of fruits that can be present on a level at one time.
pub const MAX_FRUITS: usize = 10;

/// Length of the snake's body trail before any fruits have been eaten.
pub const INITIAL_SNAKE_LENGTH: usize = 3;

/// How many cells the snake's target length increases by per fruit eaten.
pub const SNAKE_GROWTH: usize = 3;

/// Percentage chance of placing an obstacle in any given cell when random
/// obstacles are enabled.
pub const OBSTACLE_CHANCE_PERCENT: u32 = 3;

/// When generating random obstacles, clear any obstacles on the straight
/// line behind the snake's starting cell, this many cells long.
pub const BACKWARDS_CLEARANCE: usize = 3;

/// When generating random obstacles, clear any obstacles on the straight
/// line in front of the snake's starting cell, this many cells long.
pub const FORWARDS_CLEARANCE: usize = 7;

/// Cap on the score.  The snake's target length is tied to the score by the
/// growth rule, and this bound keeps that length comfortably inside a
/// machine word on every platform.  No terminal-sized board can come near
/// this many fruits in a human lifetime of play.
pub const MAX_SCORE: u32 = 1000000000;

} // verus!
