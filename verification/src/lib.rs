//! Rules of a small "Space Invaders" style game, stated and proved with Verus.
//!
//! The crate holds everything about the game that is decided on plain values: the
//! player's sprite and how it moves, the black-and-white picture of the world, the
//! keys that steer the player, the menu / play / pause / game-over cycle with its
//! score, and the text form of the stored high score. Windows, drawing, timing and
//! files belong to the program built around it.

pub mod app;
pub mod game;
pub mod highscore;
pub mod keys;
pub mod ship;
pub mod spawn;
pub mod sprite;
pub mod world;
