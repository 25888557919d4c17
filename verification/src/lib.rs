//! A verified model of a small two-player Pong prototype.
//!
//! The library holds the game's data model and per-frame logic: window and
//! event-queue state, asset and sprite construction, paddle placement,
//! keyboard-driven paddle movement, and the ball's randomized launch. It
//! comes in two variants, grown one from the other: [`basic`], where two
//! paddles follow the keyboard, and [`extended`], which adds a ball and
//! per-player contexts.
//!
//! Rendering and operating-system event delivery live outside the library;
//! a driver hands in plain events and takes plain state back.

pub mod assets;
pub mod basic;
pub mod extended;
pub mod geometry;
mod rng;
pub mod window;
