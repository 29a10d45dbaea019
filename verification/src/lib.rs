//! Core of an on-screen prize wheel: weighted segment layout over fixed-point
//! angles, the randomized spin animation with a quintic ease-out, the
//! angle-to-segment hit-test, and the idle/spinning/settled state machine
//! with tick events on segment-boundary crossings.
//!
//! Angles are integers in units of one millionth of a full turn, so the
//! geometry and the easing are exact; rendering converts to radians at the
//! edge. Randomness enters only through small trusted wrappers around the
//! `rand` crate; everything downstream of a draw is verified for every value
//! the draw can take.

pub mod color;
pub mod engine;
pub mod layout;
pub mod message;
pub mod rng;
pub mod wheel;
