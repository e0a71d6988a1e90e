//! Fixed-timestep simulation core of a small vertical arcade shooter.
//!
//! Lengths are whole milli-pixels and durations whole microseconds, so the
//! whole simulation runs on integers and every step is exact and repeatable.
//! Sprite and screen sizes are given in pixels, as an image loader reports
//! them.

pub mod entity;
pub mod geometry;
pub mod lemmas;
pub mod state;
