//! Simulation core of a one-button arcade game: a bird falls under gravity,
//! flaps on a button press and has to pass through the gaps of pipes that
//! scroll towards it.
//!
//! Everything is computed in exact integer arithmetic. Lengths are counted in
//! sub-pixel units ([`geometry::PX`] of them make one pixel), speeds in
//! millionths of a pixel per second and time in microseconds, so that
//! `speed * time` is a length and `GRAVITY * time` is a speed, with no
//! rounding anywhere. Drawing is expressed as a list of [`assets::Image`]
//! values that a renderer can put on the screen.

pub mod geometry;
pub mod collision;
pub mod random;
pub mod assets;
pub mod bird;
pub mod pipe;
pub mod ground;
pub mod score_drawer;
pub mod game;
