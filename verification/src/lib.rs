//! Core of a collect-the-target game steered by the player's nose.
//!
//! Coordinates are fixed-point integers: one whole step of a landmark or
//! screen axis is [`geometry::UNIT`] units. The host converts detector
//! output into units, polls keys, renders, and drives [`game::State::tick`]
//! once per frame.

pub mod geometry;
pub mod calibration;
pub mod random;
pub mod entities;
pub mod game;
