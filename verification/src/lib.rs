//! Core logic of a top-down 2D exploration game: resolving keyboard and
//! pointer input into a walking direction, stepping the walk-cycle sprite
//! animation, framing the camera against the player and the map edges,
//! ordering sprites by vertical position, and tracking which doors the
//! player is near.
//!
//! All world coordinates, directions and scales are fixed-point integers
//! carrying the denominator [`fp::FP`], so every formula here is exact
//! integer arithmetic.

pub mod door;
pub mod fp;
pub mod game_camera;
pub mod map;
pub mod player;
pub mod z;
