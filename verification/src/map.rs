use vstd::prelude::*;

verus! {

/// Side of one square ground tile, in fixed-point world units.
pub const SPRITE_SIZE: i64 = 32_000;

/// Tile counts of the square map.
pub const MAP_TILES_X: i64 = 32;
pub const MAP_TILES_Y: i64 = 32;

/// World-space extent of the map, in fixed-point units; the map spans
/// from zero to these bounds.
pub const MAP_WIDTH: i64 = MAP_TILES_X * SPRITE_SIZE;
pub const MAP_HEIGHT: i64 = MAP_TILES_Y * SPRITE_SIZE;

} // verus!
