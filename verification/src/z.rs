use vstd::prelude::*;

verus! {

/// Depth values are expressed in micro-units: one world unit of height
/// moves the depth by `1 / Z_SCALE`, and a fixed-point world coordinate
/// already carries a factor of a thousand, so a depth of `1.0` is
/// `MICRO_DEPTH` in this representation.
pub const MICRO_DEPTH: i64 = 1_000_000;

/// Divisor keeping depth deltas small enough not to cross unrelated
/// depth bands.
pub const Z_SCALE: i64 = 1000;

/// Offset placing all dynamic sprites in a band above the static
/// background tiles, which sit at depth zero.
pub const Z_BASE: i64 = 10;

/// Bound on the coordinates the depth formulas accept; far beyond any
/// map while keeping every sum within the machine word.
pub const MAX_DEPTH_COORD: i64 = 1_000_000_000_000;

/// Per-sprite vertical offset, in fixed-point world units, compensating
/// for art that is offset from its logical anchor; entities carrying it
/// take part in depth sorting.
#[derive(Clone, Copy, PartialEq, Eq, Structural, Debug, Default)]
pub struct ZSync(pub i64);

/// Depth of a sprite from its own and its parent's vertical position:
/// the sprite's local height above its parent, minus the parent's world
/// height and the art offset, plus the dynamic-sprite band.
pub open spec fn sync_depth_spec(local_y: int, global_y: int, offset: int) -> int {
    local_y - global_y - offset + Z_BASE * MICRO_DEPTH
}

/// Depth of a free sprite of a given height standing at world height
/// `y`: lower sprites draw in front.
pub open spec fn z_from_y_spec(y: int, sprite_height: int) -> int {
    -(y - sprite_height / 2) + Z_BASE * MICRO_DEPTH
}

/// Recompute a sprite's render depth from its vertical position; run
/// every frame once positions are final, before the renderer sorts.
pub fn sync_depth(local_y: i64, global_y: i64, z: &ZSync) -> (depth: i64)
    requires
        -MAX_DEPTH_COORD <= local_y <= MAX_DEPTH_COORD,
        -MAX_DEPTH_COORD <= global_y <= MAX_DEPTH_COORD,
        -MAX_DEPTH_COORD <= z.0 <= MAX_DEPTH_COORD,
    ensures
        depth == sync_depth_spec(local_y as int, global_y as int, z.0 as int),
{
    local_y - global_y - z.0 + Z_BASE * MICRO_DEPTH
}

/// Render depth for a sprite whose anchor is half its height above its
/// world position.
pub fn z_from_y(y: i64, sprite_height: i64) -> (depth: i64)
    requires
        -MAX_DEPTH_COORD <= y <= MAX_DEPTH_COORD,
        0 <= sprite_height <= MAX_DEPTH_COORD,
        sprite_height % 2 == 0,
    ensures
        depth == z_from_y_spec(y as int, sprite_height as int),
{
    -(y - sprite_height / 2) + Z_BASE * MICRO_DEPTH
}

/// The depth-order law: of two sprites with the same local height and
/// the same vertical offset, the one whose effective world Y is smaller
/// (lower on screen) gets the strictly greater depth, so it draws in
/// front.
pub proof fn lemma_depth_monotonic(local_y: int, offset: int, g1: int, g2: int)
    requires
        g1 < g2,
    ensures
        sync_depth_spec(local_y, g1, offset) > sync_depth_spec(local_y, g2, offset),
{
}

/// The same law for a free sprite of a given height: depth is strictly
/// decreasing in its world Y.
pub proof fn lemma_z_from_y_monotonic(y1: int, y2: int, h: int)
    requires
        y1 < y2,
    ensures
        z_from_y_spec(y1, h) > z_from_y_spec(y2, h),
{
}

} // verus!
