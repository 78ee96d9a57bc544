//! Fixed dimensions of the world and the four travel directions.

use vstd::prelude::*;

verus! {

/// Visual scale: world units per tile-space unit.
pub const SCALE: i64 = 3;

/// Steps per world unit. Positions and movements count steps, so that a
/// velocity in world units per second moves a position by as many steps as
/// microseconds pass, times the velocity, and nothing is rounded.
pub const STEPS_PER_UNIT: i64 = 1_000_000;

/// Edge length of a tile, in tile-space units.
pub const TILE_SIZE: u32 = 8;

/// Left edge of the playable box, in tile-space units.
pub const BOX_LEFT: i64 = -128;

/// Right edge of the playable box, in tile-space units.
pub const BOX_RIGHT: i64 = 128;

/// Bottom edge of the playable box, in tile-space units.
pub const BOX_BOTTOM: i64 = -144;

/// Top edge of the playable box, in tile-space units.
pub const BOX_TOP: i64 = 144;

/// Number of tile columns in the maze.
pub const GRID_WIDTH: u32 = 28;

/// Number of tile rows in the maze.
pub const GRID_HEIGHT: u32 = 36;

/// Speed of a mover that has been given a direction, in world units per second.
pub const SPEED: i32 = 240;

/// How far the tunnel moves a mover along the horizontal axis, in steps: 624
/// world units, the width of the maze less the two edge columns.
pub const TELEPORT_DISTANCE: i64 = 624_000_000;

/// One of the four directions a mover can face or be nudged in.
#[derive(Copy, Clone, Debug, PartialEq, Eq, Structural)]
pub enum Direction {
    Up,
    Left,
    Right,
    Down,
}

impl Direction {
    /// Whether travel in this direction changes the vertical coordinate.
    pub open spec fn is_vertical(self) -> bool {
        self == Direction::Up || self == Direction::Down
    }
}

/// The tunnel distance is the maze's width less two tiles, at the visual scale.
pub proof fn lemma_teleport_distance()
    ensures
        TELEPORT_DISTANCE == (GRID_WIDTH - 2) * TILE_SIZE * SCALE * STEPS_PER_UNIT,
{
}

} // verus!
