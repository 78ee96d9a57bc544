//! The maze grid and the mapping between world positions and its tiles.

use crate::consts::{
    Direction, BOX_BOTTOM, BOX_LEFT, GRID_HEIGHT, GRID_WIDTH, SCALE, STEPS_PER_UNIT, TILE_SIZE,
};
use crate::geometry::Position;
use crate::layout::{MAP_PATH_VALIDITY, MASK_LEN};
use crate::tile::{PathTile, Tile, TileView};
use ndarray::Array2;
use vstd::multiset::Multiset;
use vstd::prelude::*;

verus! {

/// A position taken apart: the tile it lies in, by column and row, and how far
/// into that tile it lies on each axis.
#[derive(Copy, Clone, Debug, PartialEq, Eq, Structural)]
pub struct TileInformation(pub u32, pub u32, pub u32, pub u32);

impl TileInformation {
    /// The tile in the bottom-left corner, at its own bottom-left corner.
    pub fn new() -> (info: Self)
        ensures
            info == TileInformation(0, 0, 0, 0),
    {
        Self(0, 0, 0, 0)
    }

    pub open spec fn spec_x(&self) -> u32 {
        self.0
    }

    /// Column of the tile.
    #[verifier::when_used_as_spec(spec_x)]
    pub fn x(&self) -> (x: u32)
        ensures
            x == self.0,
    {
        self.0
    }

    pub open spec fn spec_y(&self) -> u32 {
        self.1
    }

    /// Row of the tile, counted from the bottom.
    #[verifier::when_used_as_spec(spec_y)]
    pub fn y(&self) -> (y: u32)
        ensures
            y == self.1,
    {
        self.1
    }

    pub open spec fn spec_x_offset(&self) -> u32 {
        self.2
    }

    /// Distance from the tile's left edge.
    #[verifier::when_used_as_spec(spec_x_offset)]
    pub fn x_offset(&self) -> (offset: u32)
        ensures
            offset == self.2,
    {
        self.2
    }

    pub open spec fn spec_y_offset(&self) -> u32 {
        self.3
    }

    /// Distance from the tile's bottom edge.
    #[verifier::when_used_as_spec(spec_y_offset)]
    pub fn y_offset(&self) -> (offset: u32)
        ensures
            offset == self.3,
    {
        self.3
    }

    pub open spec fn spec_tile(&self) -> (u32, u32) {
        (self.0, self.1)
    }

    /// Column and row of the tile.
    #[verifier::when_used_as_spec(spec_tile)]
    pub fn tile(&self) -> (tile: (u32, u32))
        ensures
            tile == (self.0, self.1),
    {
        (self.x(), self.y())
    }

    /// Both offsets lie inside the tile.
    pub open spec fn well_formed(&self) -> bool {
        self.2 < TILE_SIZE && self.3 < TILE_SIZE
    }

    /// Whether the position has reached the middle of its tile, seen along
    /// `facing`: at or beyond it when travelling up or right, short of it when
    /// travelling down or left.
    pub open spec fn is_past_center(&self, facing: Direction) -> bool {
        match facing {
            Direction::Up => self.3 >= TILE_SIZE / 2,
            Direction::Right => self.2 >= TILE_SIZE / 2,
            Direction::Down => self.3 < TILE_SIZE / 2,
            Direction::Left => self.2 < TILE_SIZE / 2,
        }
    }

    pub fn past_center(&self, facing: Direction) -> (past: bool)
        ensures
            past == self.is_past_center(facing),
    {
        let center: u32 = TILE_SIZE / 2;
        match facing {
            Direction::Up => self.y_offset() >= center,
            Direction::Right => self.x_offset() >= center,
            Direction::Down => self.y_offset() < center,
            Direction::Left => self.x_offset() < center,
        }
    }

    /// The way to the middle of the lane for a mover that faces `facing`: none
    /// when the offset across the lane is exactly half a tile, otherwise the
    /// direction that brings it there.
    pub open spec fn alignment(&self, facing: Direction) -> Option<Direction> {
        if facing.is_vertical() {
            if self.2 == TILE_SIZE / 2 {
                None
            } else if self.2 > TILE_SIZE / 2 {
                Some(Direction::Left)
            } else {
                Some(Direction::Right)
            }
        } else {
            if self.3 == TILE_SIZE / 2 {
                None
            } else if self.3 > TILE_SIZE / 2 {
                Some(Direction::Down)
            } else {
                Some(Direction::Up)
            }
        }
    }

    pub fn align(&self, facing: Direction) -> (tweak: Option<Direction>)
        ensures
            tweak == self.alignment(facing),
    {
        let center: u32 = TILE_SIZE / 2;
        match facing {
            Direction::Up | Direction::Down => {
                if self.x_offset() == center {
                    None
                } else if self.x_offset() > center {
                    Some(Direction::Left)
                } else {
                    Some(Direction::Right)
                }
            },
            Direction::Left | Direction::Right => {
                if self.y_offset() == center {
                    None
                } else if self.y_offset() > center {
                    Some(Direction::Down)
                } else {
                    Some(Direction::Up)
                }
            },
        }
    }

    /// The side of the maze that the tile's column lies on, if it is the first
    /// or the last column.
    pub open spec fn side(&self) -> Option<Direction> {
        if self.0 == 0 {
            Some(Direction::Left)
        } else if self.0 == GRID_WIDTH - 1 {
            Some(Direction::Right)
        } else {
            None
        }
    }

    pub fn edge(&self) -> (edge: Option<Direction>)
        ensures
            edge == self.side(),
    {
        if self.x() == 0 {
            Some(Direction::Left)
        } else if self.x() == GRID_WIDTH - 1 {
            Some(Direction::Right)
        } else {
            None
        }
    }
}

impl From<(u32, u32, u32, u32)> for TileInformation {
    fn from(inp: (u32, u32, u32, u32)) -> (info: Self) {
        Self(inp.0, inp.1, inp.2, inp.3)
    }
}

impl vstd::std_specs::convert::FromSpecImpl<(u32, u32, u32, u32)> for TileInformation {
    open spec fn obeys_from_spec() -> bool {
        true
    }

    open spec fn from_spec(inp: (u32, u32, u32, u32)) -> Self {
        TileInformation(inp.0, inp.1, inp.2, inp.3)
    }
}

impl Default for TileInformation {
    fn default() -> (info: Self)
        ensures
            info == TileInformation(0, 0, 0, 0),
    {
        Self(0, 0, 0, 0)
    }
}

/// World coordinate in steps, on one axis, of the point `offset` into tile
/// number `tile`, or of the tile's middle when no offset is given. `origin` is the
/// tile-space coordinate of the maze's first tile on that axis.
pub open spec fn axis_position(origin: int, tile: int, offset: Option<u32>) -> int {
    let inside: int = match offset {
        Some(distance) => distance as int,
        None => (TILE_SIZE / 2) as int,
    };
    (origin + tile * TILE_SIZE + inside) * SCALE * STEPS_PER_UNIT
}

/// World position of a point of a tile: see [`axis_position`].
pub open spec fn position_of_tile(
    x_tile: u32,
    y_tile: u32,
    x_offset: Option<u32>,
    y_offset: Option<u32>,
) -> Position {
    Position {
        x: axis_position(BOX_LEFT as int, x_tile as int, x_offset) as i64,
        y: axis_position(BOX_BOTTOM as int, y_tile as int, y_offset) as i64,
    }
}

/// Tile-space distance of a world coordinate from the maze's first tile on one
/// axis, in whole units rounded down; what lies before the first tile counts as
/// zero, and the distance stops at the largest `u32`.
pub open spec fn axis_distance(origin: int, coordinate: int) -> int {
    let distance: int = coordinate / (SCALE * STEPS_PER_UNIT) - origin;
    if distance < 0 {
        0
    } else if distance > u32::MAX {
        u32::MAX as int
    } else {
        distance
    }
}

/// The tile that a world position lies in, and its offsets inside that tile.
pub open spec fn tile_of_position(translation: Position) -> TileInformation {
    let x: int = axis_distance(BOX_LEFT as int, translation.x as int);
    let y: int = axis_distance(BOX_BOTTOM as int, translation.y as int);
    TileInformation(
        (x / (TILE_SIZE as int)) as u32,
        (y / (TILE_SIZE as int)) as u32,
        (x % (TILE_SIZE as int)) as u32,
        (y % (TILE_SIZE as int)) as u32,
    )
}

fn axis_to_world(origin: i64, tile: u32, offset: Option<u32>) -> (coordinate: i64)
    requires
        -0x1_0000_0000 <= origin <= 0x1_0000_0000,
    ensures
        coordinate == axis_position(origin as int, tile as int, offset),
{
    let inside: i64 = match offset {
        Some(distance) => distance as i64,
        None => (TILE_SIZE / 2) as i64,
    };
    let steps: i64 = SCALE * STEPS_PER_UNIT;
    let distance: i64 = origin + (tile as i64) * (TILE_SIZE as i64) + inside;
    assert(distance * steps == distance * SCALE * STEPS_PER_UNIT) by (nonlinear_arith)
        requires
            steps == SCALE * STEPS_PER_UNIT,
    ;
    distance * steps
}

/// World position of the point `x_offset`, `y_offset` into the tile in column
/// `x_tile` and row `y_tile`. An offset that is not given is half a tile.
pub fn map_tile_to_translation(
    x_tile: u32,
    y_tile: u32,
    x_offset: Option<u32>,
    y_offset: Option<u32>,
) -> (translation: Position)
    ensures
        translation == position_of_tile(x_tile, y_tile, x_offset, y_offset),
{
    Position {
        x: axis_to_world(BOX_LEFT, x_tile, x_offset),
        y: axis_to_world(BOX_BOTTOM, y_tile, y_offset),
    }
}

fn world_to_axis(origin: i64, coordinate: i64) -> (distance: u32)
    requires
        -0x1_0000_0000 <= origin <= 0,
    ensures
        distance == axis_distance(origin as int, coordinate as int),
{
    let steps: i64 = SCALE * STEPS_PER_UNIT;
    if coordinate < origin * steps {
        0
    } else {
        let unscaled: i64 = if coordinate >= 0 {
            coordinate / steps - origin
        } else {
            (coordinate - origin * steps) / steps
        };
        if unscaled > u32::MAX as i64 {
            u32::MAX
        } else {
            unscaled as u32
        }
    }
}

/// Takes a world position apart into its tile and the offsets inside it.
pub fn translation_to_map_tile(translation: &Position) -> (info: TileInformation)
    ensures
        info == tile_of_position(*translation),
        info.well_formed(),
{
    let x: u32 = world_to_axis(BOX_LEFT, translation.x);
    let y: u32 = world_to_axis(BOX_BOTTOM, translation.y);
    TileInformation::from((x / TILE_SIZE, y / TILE_SIZE, x % TILE_SIZE, y % TILE_SIZE))
}

/// Taking a position apart gives back the tile and offsets that it was put
/// together from, whenever the offsets lie inside the tile and the tile lies
/// so that its points have a tile-space distance within `u32`; every tile of
/// the maze does.
pub proof fn lemma_position_round_trip(x_tile: u32, y_tile: u32, x_offset: u32, y_offset: u32)
    requires
        x_offset < TILE_SIZE,
        y_offset < TILE_SIZE,
        x_tile * TILE_SIZE + x_offset <= u32::MAX,
        y_tile * TILE_SIZE + y_offset <= u32::MAX,
    ensures
        tile_of_position(position_of_tile(x_tile, y_tile, Some(x_offset), Some(y_offset)))
            == TileInformation(x_tile, y_tile, x_offset, y_offset),
{
}

/// The middle of a tile lies in that tile, half a tile in on each axis.
pub proof fn lemma_tile_center_round_trip(x_tile: u32, y_tile: u32)
    requires
        x_tile * TILE_SIZE + TILE_SIZE / 2 <= u32::MAX,
        y_tile * TILE_SIZE + TILE_SIZE / 2 <= u32::MAX,
    ensures
        tile_of_position(position_of_tile(x_tile, y_tile, None, None)) == TileInformation(
            x_tile,
            y_tile,
            TILE_SIZE / 2,
            TILE_SIZE / 2,
        ),
{
}

/// Whether column `x`, row `y` names a tile of the maze.
pub open spec fn in_grid(x: int, y: int) -> bool {
    0 <= x < GRID_WIDTH && 0 <= y < GRID_HEIGHT
}

/// Place of tile `x`, `y` in a walkability mask. A mask lists the maze row by
/// row from the top, while rows of tiles are counted from the bottom.
pub open spec fn mask_index(x: int, y: int) -> int {
    (GRID_HEIGHT - 1 - y) * GRID_WIDTH + x
}

/// The tile that a walkability mask puts at `x`, `y`: a walkable tile with
/// nothing on it where the mask is set, a wall elsewhere.
pub open spec fn mask_tile(mask: Seq<bool>, x: int, y: int) -> TileView {
    if mask[mask_index(x, y)] {
        TileView::Path(Multiset::empty())
    } else {
        TileView::Invalid
    }
}

/// The maze that a walkability mask describes.
pub open spec fn mask_layout(mask: Seq<bool>) -> Map<(int, int), TileView> {
    Map::new(|at: (int, int)| in_grid(at.0, at.1), |at: (int, int)| mask_tile(mask, at.0, at.1))
}

/// The coordinates one step from `x`, `y` in `direction`.
pub open spec fn neighbor(x: int, y: int, direction: Direction) -> (int, int) {
    match direction {
        Direction::Up => (x, y + 1),
        Direction::Right => (x + 1, y),
        Direction::Down => (x, y - 1),
        Direction::Left => (x - 1, y),
    }
}

/// The tile of the maze one step from `x`, `y` in `direction`, if the step
/// stays inside the maze. The maze does not wrap around.
pub open spec fn adjacent_tile(x: int, y: int, direction: Direction) -> Option<(int, int)> {
    let next: (int, int) = neighbor(x, y, direction);
    if in_grid(next.0, next.1) {
        Some(next)
    } else {
        None
    }
}

/// Whether the step from `x`, `y` in `direction` ends on a walkable tile of
/// `maze`.
pub open spec fn way_open(
    maze: Map<(int, int), TileView>,
    x: int,
    y: int,
    direction: Direction,
) -> bool {
    match adjacent_tile(x, y, direction) {
        Some(next) => maze[next] is Path,
        None => false,
    }
}

fn tile_from_mask(mask: &[bool; MASK_LEN], x: usize, y: usize) -> (tile: Tile)
    requires
        in_grid(x as int, y as int),
    ensures
        tile@ == mask_tile(mask@, x as int, y as int),
{
    let row: usize = GRID_HEIGHT as usize - 1 - y;
    if mask[row * (GRID_WIDTH as usize) + x] {
        Tile::Path(PathTile::default())
    } else {
        Tile::Invalid
    }
}

/// The tiles of a maze, in an `ndarray::Array2` indexed by column and row.
#[verifier::external_body]
pub struct TileTable {
    cells: Array2<Tile>,
}

/// The tiles of a table, each under its column and row.
pub uninterp spec fn table_cells(table: TileTable) -> Map<(int, int), Tile>;

/// `ndarray::ArrayBase::from_shape_fn`: a table of `width` columns and
/// `height` rows, whose tile at each index is the one that the mask gives for
/// that index.
#[verifier::external_body]
fn table_from_mask(width: usize, height: usize, mask: &[bool; MASK_LEN]) -> (table: TileTable)
    requires
        width == GRID_WIDTH,
        height == GRID_HEIGHT,
    ensures
        forall|x: int, y: int|
            (0 <= x < width && 0 <= y < height) <==> #[trigger] table_cells(table).dom().contains(
                (x, y),
            ),
        forall|x: int, y: int|
            0 <= x < width && 0 <= y < height ==> (#[trigger] table_cells(table)[(x, y)])@
                == mask_tile(mask@, x, y),
{
    TileTable { cells: Array2::from_shape_fn((width, height), |(x, y)| tile_from_mask(mask, x, y)) }
}

/// `ndarray::ArrayBase::get`: the tile at column `x`, row `y`, or nothing where
/// the table has no such index.
#[verifier::external_body]
fn table_get(table: &TileTable, x: usize, y: usize) -> (found: Option<&Tile>)
    ensures
        found is Some <==> table_cells(*table).dom().contains((x as int, y as int)),
        found matches Some(tile) ==> *tile == table_cells(*table)[(x as int, y as int)],
{
    table.cells.get((x, y))
}

/// The maze: a fixed table of tiles, `GRID_WIDTH` columns by `GRID_HEIGHT`
/// rows, with column 0 on the left and row 0 at the bottom.
pub struct MazeGrid {
    tiles: TileTable,
}

impl View for MazeGrid {
    type V = Map<(int, int), TileView>;

    /// The tile at each column and row of the maze.
    closed spec fn view(&self) -> Map<(int, int), TileView> {
        Map::new(
            |at: (int, int)| in_grid(at.0, at.1),
            |at: (int, int)| table_cells(self.tiles)[at]@,
        )
    }
}

impl MazeGrid {
    #[verifier::type_invariant]
    spec fn covers_grid(self) -> bool {
        forall|x: int, y: int|
            in_grid(x, y) <==> #[trigger] table_cells(self.tiles).dom().contains((x, y))
    }

    /// The view of a maze holds exactly the tiles of the grid.
    pub proof fn lemma_view_domain(&self)
        ensures
            forall|x: int, y: int| in_grid(x, y) <==> #[trigger] self@.dom().contains((x, y)),
    {
    }

    /// Builds the maze that `mask` describes.
    pub fn from_mask(mask: &[bool; MASK_LEN]) -> (grid: MazeGrid)
        ensures
            grid@ == mask_layout(mask@),
    {
        let grid = MazeGrid {
            tiles: table_from_mask(GRID_WIDTH as usize, GRID_HEIGHT as usize, mask),
        };
        assert(grid@ =~= mask_layout(mask@));
        grid
    }

    /// The tile at column `x`, row `y` and the world position of its middle,
    /// or nothing if the maze has no such tile.
    pub fn try_tile(&self, x: u32, y: u32) -> (found: Option<(Tile, Position)>)
        ensures
            found is Some <==> in_grid(x as int, y as int),
            found matches Some((tile, center)) ==> tile@ == self@[(x as int, y as int)] && center
                == position_of_tile(x, y, None, None),
    {
        proof {
            use_type_invariant(self);
        }
        match table_get(&self.tiles, x as usize, y as usize) {
            Some(tile) => Some((tile.clone(), map_tile_to_translation(x, y, None, None))),
            None => None,
        }
    }

    /// The tile at column `x`, row `y` and the world position of its middle.
    pub fn get_tile(&self, x: u32, y: u32) -> (found: (Tile, Position))
        requires
            in_grid(x as int, y as int),
        ensures
            found.0@ == self@[(x as int, y as int)],
            found.1 == position_of_tile(x, y, None, None),
    {
        match self.try_tile(x, y) {
            Some(found) => found,
            None => {
                proof {
                    assert(false);
                }
                (Tile::Invalid, map_tile_to_translation(x, y, None, None))
            },
        }
    }

    /// The tile one step from column `x`, row `y` in `direction`: its
    /// coordinates, the tile and the world position of its middle; nothing if
    /// that step leaves the maze.
    pub fn get_adjacent(&self, x: u32, y: u32, direction: Direction) -> (found: Option<
        ((u32, u32), Tile, Position),
    >)
        ensures
            found is Some <==> adjacent_tile(x as int, y as int, direction) is Some,
            found matches Some((at, tile, center)) ==> {
                &&& Some((at.0 as int, at.1 as int)) == adjacent_tile(x as int, y as int, direction)
                &&& tile@ == self@[(at.0 as int, at.1 as int)]
                &&& center == position_of_tile(at.0, at.1, None, None)
            },
    {
        let (x, y): (u32, u32) = match direction {
            Direction::Up => {
                if y >= GRID_HEIGHT - 1 {
                    return None;
                }
                (x, y + 1)
            },
            Direction::Right => {
                if x >= GRID_WIDTH - 1 {
                    return None;
                }
                (x + 1, y)
            },
            Direction::Down => {
                if y == 0 {
                    return None;
                }
                (x, y - 1)
            },
            Direction::Left => {
                if x == 0 {
                    return None;
                }
                (x - 1, y)
            },
        };
        match self.try_tile(x, y) {
            Some((tile, center)) => Some(((x, y), tile, center)),
            None => None,
        }
    }

    /// Whether a mover on the tile at `x`, `y` can step in `direction`: the
    /// maze has a tile there, and it is walkable.
    pub fn leads_to_path(&self, x: u32, y: u32, direction: Direction) -> (open: bool)
        ensures
            open == way_open(self@, x as int, y as int, direction),
    {
        match self.get_adjacent(x, y, direction) {
            Some((_, tile, _)) => tile.is_valid_path(),
            None => false,
        }
    }
}

impl Default for MazeGrid {
    /// The reference maze.
    fn default() -> (grid: MazeGrid)
        ensures
            grid@ == mask_layout(MAP_PATH_VALIDITY@),
    {
        MazeGrid::from_mask(&MAP_PATH_VALIDITY)
    }
}

/// No tile lies to the left of the first column or to the right of the last
/// one, whatever the row.
pub proof fn lemma_no_neighbor_past_sides(y: int)
    ensures
        adjacent_tile(0, y, Direction::Left) is None,
        adjacent_tile(GRID_WIDTH - 1, y, Direction::Right) is None,
{
}

/// No tile lies below the first row or above the last one, whatever the
/// column.
pub proof fn lemma_no_neighbor_past_ends(x: int)
    ensures
        adjacent_tile(x, 0, Direction::Down) is None,
        adjacent_tile(x, GRID_HEIGHT - 1, Direction::Up) is None,
{
}

} // verus!
