//! The cells of the maze: walls, and walkable tiles with their occupants.

use smallvec::SmallVec;
use vstd::multiset::Multiset;
use vstd::prelude::*;

verus! {

/// Something that can sit on a walkable tile besides the player.
#[derive(Copy, Clone, Debug, PartialEq, Eq, Structural)]
pub enum TileActor {
    Monster,
    Bonus,
}

/// A walkable tile: the actors that currently occupy it, kept in a
/// `smallvec::SmallVec` with room for eight before it allocates.
#[verifier::external_body]
pub struct PathTile {
    contents: SmallVec<[TileActor; 8]>,
}

/// The actors on a walkable tile, without their order.
pub uninterp spec fn path_tile_actors(tile: PathTile) -> Multiset<TileActor>;

/// `SmallVec::default`: a tile whose list of actors is empty.
#[verifier::external_body]
fn vacant_path_tile() -> (tile: PathTile)
    ensures
        path_tile_actors(tile) == Multiset::<TileActor>::empty(),
{
    PathTile { contents: SmallVec::default() }
}

/// `SmallVec::clone`: a tile with a copy of each actor of `tile`.
#[verifier::external_body]
fn copied_path_tile(tile: &PathTile) -> (copy: PathTile)
    ensures
        path_tile_actors(copy) == path_tile_actors(*tile),
{
    PathTile { contents: tile.contents.clone() }
}

/// `SmallVec`'s view as a slice, copied out with `to_vec`: the actors on
/// `tile`, in the order in which the tile holds them.
#[verifier::external_body]
fn listed_actors(tile: &PathTile) -> (actors: Vec<TileActor>)
    ensures
        actors@.to_multiset() == path_tile_actors(*tile),
{
    tile.contents.to_vec()
}

impl View for PathTile {
    type V = Multiset<TileActor>;

    open spec fn view(&self) -> Multiset<TileActor> {
        path_tile_actors(*self)
    }
}

impl PathTile {
    /// The actors on this tile.
    pub fn occupants(&self) -> (actors: Vec<TileActor>)
        ensures
            actors@.to_multiset() == self@,
    {
        listed_actors(self)
    }
}

impl Default for PathTile {
    /// A walkable tile with nothing on it.
    fn default() -> (tile: PathTile)
        ensures
            tile@ == Multiset::<TileActor>::empty(),
    {
        vacant_path_tile()
    }
}

impl Clone for PathTile {
    fn clone(&self) -> (copy: PathTile)
        ensures
            copy@ == self@,
    {
        copied_path_tile(self)
    }
}

/// One cell of the maze.
pub enum Tile {
    /// A wall or the void.
    Invalid,
    /// A walkable cell.
    Path(PathTile),
}

/// What a tile is, to a specification: its kind and, if walkable, its occupants.
pub enum TileView {
    Invalid,
    Path(Multiset<TileActor>),
}

impl View for Tile {
    type V = TileView;

    open spec fn view(&self) -> TileView {
        match self {
            Tile::Invalid => TileView::Invalid,
            Tile::Path(path) => TileView::Path(path@),
        }
    }
}

impl Tile {
    /// Whether a mover may stand on this tile.
    pub fn is_valid_path(&self) -> (valid: bool)
        ensures
            valid == (self@ is Path),
    {
        match self {
            Tile::Path(_) => true,
            _ => false,
        }
    }
}

impl Clone for Tile {
    fn clone(&self) -> (copy: Tile)
        ensures
            copy@ == self@,
    {
        match self {
            Tile::Invalid => Tile::Invalid,
            Tile::Path(path) => Tile::Path(path.clone()),
        }
    }
}

} // verus!
