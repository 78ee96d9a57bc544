//! The reference maze, as a walkability mask.

use vstd::prelude::*;

verus! {

/// A wall or the void: a cell no mover can enter.
pub const I: bool = false;

/// A walkable cell.
pub const X: bool = true;

/// Number of cells in a walkability mask: one per tile of the maze.
pub const MASK_LEN: usize = 1008;

/// The reference maze, one row of the maze per line, the top row first and
/// each row from left to right.
pub const MAP_PATH_VALIDITY: [bool; MASK_LEN] = [
    I, I, I, I, I, I, I, I, I, I, I, I, I, I, I, I, I, I, I, I, I, I, I, I, I, I, I, I,
    I, I, I, I, I, I, I, I, I, I, I, I, I, I, I, I, I, I, I, I, I, I, I, I, I, I, I, I,
    I, I, I, I, I, I, I, I, I, I, I, I, I, I, I, I, I, I, I, I, I, I, I, I, I, I, I, I,
    I, I, I, I, I, I, I, I, I, I, I, I, I, I, I, I, I, I, I, I, I, I, I, I, I, I, I, I,
    I, X, X, X, X, X, X, X, X, X, X, X, X, I, I, X, X, X, X, X, X, X, X, X, X, X, X, I,
    I, X, I, I, I, I, X, I, I, I, I, I, X, I, I, X, I, I, I, I, I, X, I, I, I, I, X, I,
    I, X, I, I, I, I, X, I, I, I, I, I, X, I, I, X, I, I, I, I, I, X, I, I, I, I, X, I,
    I, X, I, I, I, I, X, I, I, I, I, I, X, I, I, X, I, I, I, I, I, X, I, I, I, I, X, I,
    I, X, X, X, X, X, X, X, X, X, X, X, X, X, X, X, X, X, X, X, X, X, X, X, X, X, X, I,
    I, X, I, I, I, I, X, I, I, X, I, I, I, I, I, I, I, I, X, I, I, X, I, I, I, I, X, I,
    I, X, I, I, I, I, X, I, I, X, I, I, I, I, I, I, I, I, X, I, I, X, I, I, I, I, X, I,
    I, X, X, X, X, X, X, I, I, X, X, X, X, I, I, X, X, X, X, I, I, X, X, X, X, X, X, I,
    I, I, I, I, I, I, X, I, I, I, I, I, X, I, I, X, I, I, I, I, I, X, I, I, I, I, I, I,
    I, I, I, I, I, I, X, I, I, I, I, I, X, I, I, X, I, I, I, I, I, X, I, I, I, I, I, I,
    I, I, I, I, I, I, X, I, I, X, X, X, X, X, X, X, X, X, X, I, I, X, I, I, I, I, I, I,
    I, I, I, I, I, I, X, I, I, X, I, I, I, I, I, I, I, I, X, I, I, X, I, I, I, I, I, I,
    I, I, I, I, I, I, X, I, I, X, I, I, I, I, I, I, I, I, X, I, I, X, I, I, I, I, I, I,
    X, X, X, X, X, X, X, X, X, X, I, I, I, I, I, I, I, I, X, X, X, X, X, X, X, X, X, X,
    I, I, I, I, I, I, X, I, I, X, I, I, I, I, I, I, I, I, X, I, I, X, I, I, I, I, I, I,
    I, I, I, I, I, I, X, I, I, X, I, I, I, I, I, I, I, I, X, I, I, X, I, I, I, I, I, I,
    I, I, I, I, I, I, X, I, I, X, X, X, X, X, X, X, X, X, X, I, I, X, I, I, I, I, I, I,
    I, I, I, I, I, I, X, I, I, X, I, I, I, I, I, I, I, I, X, I, I, X, I, I, I, I, I, I,
    I, I, I, I, I, I, X, I, I, X, I, I, I, I, I, I, I, I, X, I, I, X, I, I, I, I, I, I,
    I, X, X, X, X, X, X, X, X, X, X, X, X, I, I, X, X, X, X, X, X, X, X, X, X, X, X, I,
    I, X, I, I, I, I, X, I, I, I, I, I, X, I, I, X, I, I, I, I, I, X, I, I, I, I, X, I,
    I, X, I, I, I, I, X, I, I, I, I, I, X, I, I, X, I, I, I, I, I, X, I, I, I, I, X, I,
    I, X, X, X, I, I, X, X, X, X, X, X, X, X, X, X, X, X, X, X, X, X, I, I, X, X, X, I,
    I, I, I, X, I, I, X, I, I, X, I, I, I, I, I, I, I, I, X, I, I, X, I, I, X, I, I, I,
    I, I, I, X, I, I, X, I, I, X, I, I, I, I, I, I, I, I, X, I, I, X, I, I, X, I, I, I,
    I, X, X, X, X, X, X, I, I, X, X, X, X, I, I, X, X, X, X, I, I, X, X, X, X, X, X, I,
    I, X, I, I, I, I, I, I, I, I, I, I, X, I, I, X, I, I, I, I, I, I, I, I, I, I, X, I,
    I, X, I, I, I, I, I, I, I, I, I, I, X, I, I, X, I, I, I, I, I, I, I, I, I, I, X, I,
    I, X, X, X, X, X, X, X, X, X, X, X, X, X, X, X, X, X, X, X, X, X, X, X, X, X, X, I,
    I, I, I, I, I, I, I, I, I, I, I, I, I, I, I, I, I, I, I, I, I, I, I, I, I, I, I, I,
    I, I, I, I, I, I, I, I, I, I, I, I, I, I, I, I, I, I, I, I, I, I, I, I, I, I, I, I,
    I, I, I, I, I, I, I, I, I, I, I, I, I, I, I, I, I, I, I, I, I, I, I, I, I, I, I, I,
];

} // verus!
