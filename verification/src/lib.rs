//! Movement and collision core of a tile-grid maze game.
//!
//! The maze is a fixed grid of tiles. The crate maps world positions to tiles
//! and back, answers walkability and adjacency queries, and resolves a mover's
//! changes of direction and its movement tick by tick, with cornering and the
//! horizontal tunnel.
//!
//! All quantities are integers. A position counts steps, a million to the
//! world unit; a velocity counts world units per second; a tick's length
//! counts microseconds. The movement of a tick is then velocity times length,
//! exactly. A coordinate that would leave the range of `i64` stops at the end
//! of that range.

pub mod consts;
pub mod geometry;
pub mod layout;
pub mod man;
pub mod map;
pub mod sprite;
pub mod tile;
