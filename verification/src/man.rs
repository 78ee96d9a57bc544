//! The player's mover: from pressed keys to a change of direction.

use crate::consts::{Direction, SPEED};
use crate::geometry::Velocity;
use crate::map::{way_open, MazeGrid};
use crate::sprite::{Sprite, SpriteView};
use crate::tile::TileView;
use vstd::prelude::*;

verus! {

/// The direction that the pressed keys ask for: up before left, left before
/// down, down before right; none if no key is pressed.
pub open spec fn intent(up: bool, left: bool, down: bool, right: bool) -> Option<Direction> {
    if up {
        Some(Direction::Up)
    } else if left {
        Some(Direction::Left)
    } else if down {
        Some(Direction::Down)
    } else if right {
        Some(Direction::Right)
    } else {
        None
    }
}

/// The direction that the pressed keys ask for.
pub fn pressed_direction(up: bool, left: bool, down: bool, right: bool) -> (direction: Option<
    Direction,
>)
    ensures
        direction == intent(up, left, down, right),
{
    if up {
        Some(Direction::Up)
    } else if left {
        Some(Direction::Left)
    } else if down {
        Some(Direction::Down)
    } else if right {
        Some(Direction::Right)
    } else {
        None
    }
}

/// The velocity of a mover that travels in `direction`: `SPEED` along it.
pub open spec fn heading(direction: Direction) -> Velocity {
    match direction {
        Direction::Up => Velocity { x: 0, y: SPEED },
        Direction::Left => Velocity { x: (-SPEED) as i32, y: 0 },
        Direction::Down => Velocity { x: 0, y: (-SPEED) as i32 },
        Direction::Right => Velocity { x: SPEED, y: 0 },
    }
}

/// The velocity of a mover that travels in `direction`.
pub fn direction_velocity(direction: Direction) -> (velocity: Velocity)
    ensures
        velocity == heading(direction),
        velocity.is_along(direction),
{
    match direction {
        Direction::Up => Velocity { x: 0, y: SPEED },
        Direction::Left => Velocity { x: -SPEED, y: 0 },
        Direction::Down => Velocity { x: 0, y: -SPEED },
        Direction::Right => Velocity { x: SPEED, y: 0 },
    }
}

/// The frames that show the player travelling in `direction`.
pub open spec fn frames(direction: Direction) -> Seq<u32> {
    match direction {
        Direction::Up => seq![28u32, 29u32, 2u32],
        Direction::Left => seq![14u32, 15u32, 2u32],
        Direction::Down => seq![42u32, 43u32, 2u32],
        Direction::Right => seq![0u32, 1u32, 2u32],
    }
}

/// The frames that show the player travelling in `direction`.
pub fn direction_frames(direction: Direction) -> (indexes: Vec<u32>)
    ensures
        indexes@ == frames(direction),
{
    let indexes: Vec<u32> = match direction {
        Direction::Up => vec![28, 29, 2],
        Direction::Left => vec![14, 15, 2],
        Direction::Down => vec![42, 43, 2],
        Direction::Right => vec![0, 1, 2],
    };
    assert(indexes@ =~= frames(direction));
    indexes
}

/// The state of the player's mover after the keys asked for `wish` in `maze`:
/// the turn is taken if the tile next to the mover's in that direction is
/// walkable, and nothing changes otherwise.
pub open spec fn steered(
    maze: Map<(int, int), TileView>,
    sprite: SpriteView,
    wish: Option<Direction>,
) -> SpriteView {
    match wish {
        Some(direction) => if way_open(
            maze,
            sprite.tile_info.0 as int,
            sprite.tile_info.1 as int,
            direction,
        ) {
            sprite.updated(heading(direction), direction, frames(direction))
        } else {
            sprite
        },
        None => sprite,
    }
}

/// A wish that leads off the maze or onto a tile that is not walkable leaves
/// the mover's velocity, facing and everything else as they were.
pub proof fn lemma_blocked_turn_changes_nothing(
    maze: Map<(int, int), TileView>,
    sprite: SpriteView,
    direction: Direction,
)
    requires
        !way_open(maze, sprite.tile_info.0 as int, sprite.tile_info.1 as int, direction),
    ensures
        steered(maze, sprite, Some(direction)) == sprite,
{
}

/// Hands a wish for a direction to the player's mover and says whether the
/// mover took it up. A wish that leads off the maze or into a wall leaves the
/// mover as it was.
pub fn man_input(wish: Option<Direction>, map: &MazeGrid, sprite: &mut Sprite) -> (taken: bool)
    ensures
        final(sprite)@ == steered(map@, old(sprite)@, wish),
        taken == (wish matches Some(direction) && way_open(
            map@,
            old(sprite)@.tile_info.0 as int,
            old(sprite)@.tile_info.1 as int,
            direction,
        )),
        !taken ==> final(sprite)@ == old(sprite)@,
{
    match wish {
        Some(direction) => {
            let (x, y): (u32, u32) = sprite.tile_info().tile();
            if map.leads_to_path(x, y, direction) {
                sprite.update(
                    direction_velocity(direction),
                    direction,
                    direction_frames(direction),
                );
                true
            } else {
                false
            }
        },
        None => false,
    }
}

} // verus!
