//! A mover, and what one tick of time does to it.

use crate::consts::{
    Direction, BOX_LEFT, GRID_WIDTH, SCALE, STEPS_PER_UNIT, TELEPORT_DISTANCE,
};
use crate::geometry::{
    axis_displacement, magnitude, saturate, shift, shift_back, shift_down_by, shift_up_by,
    Position, Velocity,
};
use crate::map::{
    in_grid, tile_of_position, translation_to_map_tile, way_open, MazeGrid, TileInformation,
};
use crate::tile::TileView;
use vstd::prelude::*;

verus! {

/// A moving entity: where it looks, how fast it travels, the tile it was last
/// seen in, and the state of its animation.
pub struct Sprite {
    facing: Direction,
    velocity: Velocity,
    texture_indexes: Vec<u32>,
    animating: bool,
    animation_tick: u32,
    tile_info: TileInformation,
}

/// The state of a [`Sprite`], as specifications see it.
pub struct SpriteView {
    pub facing: Direction,
    pub velocity: Velocity,
    pub texture_indexes: Seq<u32>,
    pub animating: bool,
    pub animation_tick: u32,
    pub tile_info: TileInformation,
}

impl View for Sprite {
    type V = SpriteView;

    closed spec fn view(&self) -> SpriteView {
        SpriteView {
            facing: self.facing,
            velocity: self.velocity,
            texture_indexes: self.texture_indexes@,
            animating: self.animating,
            animation_tick: self.animation_tick,
            tile_info: self.tile_info,
        }
    }
}

impl SpriteView {
    /// The state after a change of direction has been taken up: the new
    /// velocity in any case; the new facing, the new animation and a counter
    /// back at zero only if the facing differs.
    pub open spec fn updated(self, velocity: Velocity, facing: Direction, indexes: Seq<u32>) -> SpriteView {
        if facing != self.facing {
            SpriteView { velocity, facing, texture_indexes: indexes, animation_tick: 0, ..self }
        } else {
            SpriteView { velocity, ..self }
        }
    }

    /// What holds of every sprite: it travels along the axis it faces, and its
    /// animation counter points into its animation or is zero.
    pub open spec fn consistent(self) -> bool {
        &&& self.velocity.is_along(self.facing)
        &&& (self.animation_tick == 0 || self.animation_tick < self.texture_indexes.len())
    }
}

impl Sprite {
    #[verifier::type_invariant]
    spec fn holds_together(self) -> bool {
        self@.consistent()
    }

    /// Every sprite is consistent.
    pub fn consistency(&self)
        ensures
            self@.consistent(),
    {
        proof {
            use_type_invariant(self);
        }
    }

    /// A sprite at rest that faces `direction` and shows `indexes`.
    pub fn new(direction: Direction, indexes: Vec<u32>) -> (sprite: Self)
        ensures
            sprite@ == (SpriteView {
                facing: direction,
                velocity: Velocity { x: 0, y: 0 },
                texture_indexes: indexes@,
                animating: false,
                animation_tick: 0,
                tile_info: TileInformation(0, 0, 0, 0),
            }),
    {
        Self {
            facing: direction,
            velocity: Velocity { x: 0, y: 0 },
            texture_indexes: indexes,
            animating: false,
            animation_tick: 0,
            tile_info: TileInformation::default(),
        }
    }

    /// Takes up a change of direction. `velocity` must run along `facing`.
    pub fn update(&mut self, velocity: Velocity, facing: Direction, indexes: Vec<u32>)
        requires
            velocity.is_along(facing),
        ensures
            final(self)@ == old(self)@.updated(velocity, facing, indexes@),
    {
        proof {
            use_type_invariant(&*self);
        }
        if facing != self.facing {
            *self = Self {
                facing,
                velocity,
                texture_indexes: indexes,
                animating: self.animating,
                animation_tick: 0,
                tile_info: self.tile_info,
            };
        } else {
            self.velocity = velocity;
        }
    }

    /// Records the tile that the sprite is in.
    pub fn update_tile_information(&mut self, tile_info: TileInformation)
        ensures
            final(self)@ == (SpriteView { tile_info, ..old(self)@ }),
    {
        proof {
            use_type_invariant(&*self);
        }
        self.tile_info = tile_info
    }

    /// The tile that the sprite was last seen in.
    pub fn tile_info(&self) -> (info: TileInformation)
        ensures
            info == self@.tile_info,
    {
        self.tile_info
    }

    /// The direction that the sprite faces.
    pub fn facing(&self) -> (facing: Direction)
        ensures
            facing == self@.facing,
    {
        self.facing
    }

    /// The velocity of the sprite.
    pub fn velocity(&self) -> (velocity: Velocity)
        ensures
            velocity == self@.velocity,
    {
        self.velocity
    }

    /// The frames of the sprite's animation.
    pub fn texture_indexes(&self) -> (indexes: &Vec<u32>)
        ensures
            indexes@ == self@.texture_indexes,
    {
        &self.texture_indexes
    }

    /// Whether the sprite's last move went through.
    pub fn animating(&self) -> (animating: bool)
        ensures
            animating == self@.animating,
    {
        self.animating
    }

    /// The place of the current frame in the animation.
    pub fn animation_tick(&self) -> (tick: u32)
        ensures
            tick == self@.animation_tick,
    {
        self.animation_tick
    }
}

/// Whether a mover that faces `facing` may move to the place that `info`
/// describes: the maze has that tile, and once the mover is past the tile's
/// middle the next tile in its direction is walkable too.
pub open spec fn move_allowed(
    maze: Map<(int, int), TileView>,
    info: TileInformation,
    facing: Direction,
) -> bool {
    &&& in_grid(info.0 as int, info.1 as int)
    &&& info.is_past_center(facing) ==> way_open(maze, info.0 as int, info.1 as int, facing)
}

/// A position after the nudge toward the middle of the lane: `tweak` names the
/// axis and the sense, the movement on the other axis gives the size.
pub open spec fn cornered(
    translation: Position,
    tweak: Option<Direction>,
    x_movement: int,
    y_movement: int,
) -> Position {
    match tweak {
        None => translation,
        Some(Direction::Up) => translation.translated(0, magnitude(x_movement)),
        Some(Direction::Right) => translation.translated(magnitude(y_movement), 0),
        Some(Direction::Down) => translation.translated(0, -magnitude(x_movement)),
        Some(Direction::Left) => translation.translated(-magnitude(y_movement), 0),
    }
}

/// Whether a mover that faces `facing` in the tile of `info` goes through the
/// tunnel: it faces the side of the maze that its tile lies on.
pub open spec fn teleports(info: TileInformation, facing: Direction) -> bool {
    (facing == Direction::Right || facing == Direction::Left) && info.side() == Some(facing)
}

/// A position after the tunnel, for a mover that goes through it: the other
/// end lies `TELEPORT_DISTANCE` against the direction of travel.
pub open spec fn teleported(translation: Position, facing: Direction) -> Position {
    if facing == Direction::Right {
        translation.translated(-TELEPORT_DISTANCE, 0)
    } else {
        translation.translated(TELEPORT_DISTANCE as int, 0)
    }
}

/// The state of a sprite and its position after a tick of `micros`
/// microseconds in `maze`.
pub open spec fn moved(
    maze: Map<(int, int), TileView>,
    sprite: SpriteView,
    translation: Position,
    micros: int,
) -> (SpriteView, Position) {
    let x_movement: int = axis_displacement(sprite.velocity.x as int, micros);
    let y_movement: int = axis_displacement(sprite.velocity.y as int, micros);
    let proposed: Position = translation.translated(x_movement, y_movement);
    let info: TileInformation = tile_of_position(proposed);
    if move_allowed(maze, info, sprite.facing) {
        let corrected: Position = cornered(
            proposed,
            info.alignment(sprite.facing),
            x_movement,
            y_movement,
        );
        if teleports(info, sprite.facing) {
            let landed: Position = teleported(corrected, sprite.facing);
            (SpriteView { animating: true, tile_info: tile_of_position(landed), ..sprite }, landed)
        } else {
            (SpriteView { animating: true, tile_info: info, ..sprite }, corrected)
        }
    } else {
        (SpriteView { animating: false, ..sprite }, translation)
    }
}

/// Nudges `translation` toward the middle of the lane that a mover facing
/// `facing` travels in. The nudge is as large as this tick's movement along
/// the lane; the axis that is nudged must not have moved by itself.
pub fn adjust_for_cornering(
    tile_info: TileInformation,
    facing: Direction,
    translation: &mut Position,
    x_movement: i64,
    y_movement: i64,
)
    requires
        facing.is_vertical() && tile_info.alignment(facing) is Some ==> x_movement == 0,
        !facing.is_vertical() && tile_info.alignment(facing) is Some ==> y_movement == 0,
    ensures
        *final(translation) == cornered(
            *old(translation),
            tile_info.alignment(facing),
            x_movement as int,
            y_movement as int,
        ),
        tile_info.alignment(facing) == Some(Direction::Up) ==> {
            &&& final(translation).x == old(translation).x
            &&& old(translation).y + magnitude(x_movement as int) <= i64::MAX ==> final(translation).y
                == old(translation).y + magnitude(x_movement as int)
        },
        tile_info.alignment(facing) == Some(Direction::Down) ==> {
            &&& final(translation).x == old(translation).x
            &&& old(translation).y - magnitude(x_movement as int) >= i64::MIN ==> final(translation).y
                == old(translation).y - magnitude(x_movement as int)
        },
        tile_info.alignment(facing) == Some(Direction::Right) ==> {
            &&& final(translation).y == old(translation).y
            &&& old(translation).x + magnitude(y_movement as int) <= i64::MAX ==> final(translation).x
                == old(translation).x + magnitude(y_movement as int)
        },
        tile_info.alignment(facing) == Some(Direction::Left) ==> {
            &&& final(translation).y == old(translation).y
            &&& old(translation).x - magnitude(y_movement as int) >= i64::MIN ==> final(translation).x
                == old(translation).x - magnitude(y_movement as int)
        },
        tile_info.alignment(facing) is None ==> *final(translation) == *old(translation),
{
    if let Some(tweak) = tile_info.align(facing) {
        match tweak {
            Direction::Up => {
                translation.y = shift_up_by(translation.y, x_movement);
            },
            Direction::Right => {
                translation.x = shift_up_by(translation.x, y_movement);
            },
            Direction::Down => {
                translation.y = shift_down_by(translation.y, x_movement);
            },
            Direction::Left => {
                translation.x = shift_down_by(translation.x, y_movement);
            },
        }
    }
}

/// Takes a mover through the tunnel if it faces the side of the maze that its
/// tile lies on: `translation` jumps to the other end and the tile is worked
/// out anew. Otherwise nothing changes and `tile_info` comes back.
pub fn tunnel_teleport(
    tile_info: TileInformation,
    facing: Direction,
    translation: &mut Position,
) -> (info: TileInformation)
    ensures
        teleports(tile_info, facing) ==> *final(translation) == teleported(
            *old(translation),
            facing,
        ) && info == tile_of_position(*final(translation)),
        !teleports(tile_info, facing) ==> *final(translation) == *old(translation) && info
            == tile_info,
        facing == Direction::Right && tile_info.side() == Some(Direction::Right) ==> {
            &&& final(translation).x == saturate(old(translation).x - TELEPORT_DISTANCE)
            &&& final(translation).y == old(translation).y
        },
        facing == Direction::Left && tile_info.side() == Some(Direction::Left) ==> {
            &&& final(translation).x == saturate(old(translation).x + TELEPORT_DISTANCE)
            &&& final(translation).y == old(translation).y
        },
{
    match (facing, tile_info.edge()) {
        (Direction::Right, Some(Direction::Right)) => {
            translation.x = shift_back(translation.x, TELEPORT_DISTANCE);
            translation_to_map_tile(translation)
        },
        (Direction::Left, Some(Direction::Left)) => {
            translation.x = shift(translation.x, TELEPORT_DISTANCE);
            translation_to_map_tile(translation)
        },
        _ => tile_info,
    }
}

/// Moves a sprite through one tick of `elapsed_micros` microseconds. The
/// position that its velocity proposes is taken if the maze allows it, after
/// cornering and the tunnel; if not, the sprite stays where it was and stops
/// animating.
pub fn move_sprite(
    map: &MazeGrid,
    sprite: &mut Sprite,
    translation: &mut Position,
    elapsed_micros: u32,
)
    ensures
        (final(sprite)@, *final(translation)) == moved(
            map@,
            old(sprite)@,
            *old(translation),
            elapsed_micros as int,
        ),
        !move_allowed(
            map@,
            tile_of_position(
                old(translation).translated(
                    axis_displacement(old(sprite)@.velocity.x as int, elapsed_micros as int),
                    axis_displacement(old(sprite)@.velocity.y as int, elapsed_micros as int),
                ),
            ),
            old(sprite)@.facing,
        ) ==> *final(translation) == *old(translation) && final(sprite)@ == (SpriteView {
            animating: false,
            ..old(sprite)@
        }),
{
    proof {
        use_type_invariant(&*sprite);
    }
    let (x_movement, y_movement): (i64, i64) = sprite.velocity.displacement(elapsed_micros);
    let mut new_translation: Position = translation.translate(x_movement, y_movement);

    let new_tile_info: TileInformation = translation_to_map_tile(&new_translation);
    let (x, y): (u32, u32) = new_tile_info.tile();
    let is_valid_move: bool = match map.try_tile(x, y) {
        Some(_) => {
            if new_tile_info.past_center(sprite.facing) {
                map.leads_to_path(x, y, sprite.facing)
            } else {
                true
            }
        },
        None => false,
    };
    if is_valid_move {
        adjust_for_cornering(
            new_tile_info,
            sprite.facing,
            &mut new_translation,
            x_movement,
            y_movement,
        );
        let new_tile_info: TileInformation = tunnel_teleport(
            new_tile_info,
            sprite.facing,
            &mut new_translation,
        );
        *translation = new_translation;
        sprite.update_tile_information(new_tile_info);
        sprite.animating = true;
    } else {
        sprite.animating = false;
    }
}

/// A move that the maze does not allow leaves the position where it was and
/// the sprite as it was, but for its animation, which stops.
pub proof fn lemma_rejected_move_keeps_position(
    maze: Map<(int, int), TileView>,
    sprite: SpriteView,
    translation: Position,
    micros: int,
)
    requires
        !move_allowed(
            maze,
            tile_of_position(
                translation.translated(
                    axis_displacement(sprite.velocity.x as int, micros),
                    axis_displacement(sprite.velocity.y as int, micros),
                ),
            ),
            sprite.facing,
        ),
    ensures
        moved(maze, sprite, translation, micros).1 == translation,
        moved(maze, sprite, translation, micros).0 == (SpriteView { animating: false, ..sprite }),
{
}

/// The nudge up adds exactly the size of the movement along the lane to the
/// vertical coordinate and leaves the horizontal one alone, wherever the sum
/// is a coordinate at all.
pub proof fn lemma_cornering_up_adds_magnitude(translation: Position, x_movement: int)
    requires
        translation.y + magnitude(x_movement) <= i64::MAX,
    ensures
        cornered(translation, Some(Direction::Up), x_movement, 0).x == translation.x,
        cornered(translation, Some(Direction::Up), x_movement, 0).y == translation.y + magnitude(
            x_movement,
        ),
{
}

/// A sprite that faces right or left has no movement of its own on the
/// vertical axis. Where its move is allowed, lies below the middle of its lane
/// and does not go through the tunnel, the tick moves it along the lane by
/// exactly its horizontal movement and up by exactly the size of that
/// movement, wherever those sums are coordinates at all.
pub proof fn lemma_cornering_lifts_by_movement(
    maze: Map<(int, int), TileView>,
    sprite: SpriteView,
    translation: Position,
    micros: int,
)
    requires
        sprite.consistent(),
        !sprite.facing.is_vertical(),
        ({
            let x_movement = axis_displacement(sprite.velocity.x as int, micros);
            let info = tile_of_position(translation.translated(x_movement, 0));
            &&& i64::MIN <= translation.x + x_movement <= i64::MAX
            &&& translation.y + magnitude(x_movement) <= i64::MAX
            &&& move_allowed(maze, info, sprite.facing)
            &&& info.alignment(sprite.facing) == Some(Direction::Up)
            &&& !teleports(info, sprite.facing)
        }),
    ensures
        axis_displacement(sprite.velocity.y as int, micros) == 0,
        ({
            let x_movement = axis_displacement(sprite.velocity.x as int, micros);
            let after = moved(maze, sprite, translation, micros).1;
            &&& after.x == translation.x + x_movement
            &&& after.y == translation.y + magnitude(x_movement)
            &&& moved(maze, sprite, translation, micros).0.animating
        }),
{
    assert(0 * micros == 0) by (nonlinear_arith);
}

/// A mover that faces right in the last column of the maze comes out of the
/// tunnel exactly `TELEPORT_DISTANCE` further left, in the second column, in
/// the same row and at the same place inside its tile.
pub proof fn lemma_tunnel_to_left_side(translation: Position)
    requires
        teleports(tile_of_position(translation), Direction::Right),
    ensures
        teleported(translation, Direction::Right).x == translation.x - TELEPORT_DISTANCE,
        teleported(translation, Direction::Right).y == translation.y,
        tile_of_position(teleported(translation, Direction::Right)) == TileInformation(
            1,
            tile_of_position(translation).1,
            tile_of_position(translation).2,
            tile_of_position(translation).3,
        ),
{
}

/// A mover that faces left in the first column of the maze, and not to the
/// left of the maze altogether, comes out of the tunnel exactly
/// `TELEPORT_DISTANCE` further right, in the last column but one, in the same
/// row and at the same place inside its tile.
pub proof fn lemma_tunnel_to_right_side(translation: Position)
    requires
        teleports(tile_of_position(translation), Direction::Left),
        translation.x >= BOX_LEFT * SCALE * STEPS_PER_UNIT,
    ensures
        teleported(translation, Direction::Left).x == translation.x + TELEPORT_DISTANCE,
        teleported(translation, Direction::Left).y == translation.y,
        tile_of_position(teleported(translation, Direction::Left)) == TileInformation(
            (GRID_WIDTH - 2) as u32,
            tile_of_position(translation).1,
            tile_of_position(translation).2,
            tile_of_position(translation).3,
        ),
{
}

/// The place in the animation that follows the current one, going round.
pub open spec fn next_tick(sprite: SpriteView) -> int {
    (sprite.animation_tick + 1) % (sprite.texture_indexes.len() as int)
}

/// Steps the animation of a sprite whose timer has run out, if its last move
/// went through, and gives the frame to show; otherwise changes nothing. A
/// sprite that is stepped must have an animation, of at most `u32::MAX`
/// frames.
pub fn animate_sprite(sprite: &mut Sprite, timer_finished: bool) -> (frame: Option<u32>)
    requires
        timer_finished && old(sprite)@.animating ==> 0 < old(sprite)@.texture_indexes.len()
            <= u32::MAX,
    ensures
        timer_finished && old(sprite)@.animating ==> final(sprite)@ == (SpriteView {
            animation_tick: next_tick(old(sprite)@) as u32,
            ..old(sprite)@
        }) && frame == Some(old(sprite)@.texture_indexes[next_tick(old(sprite)@)]),
        !(timer_finished && old(sprite)@.animating) ==> final(sprite)@ == old(sprite)@ && frame
            is None,
{
    proof {
        use_type_invariant(&*sprite);
    }
    if timer_finished && sprite.animating {
        let frames: u32 = sprite.texture_indexes.len() as u32;
        let tick: u32 = (sprite.animation_tick + 1) % frames;
        sprite.animation_tick = tick;
        Some(sprite.texture_indexes[tick as usize])
    } else {
        None
    }
}

} // verus!
