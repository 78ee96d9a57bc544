use pac_maze::consts::{Direction, SPEED, TELEPORT_DISTANCE};
use pac_maze::geometry::{Position, Velocity};
use pac_maze::man::{direction_frames, direction_velocity, man_input, pressed_direction};
use pac_maze::map::{map_tile_to_translation, translation_to_map_tile, MazeGrid, TileInformation};
use pac_maze::sprite::{adjust_for_cornering, animate_sprite, move_sprite, tunnel_teleport, Sprite};

/// One sixty-fourth of a second, in microseconds: a mover at `SPEED` covers
/// 3.75 world units.
const TICK: u32 = 15_625;

/// The position `x`, `y` world units from the middle of the world.
fn at(x: f64, y: f64) -> Position {
    Position { x: (x * 1_000_000.0).round() as i64, y: (y * 1_000_000.0).round() as i64 }
}

/// A sprite that faces right and travels right at `SPEED`, whatever the maze.
fn heading_right() -> Sprite {
    let mut sprite = Sprite::new(Direction::Right, vec![0, 1, 2]);
    sprite.update(Velocity { x: 240, y: 0 }, Direction::Right, vec![0, 1, 2]);
    sprite
}

/// A sprite standing at `position` whose tile has been recorded.
fn settled(grid: &MazeGrid, facing: Direction, position: &mut Position) -> Sprite {
    let mut sprite = Sprite::new(facing, vec![0, 1, 2]);
    let before = *position;
    move_sprite(grid, &mut sprite, position, 0);
    assert_eq!(*position, before);
    assert_eq!(sprite.tile_info(), translation_to_map_tile(position));
    sprite
}

#[test]
fn new_sprite_is_at_rest() {
    let sprite = Sprite::new(Direction::Right, vec![0, 1, 2]);
    assert_eq!(sprite.facing(), Direction::Right);
    assert_eq!(sprite.velocity(), Velocity { x: 0, y: 0 });
    assert_eq!(sprite.texture_indexes(), &vec![0, 1, 2]);
    assert!(!sprite.animating());
    assert_eq!(sprite.animation_tick(), 0);
    assert_eq!(sprite.tile_info(), TileInformation(0, 0, 0, 0));
    sprite.consistency();
}

#[test]
fn update_with_new_facing_resets_animation() {
    let mut sprite = Sprite::new(Direction::Right, vec![0, 1, 2]);
    assert_eq!(animate_sprite(&mut sprite, true), None);
    sprite.update(Velocity { x: 0, y: 240 }, Direction::Up, vec![28, 29, 2]);
    assert_eq!(sprite.facing(), Direction::Up);
    assert_eq!(sprite.velocity(), Velocity { x: 0, y: 240 });
    assert_eq!(sprite.texture_indexes(), &vec![28, 29, 2]);
    assert_eq!(sprite.animation_tick(), 0);
}

#[test]
fn update_with_same_facing_changes_velocity_only() {
    let grid = MazeGrid::default();
    let mut position = map_tile_to_translation(5, 3, None, None);
    let mut sprite = settled(&grid, Direction::Right, &mut position);
    assert!(sprite.animating());
    assert_eq!(animate_sprite(&mut sprite, true), Some(1));
    assert_eq!(sprite.animation_tick(), 1);
    sprite.update(Velocity { x: 100, y: 0 }, Direction::Right, vec![7, 8, 9]);
    assert_eq!(sprite.facing(), Direction::Right);
    assert_eq!(sprite.velocity(), Velocity { x: 100, y: 0 });
    assert_eq!(sprite.texture_indexes(), &vec![0, 1, 2]);
    assert_eq!(sprite.animation_tick(), 1);
    assert!(sprite.animating());
}

#[test]
fn update_tile_information_stores_the_tile() {
    let mut sprite = Sprite::new(Direction::Left, vec![14, 15, 2]);
    sprite.update_tile_information(TileInformation(3, 4, 5, 6));
    assert_eq!(sprite.tile_info(), TileInformation(3, 4, 5, 6));
    assert_eq!(sprite.facing(), Direction::Left);
    assert!(!sprite.animating());
}

#[test]
fn pressed_direction_priority() {
    assert_eq!(pressed_direction(false, false, false, false), None);
    assert_eq!(pressed_direction(true, true, true, true), Some(Direction::Up));
    assert_eq!(pressed_direction(false, true, true, true), Some(Direction::Left));
    assert_eq!(pressed_direction(false, false, true, true), Some(Direction::Down));
    assert_eq!(pressed_direction(false, false, false, true), Some(Direction::Right));
}

#[test]
fn direction_velocity_is_speed_along_the_direction() {
    assert_eq!(SPEED, 240);
    assert_eq!(direction_velocity(Direction::Up), Velocity { x: 0, y: 240 });
    assert_eq!(direction_velocity(Direction::Left), Velocity { x: -240, y: 0 });
    assert_eq!(direction_velocity(Direction::Down), Velocity { x: 0, y: -240 });
    assert_eq!(direction_velocity(Direction::Right), Velocity { x: 240, y: 0 });
}

#[test]
fn direction_frames_table() {
    assert_eq!(direction_frames(Direction::Up), vec![28, 29, 2]);
    assert_eq!(direction_frames(Direction::Left), vec![14, 15, 2]);
    assert_eq!(direction_frames(Direction::Down), vec![42, 43, 2]);
    assert_eq!(direction_frames(Direction::Right), vec![0, 1, 2]);
}

#[test]
fn direction_change_into_wall_is_rejected() {
    let grid = MazeGrid::default();
    // Tile (1, 6) has a wall above it and a path to its right.
    let mut position = map_tile_to_translation(1, 6, None, None);
    let mut sprite = settled(&grid, Direction::Right, &mut position);
    assert!(man_input(Some(Direction::Right), &grid, &mut sprite));
    assert_eq!(sprite.velocity(), Velocity { x: 240, y: 0 });
    assert_eq!(animate_sprite(&mut sprite, true), Some(1));

    assert!(!man_input(Some(Direction::Up), &grid, &mut sprite));
    assert_eq!(sprite.velocity(), Velocity { x: 240, y: 0 });
    assert_eq!(sprite.facing(), Direction::Right);
    assert_eq!(sprite.texture_indexes(), &vec![0, 1, 2]);
    assert_eq!(sprite.animation_tick(), 1);
    assert_eq!(sprite.tile_info(), TileInformation(1, 6, 4, 4));
}

#[test]
fn direction_change_off_the_grid_is_rejected() {
    let grid = MazeGrid::default();
    let mut position = map_tile_to_translation(0, 18, None, None);
    let mut sprite = settled(&grid, Direction::Right, &mut position);
    assert!(!man_input(Some(Direction::Left), &grid, &mut sprite));
    assert_eq!(sprite.velocity(), Velocity { x: 0, y: 0 });
    assert_eq!(sprite.facing(), Direction::Right);
}

#[test]
fn no_intent_changes_nothing() {
    let grid = MazeGrid::default();
    let mut position = map_tile_to_translation(1, 4, None, None);
    let mut sprite = settled(&grid, Direction::Up, &mut position);
    assert!(!man_input(None, &grid, &mut sprite));
    assert_eq!(sprite.velocity(), Velocity { x: 0, y: 0 });
    assert_eq!(sprite.facing(), Direction::Up);
}

#[test]
fn accepted_direction_change_sets_velocity_and_animation() {
    let grid = MazeGrid::default();
    let mut position = map_tile_to_translation(1, 4, None, None);
    let mut sprite = settled(&grid, Direction::Up, &mut position);
    assert!(man_input(Some(Direction::Down), &grid, &mut sprite));
    assert_eq!(sprite.velocity(), Velocity { x: 0, y: -240 });
    assert_eq!(sprite.facing(), Direction::Down);
    assert_eq!(sprite.texture_indexes(), &vec![42, 43, 2]);
    assert_eq!(sprite.animation_tick(), 0);
}

#[test]
fn accepted_direction_change_with_same_facing_resumes_motion() {
    let grid = MazeGrid::default();
    let mut position = map_tile_to_translation(1, 4, None, None);
    let mut sprite = Sprite::new(Direction::Up, vec![5, 6]);
    move_sprite(&grid, &mut sprite, &mut position, 0);
    assert!(man_input(Some(Direction::Up), &grid, &mut sprite));
    assert_eq!(sprite.velocity(), Velocity { x: 0, y: 240 });
    assert_eq!(sprite.texture_indexes(), &vec![5, 6]);
}

#[test]
fn rejected_move_leaves_position_untouched() {
    let grid = MazeGrid::default();
    // Just below the middle of tile (1, 6); the tile above is a wall.
    let mut position = map_tile_to_translation(1, 6, None, Some(3));
    assert_eq!(position, at(-348.0, -279.0));
    let mut sprite = settled(&grid, Direction::Up, &mut position);
    assert!(sprite.animating());
    sprite.update(Velocity { x: 0, y: 240 }, Direction::Up, vec![28, 29, 2]);

    move_sprite(&grid, &mut sprite, &mut position, TICK);
    assert_eq!(position, at(-348.0, -279.0));
    assert!(!sprite.animating());
    assert_eq!(sprite.tile_info(), TileInformation(1, 6, 4, 3));
    assert_eq!(sprite.velocity(), Velocity { x: 0, y: 240 });
    assert_eq!(sprite.facing(), Direction::Up);
}

#[test]
fn move_before_the_center_needs_no_open_way() {
    let grid = MazeGrid::default();
    let mut position = map_tile_to_translation(1, 6, None, Some(0));
    let mut sprite = settled(&grid, Direction::Up, &mut position);
    sprite.update(Velocity { x: 0, y: 240 }, Direction::Up, vec![28, 29, 2]);
    move_sprite(&grid, &mut sprite, &mut position, TICK);
    assert_eq!(position, at(-348.0, -284.25));
    assert!(sprite.animating());
    assert_eq!(sprite.tile_info(), TileInformation(1, 6, 4, 1));
}

#[test]
fn move_off_the_grid_is_rejected() {
    let grid = MazeGrid::default();
    let mut position = map_tile_to_translation(28, 18, Some(0), None);
    let mut sprite = Sprite::new(Direction::Left, vec![14, 15, 2]);
    move_sprite(&grid, &mut sprite, &mut position, TICK);
    assert_eq!(position, map_tile_to_translation(28, 18, Some(0), None));
    assert!(!sprite.animating());
    assert_eq!(sprite.tile_info(), TileInformation(0, 0, 0, 0));
}

#[test]
fn move_along_a_corridor() {
    let grid = MazeGrid::default();
    let mut position = map_tile_to_translation(1, 4, None, None);
    let mut sprite = settled(&grid, Direction::Up, &mut position);
    assert!(man_input(Some(Direction::Up), &grid, &mut sprite));
    move_sprite(&grid, &mut sprite, &mut position, TICK);
    assert_eq!(position, at(-348.0, -320.25));
    assert_eq!(sprite.tile_info(), TileInformation(1, 4, 4, 5));
    assert!(sprite.animating());
    move_sprite(&grid, &mut sprite, &mut position, 2 * TICK);
    assert_eq!(position, at(-348.0, -312.75));
    assert_eq!(sprite.tile_info(), TileInformation(1, 4, 4, 7));
    move_sprite(&grid, &mut sprite, &mut position, TICK);
    assert_eq!(position, at(-348.0, -309.0));
    assert_eq!(sprite.tile_info(), TileInformation(1, 5, 4, 1));
}

#[test]
fn plain_move_adds_velocity_times_time() {
    let grid = MazeGrid::default();
    let mut sprite = heading_right();
    let mut position = at(-48.0, -204.0);
    move_sprite(&grid, &mut sprite, &mut position, TICK);
    assert_eq!(position, at(-44.25, -204.0));
    assert_eq!(sprite.tile_info(), TileInformation::from((14, 9, 1, 4)));
    assert!(sprite.animating());
}

#[test]
fn short_ticks_add_up() {
    let grid = MazeGrid::default();
    let mut sprite = heading_right();
    let mut position = at(-48.0, -204.0);
    for tick in 1..=4 {
        move_sprite(&grid, &mut sprite, &mut position, 4_000);
        assert!(sprite.animating());
        assert_eq!(position, Position { x: -48_000_000 + 960_000 * tick, y: -204_000_000 });
    }
    assert_eq!(position, at(-44.16, -204.0));
}

#[test]
fn a_sixtieth_of_a_second_covers_four_units_less_a_trifle() {
    let grid = MazeGrid::default();
    let mut sprite = heading_right();
    let mut position = at(-48.0, -204.0);
    move_sprite(&grid, &mut sprite, &mut position, 16_666);
    assert_eq!(position, at(-44.00016, -204.0));
}

#[test]
fn move_into_wall_tile_before_its_center_goes_through() {
    let grid = MazeGrid::default();
    // Only the way ahead is looked at, and only past the middle of a tile.
    let mut position = map_tile_to_translation(1, 6, None, Some(7));
    let mut sprite = Sprite::new(Direction::Down, vec![42, 43, 2]);
    sprite.update_tile_information(translation_to_map_tile(&position));
    sprite.update(Velocity { x: 0, y: 240 }, Direction::Up, vec![28, 29, 2]);
    assert_eq!(position, at(-348.0, -267.0));
    move_sprite(&grid, &mut sprite, &mut position, TICK);
    assert!(!grid.get_tile(1, 7).0.is_valid_path());
    assert_eq!(position, at(-348.0, -263.25));
    assert_eq!(sprite.tile_info(), TileInformation(1, 7, 4, 0));
    assert!(sprite.animating());
}

#[test]
fn tunnel_teleport_facing_right_at_right_edge() {
    let grid = MazeGrid::default();
    let mut sprite = heading_right();
    let mut position = at(263.0, 12.0);
    assert_eq!(translation_to_map_tile(&position), TileInformation(26, 18, 7, 4));

    move_sprite(&grid, &mut sprite, &mut position, TICK);
    // The move proposes x = 266.75, in the last column; the tunnel takes it back.
    assert_eq!(position, at(266.75 - 624.0, 12.0));
    assert_eq!(position, at(-357.25, 12.0));
    assert_eq!(position.x, 266_750_000 - TELEPORT_DISTANCE);
    assert_eq!(sprite.tile_info(), TileInformation::from((1, 18, 0, 4)));
    assert_eq!(sprite.tile_info(), translation_to_map_tile(&position));
    assert!(sprite.animating());
}

#[test]
fn tunnel_teleport_after_a_turn_to_the_right() {
    let grid = MazeGrid::default();
    let mut position = map_tile_to_translation(26, 18, Some(7), None);
    assert_eq!(position, at(261.0, 12.0));
    let mut sprite = settled(&grid, Direction::Right, &mut position);
    assert!(man_input(Some(Direction::Right), &grid, &mut sprite));
    move_sprite(&grid, &mut sprite, &mut position, TICK);
    assert_eq!(position, at(264.75 - 624.0, 12.0));
    assert_eq!(sprite.tile_info(), TileInformation(1, 18, 0, 4));
}

#[test]
fn tunnel_teleport_facing_left_at_left_edge() {
    let grid = MazeGrid::default();
    let mut position = map_tile_to_translation(1, 18, Some(0), None);
    assert_eq!(position, at(-360.0, 12.0));
    let mut sprite = settled(&grid, Direction::Left, &mut position);
    assert!(man_input(Some(Direction::Left), &grid, &mut sprite));

    move_sprite(&grid, &mut sprite, &mut position, TICK);
    // The move proposes x = -363.75, in the first column and short of its
    // middle as seen from the right; the tunnel takes it to the far side.
    assert_eq!(position, at(-363.75 + 624.0, 12.0));
    assert_eq!(sprite.tile_info(), TileInformation(26, 18, 6, 4));
    assert_eq!(sprite.tile_info(), translation_to_map_tile(&position));
    assert!(sprite.animating());
}

#[test]
fn tunnel_teleport_function_right() {
    let mut position = at(266.75, 12.0);
    let info = tunnel_teleport(TileInformation(27, 18, 0, 4), Direction::Right, &mut position);
    assert_eq!(position, at(-357.25, 12.0));
    assert_eq!(info, TileInformation(1, 18, 0, 4));
}

#[test]
fn tunnel_teleport_function_left() {
    let mut position = at(-364.0, 12.0);
    let info = tunnel_teleport(TileInformation(0, 18, 6, 4), Direction::Left, &mut position);
    assert_eq!(position, at(260.0, 12.0));
    assert_eq!(info, TileInformation(26, 18, 6, 4));
}

#[test]
fn tunnel_teleport_passes_other_cases_through() {
    let cases = [
        (TileInformation(27, 18, 0, 4), Direction::Left),
        (TileInformation(27, 18, 0, 4), Direction::Up),
        (TileInformation(0, 18, 0, 4), Direction::Right),
        (TileInformation(0, 18, 0, 4), Direction::Down),
        (TileInformation(13, 18, 0, 4), Direction::Right),
        (TileInformation(13, 18, 0, 4), Direction::Left),
    ];
    for (info, facing) in cases {
        let mut position = at(265.0, 12.0);
        let after = tunnel_teleport(info, facing, &mut position);
        assert_eq!(position, at(265.0, 12.0));
        assert_eq!(after, info);
    }
}

#[test]
fn tunnel_teleport_stops_at_the_end_of_the_range() {
    let mut position = Position { x: i64::MIN + 5, y: 0 };
    let info = tunnel_teleport(TileInformation(27, 0, 0, 0), Direction::Right, &mut position);
    assert_eq!(position, Position { x: i64::MIN, y: 0 });
    assert_eq!(info, TileInformation(0, 18, 0, 0));
}

#[test]
fn cornering_up_while_facing_right() {
    let grid = MazeGrid::default();
    let mut sprite = heading_right();
    // One unit below the middle of the lane along row 9.
    let mut position = at(-48.0, -207.0);
    assert_eq!(translation_to_map_tile(&position), TileInformation(14, 9, 0, 3));
    assert_eq!(sprite.velocity().y, 0);

    move_sprite(&grid, &mut sprite, &mut position, TICK);
    assert_eq!(position, at(-44.25, -203.25));
    assert!(sprite.animating());
    assert_eq!(sprite.tile_info(), TileInformation(14, 9, 1, 3));
}

#[test]
fn cornering_up_after_a_turn_to_the_right() {
    let grid = MazeGrid::default();
    // Two units below the middle of the lane along row 3.
    let mut position = map_tile_to_translation(5, 3, Some(2), Some(2));
    assert_eq!(position, at(-258.0, -354.0));
    let mut sprite = settled(&grid, Direction::Right, &mut position);
    assert!(man_input(Some(Direction::Right), &grid, &mut sprite));
    move_sprite(&grid, &mut sprite, &mut position, TICK);
    assert_eq!(position, at(-254.25, -350.25));
    assert_eq!(sprite.tile_info(), TileInformation(5, 3, 3, 2));
}

#[test]
fn cornering_function_each_direction() {
    let mut position = Position { x: 100, y: 200 };
    adjust_for_cornering(TileInformation(5, 3, 4, 2), Direction::Right, &mut position, 4, 0);
    assert_eq!(position, Position { x: 100, y: 204 });
    adjust_for_cornering(TileInformation(5, 3, 4, 2), Direction::Left, &mut position, -4, 0);
    assert_eq!(position, Position { x: 100, y: 208 });
    adjust_for_cornering(TileInformation(5, 3, 4, 6), Direction::Right, &mut position, 3, 0);
    assert_eq!(position, Position { x: 100, y: 205 });
    adjust_for_cornering(TileInformation(5, 3, 4, 6), Direction::Left, &mut position, -3, 0);
    assert_eq!(position, Position { x: 100, y: 202 });
    adjust_for_cornering(TileInformation(5, 3, 1, 4), Direction::Up, &mut position, 0, 5);
    assert_eq!(position, Position { x: 105, y: 202 });
    adjust_for_cornering(TileInformation(5, 3, 1, 4), Direction::Down, &mut position, 0, -5);
    assert_eq!(position, Position { x: 110, y: 202 });
    adjust_for_cornering(TileInformation(5, 3, 7, 4), Direction::Up, &mut position, 0, 6);
    assert_eq!(position, Position { x: 104, y: 202 });
    adjust_for_cornering(TileInformation(5, 3, 7, 4), Direction::Down, &mut position, 0, -6);
    assert_eq!(position, Position { x: 98, y: 202 });
}

#[test]
fn cornering_function_with_fractions_of_a_unit() {
    let mut position = at(-44.25, -207.0);
    adjust_for_cornering(
        TileInformation(14, 9, 1, 3),
        Direction::Right,
        &mut position,
        3_750_000,
        0,
    );
    assert_eq!(position, at(-44.25, -203.25));
    let mut position = at(-44.25, -207.0);
    adjust_for_cornering(
        TileInformation(14, 9, 1, 3),
        Direction::Left,
        &mut position,
        -3_750_000,
        0,
    );
    assert_eq!(position, at(-44.25, -203.25));
    let mut position = at(-44.25, -201.0);
    adjust_for_cornering(
        TileInformation(14, 9, 1, 5),
        Direction::Left,
        &mut position,
        -3_750_000,
        0,
    );
    assert_eq!(position, at(-44.25, -204.75));
}

#[test]
fn cornering_function_centered_changes_nothing() {
    let mut position = Position { x: 100, y: 200 };
    adjust_for_cornering(TileInformation(5, 3, 0, 4), Direction::Right, &mut position, 4, 9);
    assert_eq!(position, Position { x: 100, y: 200 });
    adjust_for_cornering(TileInformation(5, 3, 4, 0), Direction::Up, &mut position, 9, 4);
    assert_eq!(position, Position { x: 100, y: 200 });
}

#[test]
fn cornering_function_stops_at_the_end_of_the_range() {
    let mut position = Position { x: 0, y: i64::MAX - 1 };
    adjust_for_cornering(TileInformation(5, 3, 4, 2), Direction::Right, &mut position, 4, 0);
    assert_eq!(position, Position { x: 0, y: i64::MAX });
    let mut position = Position { x: 0, y: -3 };
    adjust_for_cornering(TileInformation(5, 3, 4, 6), Direction::Right, &mut position, i64::MIN, 0);
    assert_eq!(position, Position { x: 0, y: i64::MIN });
}

#[test]
fn cornering_down_while_facing_left() {
    let grid = MazeGrid::default();
    let mut position = map_tile_to_translation(5, 3, Some(6), Some(6));
    assert_eq!(position, at(-246.0, -342.0));
    let mut sprite = settled(&grid, Direction::Left, &mut position);
    assert!(man_input(Some(Direction::Left), &grid, &mut sprite));
    move_sprite(&grid, &mut sprite, &mut position, TICK);
    assert_eq!(position, at(-249.75, -345.75));
}

#[test]
fn animation_steps_round_the_frames() {
    let grid = MazeGrid::default();
    let mut position = map_tile_to_translation(5, 3, None, None);
    let mut sprite = settled(&grid, Direction::Right, &mut position);
    assert!(man_input(Some(Direction::Up), &grid, &mut sprite) == false);
    assert_eq!(animate_sprite(&mut sprite, true), Some(1));
    assert_eq!(animate_sprite(&mut sprite, true), Some(2));
    assert_eq!(animate_sprite(&mut sprite, true), Some(0));
    assert_eq!(sprite.animation_tick(), 0);
    assert_eq!(animate_sprite(&mut sprite, false), None);
    assert_eq!(sprite.animation_tick(), 0);
}

#[test]
fn animation_waits_while_the_sprite_is_blocked() {
    let mut sprite = Sprite::new(Direction::Right, vec![0, 1, 2]);
    assert_eq!(animate_sprite(&mut sprite, true), None);
    assert_eq!(sprite.animation_tick(), 0);
    let mut empty = Sprite::new(Direction::Right, vec![]);
    assert_eq!(animate_sprite(&mut empty, true), None);
    assert_eq!(animate_sprite(&mut empty, false), None);
}
