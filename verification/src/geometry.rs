//! World positions, velocities and the arithmetic that moves one by the other.
//!
//! A position counts steps on each axis, `STEPS_PER_UNIT` to the world unit.
//! A velocity counts world units per second, which is steps per microsecond:
//! the movement of a tick is the velocity times the tick's microseconds,
//! exactly. Sums that would leave the range of a coordinate stop at the
//! nearest end of it.

use crate::consts::Direction;
use vstd::prelude::*;

verus! {

/// A point of the world, in steps.
#[derive(Copy, Clone, Debug, PartialEq, Eq, Structural)]
pub struct Position {
    pub x: i64,
    pub y: i64,
}

/// A rate of travel, in world units per second on each axis.
#[derive(Copy, Clone, Debug, PartialEq, Eq, Structural)]
pub struct Velocity {
    pub x: i32,
    pub y: i32,
}

/// The coordinate nearest to `value` that a position can hold.
pub open spec fn saturate(value: int) -> int {
    if value < i64::MIN {
        i64::MIN as int
    } else if value > i64::MAX {
        i64::MAX as int
    } else {
        value
    }
}

/// Steps covered on one axis at `speed` world units per second during
/// `micros` microseconds.
pub open spec fn axis_displacement(speed: int, micros: int) -> int {
    speed * micros
}

/// `coordinate + delta`, stopping at the ends of the coordinate range.
pub fn shift(coordinate: i64, delta: i64) -> (shifted: i64)
    ensures
        shifted == saturate(coordinate + delta),
{
    match coordinate.checked_add(delta) {
        Some(sum) => sum,
        None => if delta < 0 { i64::MIN } else { i64::MAX },
    }
}

/// `coordinate - delta`, stopping at the ends of the coordinate range.
pub fn shift_back(coordinate: i64, delta: i64) -> (shifted: i64)
    ensures
        shifted == saturate(coordinate - delta),
{
    match coordinate.checked_sub(delta) {
        Some(difference) => difference,
        None => if delta < 0 { i64::MAX } else { i64::MIN },
    }
}

/// The size of `value`, whatever its sign.
pub open spec fn magnitude(value: int) -> int {
    if value < 0 {
        -value
    } else {
        value
    }
}

/// `coordinate` moved up by the size of `delta`.
pub fn shift_up_by(coordinate: i64, delta: i64) -> (shifted: i64)
    ensures
        shifted == saturate(coordinate + magnitude(delta as int)),
{
    if delta < 0 {
        shift_back(coordinate, delta)
    } else {
        shift(coordinate, delta)
    }
}

/// `coordinate` moved down by the size of `delta`.
pub fn shift_down_by(coordinate: i64, delta: i64) -> (shifted: i64)
    ensures
        shifted == saturate(coordinate - magnitude(delta as int)),
{
    if delta < 0 {
        shift(coordinate, delta)
    } else {
        shift_back(coordinate, delta)
    }
}

/// Steps covered on one axis at `speed` during `elapsed_micros`.
pub fn axis_movement(speed: i32, elapsed_micros: u32) -> (moved: i64)
    ensures
        moved == axis_displacement(speed as int, elapsed_micros as int),
{
    assert(-0x8000_0000 * 0xffff_ffff <= speed * elapsed_micros <= 0x8000_0000 * 0xffff_ffff)
        by (nonlinear_arith)
        requires
            -0x8000_0000 <= speed <= 0x8000_0000,
            0 <= elapsed_micros <= 0xffff_ffff,
    ;
    (speed as i64) * (elapsed_micros as i64)
}

impl Velocity {
    /// Whether this velocity has no part across the axis of `facing`.
    pub open spec fn is_along(self, facing: Direction) -> bool {
        if facing.is_vertical() {
            self.x == 0
        } else {
            self.y == 0
        }
    }

    /// Whether this velocity has no part across the axis of `facing`.
    pub fn runs_along(&self, facing: Direction) -> (along: bool)
        ensures
            along == self.is_along(facing),
    {
        match facing {
            Direction::Up | Direction::Down => self.x == 0,
            Direction::Left | Direction::Right => self.y == 0,
        }
    }

    /// The commanded movement on each axis during `elapsed_micros`.
    pub fn displacement(&self, elapsed_micros: u32) -> (moved: (i64, i64))
        ensures
            moved.0 == axis_displacement(self.x as int, elapsed_micros as int),
            moved.1 == axis_displacement(self.y as int, elapsed_micros as int),
    {
        (axis_movement(self.x, elapsed_micros), axis_movement(self.y, elapsed_micros))
    }
}

impl Position {
    /// This position moved by `dx` and `dy`, each coordinate staying in range.
    pub open spec fn translated(self, dx: int, dy: int) -> Position {
        Position { x: saturate(self.x + dx) as i64, y: saturate(self.y + dy) as i64 }
    }

    /// Moves the position by `dx` and `dy`.
    pub fn translate(&self, dx: i64, dy: i64) -> (moved: Position)
        ensures
            moved == self.translated(dx as int, dy as int),
    {
        Position { x: shift(self.x, dx), y: shift(self.y, dy) }
    }
}

} // verus!
