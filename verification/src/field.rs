//! The playing field: its measures, the units positions are kept in, and the
//! plain geometric values the game hands to a renderer.
//!
//! Positions are whole numbers of sub-pixel units, `UNIT` of them to a pixel.
//! Velocities are whole pixels per second and time is whole milliseconds, so a
//! velocity times a time is a distance in units with no rounding at all.

use vstd::prelude::*;

verus! {

/// Width of the field, in pixels.
pub const SCREEN_WIDTH: u32 = 1024;

/// Height of the field, in pixels.
pub const SCREEN_HEIGHT: u32 = 768;

/// Thickness of the walls, the paddle and the ball, in pixels.
pub const THICKNESS: u32 = 15;

/// Length of the paddle, in pixels.
pub const PADDLE_LENGTH: u32 = 100;

/// Sub-pixel units in one pixel.
pub const UNIT: i64 = 1000;

/// Lower face of the top wall, in units: `THICKNESS` pixels.
pub const TOP_EDGE: i64 = 15_000;

/// Upper face of the bottom wall, in units: `SCREEN_HEIGHT - THICKNESS` pixels.
pub const BOTTOM_EDGE: i64 = 753_000;

/// Left face of the right wall, in units: `SCREEN_WIDTH - THICKNESS` pixels.
pub const RIGHT_EDGE: i64 = 1_009_000;

/// Half the paddle's length, in units.
pub const HALF_PADDLE: i64 = 50_000;

/// Highest position of the paddle's centre, in units: the paddle touches the top wall.
pub const PADDLE_MIN: i64 = 65_000;

/// Lowest position of the paddle's centre, in units: the paddle touches the bottom wall.
pub const PADDLE_MAX: i64 = 703_000;

/// Horizontal position of the paddle's centre, in units: half its thickness.
pub const PADDLE_X: i64 = 7_500;

/// Near side of the band in front of the paddle in which the ball is struck, in units.
pub const BAND_MIN: i64 = 20_000;

/// Far side of the band in front of the paddle in which the ball is struck, in units.
pub const BAND_MAX: i64 = 25_000;

/// Paddle speed, in pixels per second.
pub const PADDLE_SPEED: i64 = 300;

/// Largest magnitude of a ball coordinate, in units. A ball that has left the
/// field keeps flying until it reaches this distance and then rests there.
pub const COORD_LIMIT: i64 = 1_000_000_000_000;

/// Largest magnitude of a velocity component, in pixels per second.
pub const SPEED_LIMIT: i64 = 1_000_000_000;

/// Longest time step, in milliseconds, that one update integrates.
pub const MAX_STEP_MS: u32 = 50;

/// Shortest time, in milliseconds, between two frames.
pub const FRAME_MS: u32 = 16;

/// The constants in units are the pixel measures they are named after.
pub proof fn lemma_field_measures()
    ensures
        TOP_EDGE == THICKNESS * UNIT,
        BOTTOM_EDGE == (SCREEN_HEIGHT - THICKNESS) * UNIT,
        RIGHT_EDGE == (SCREEN_WIDTH - THICKNESS) * UNIT,
        2 * HALF_PADDLE == PADDLE_LENGTH * UNIT,
        PADDLE_MIN == TOP_EDGE + HALF_PADDLE,
        PADDLE_MAX == BOTTOM_EDGE - HALF_PADDLE,
        2 * PADDLE_X == THICKNESS * UNIT,
{
}

/// A position, in units, or a velocity, in pixels per second.
#[derive(Clone, Copy, Debug, PartialEq, Eq, Structural)]
pub struct Vector2 {
    pub x: i64,
    pub y: i64,
}

/// The mathematical value of a `Vector2`.
pub struct Vec2 {
    pub x: int,
    pub y: int,
}

impl View for Vector2 {
    type V = Vec2;

    open spec fn view(&self) -> Vec2 {
        Vec2 { x: self.x as int, y: self.y as int }
    }
}

/// A colour with its opacity.
#[derive(Clone, Copy, Debug, PartialEq, Eq, Structural)]
pub struct Color {
    pub r: u8,
    pub g: u8,
    pub b: u8,
    pub a: u8,
}

/// An axis-parallel rectangle in whole pixels: its upper left corner and its size.
#[derive(Clone, Copy, Debug, PartialEq, Eq, Structural)]
pub struct Rect {
    pub x: i32,
    pub y: i32,
    pub w: u32,
    pub h: u32,
}

impl Rect {
    /// The rectangle has this corner and this size.
    pub open spec fn is(self, x: int, y: int, w: int, h: int) -> bool {
        self.x == x && self.y == y && self.w == w && self.h == h
    }

    /// The rectangle is not empty, and corner and size lie within half the range
    /// of `i32`, so that its far sides can be computed in `i32`.
    pub open spec fn drawable(self) -> bool {
        &&& i32::MIN / 2 <= self.x <= i32::MAX / 2
        &&& i32::MIN / 2 <= self.y <= i32::MAX / 2
        &&& 1 <= self.w <= i32::MAX / 2
        &&& 1 <= self.h <= i32::MAX / 2
    }
}

/// A coordinate held to the range between `-COORD_LIMIT` and `COORD_LIMIT`.
pub open spec fn clamp_coord(c: int) -> int {
    if c > COORD_LIMIT as int {
        COORD_LIMIT as int
    } else if c < -(COORD_LIMIT as int) {
        -(COORD_LIMIT as int)
    } else {
        c
    }
}

/// The whole pixel that a coordinate in units falls in, rounding towards zero.
/// A coordinate beyond `COORD_LIMIT` counts as one at the limit.
pub open spec fn pixel_of(c: int) -> int {
    let bounded = clamp_coord(c);
    if bounded >= 0 { bounded / (UNIT as int) } else { -((-bounded) / (UNIT as int)) }
}

/// The whole pixel that a coordinate in units falls in, rounding towards zero.
pub fn to_pixel(c: i64) -> (p: i32)
    ensures
        p == pixel_of(c as int),
        -1_000_000_000 <= p <= 1_000_000_000,
{
    let bounded: i64 = if c > COORD_LIMIT {
        COORD_LIMIT
    } else if c < -COORD_LIMIT {
        -COORD_LIMIT
    } else {
        c
    };
    if bounded >= 0 {
        (bounded / UNIT) as i32
    } else {
        (-((-bounded) / UNIT)) as i32
    }
}

/// A pixel lies at most a pixel's worth of units from the coordinate it was
/// taken from, on the side of zero, and whole pixels are kept exactly.
pub proof fn lemma_pixel_of(c: int)
    requires
        -COORD_LIMIT <= c <= COORD_LIMIT,
    ensures
        c >= 0 ==> pixel_of(c) * UNIT <= c < (pixel_of(c) + 1) * UNIT,
        c <= 0 ==> (pixel_of(c) - 1) * UNIT < c <= pixel_of(c) * UNIT,
        c % (UNIT as int) == 0 ==> pixel_of(c) * UNIT == c,
{
    if c >= 0 {
        assert(c == (c / 1000) * 1000 + c % 1000);
    } else {
        assert(-c == ((-c) / 1000) * 1000 + (-c) % 1000);
        assert(c % 1000 == 0 ==> (-c) % 1000 == 0);
    }
}

} // verus!
