//! Fixed-point conventions and the dimensions of the game world.
//!
//! Lengths are whole millimetres. Every other fractional quantity (the
//! gravity scalar, speeds, random draws from the unit interval, scale
//! factors) is a count of billionths, so that one second of simulated time
//! in nanoseconds and one whole unit share the same scale.

use vstd::prelude::*;

verus! {

/// One whole unit in billionths.
pub const UNIT: i64 = 1_000_000_000;

/// Millimetres in one metre.
pub const MM_PER_METER: i64 = 1_000;

/// Radius of the outer rim of the level.
pub const LEVEL_BOUNDS_RADIUS: i64 = 28_000;

/// Radius of the body that stands for the gravity source at the centre.
pub const GRAVITY_SOURCE_RADIUS: i64 = 2_500;

/// Footprint of the player.
pub const PLAYER_WIDTH: i64 = 800;

pub const PLAYER_HEIGHT: i64 = 1_800;

/// Width of the goal flag.
pub const FLAG_WIDTH: i64 = 550;

/// Height of the goal flag: the level radius divided by 4.8, rounded down.
pub const FLAG_HEIGHT: i64 = 5_833;

/// A position in the plane of the level, relative to the gravity source.
#[derive(Clone, Copy, Debug, PartialEq, Eq, Structural)]
pub struct Point {
    pub x: i32,
    pub y: i32,
}

impl Point {
    /// The position of the gravity source.
    pub open spec fn spec_origin() -> Point {
        Point { x: 0, y: 0 }
    }

    /// Squared distance from the gravity source.
    pub open spec fn spec_norm_squared(self) -> int {
        self.x * self.x + self.y * self.y
    }

    /// Squared distance between two positions.
    pub open spec fn spec_distance_squared(self, other: Point) -> int {
        (self.x - other.x) * (self.x - other.x) + (self.y - other.y) * (self.y - other.y)
    }

    #[verifier::when_used_as_spec(spec_origin)]
    pub fn origin() -> (p: Point)
        ensures
            p == Point::spec_origin(),
    {
        Point { x: 0, y: 0 }
    }

    pub fn norm_squared(&self) -> (d2: i128)
        ensures
            d2 == self.spec_norm_squared(),
            0 <= d2 <= 0x8000_0000_0000_0000,
            d2 == 0 <==> *self == Point::spec_origin(),
    {
        let x: i128 = self.x as i128;
        let y: i128 = self.y as i128;
        proof {
            lemma_square_bounds(x as int, 0x8000_0000);
            lemma_square_bounds(y as int, 0x8000_0000);
        }
        x * x + y * y
    }

    pub fn distance_squared(&self, other: &Point) -> (d2: i128)
        ensures
            d2 == self.spec_distance_squared(*other),
            0 <= d2 <= 0x2_0000_0000_0000_0000,
    {
        let dx: i128 = self.x as i128 - other.x as i128;
        let dy: i128 = self.y as i128 - other.y as i128;
        proof {
            lemma_square_bounds(dx as int, 0x1_0000_0000);
            lemma_square_bounds(dy as int, 0x1_0000_0000);
        }
        dx * dx + dy * dy
    }
}

/// A square is never negative, is zero only for zero, and is bounded by the
/// square of a bound on its root.
pub proof fn lemma_square_bounds(v: int, bound: int)
    requires
        -bound <= v <= bound,
    ensures
        0 <= v * v <= bound * bound,
        v * v == 0 <==> v == 0,
{
    assert(0 <= v * v <= bound * bound && (v * v == 0 <==> v == 0)) by (nonlinear_arith)
        requires
            -bound <= v <= bound,
    ;
}

} // verus!
