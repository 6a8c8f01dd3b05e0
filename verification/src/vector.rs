//! Three-dimensional fixed-point vectors.

use crate::fixed::{blend, clamp, interpolated, minus, plus, product, times};
use vstd::prelude::*;

verus! {

/// The distance, in millionths of a world unit, at or below which a position
/// counts as having arrived.
pub const SNAP_DISTANCE: i64 = 5_000;

/// A point or a direction. The `y` axis is vertical. A direction of length
/// one has components of magnitude at most `ONE`.
#[derive(Clone, Copy, Debug, PartialEq, Eq, Structural)]
pub struct Vec3 {
    pub x: i64,
    pub y: i64,
    pub z: i64,
}

/// The exact square of the distance between `a` and `b`.
pub open spec fn distance_squared(a: Vec3, b: Vec3) -> int {
    (a.x - b.x) * (a.x - b.x) + (a.y - b.y) * (a.y - b.y) + (a.z - b.z) * (a.z - b.z)
}

/// The exact scalar product of `a` and `b`.
pub open spec fn dot(a: Vec3, b: Vec3) -> int {
    a.x * b.x + a.y * b.y + a.z * b.z
}

/// The exact square of the length of `a`.
pub open spec fn length_squared(a: Vec3) -> int {
    dot(a, a)
}

/// Whether `a` and `b` lie more than `SNAP_DISTANCE` apart.
pub open spec fn apart(a: Vec3, b: Vec3) -> bool {
    distance_squared(a, b) > SNAP_DISTANCE * SNAP_DISTANCE
}

impl Vec3 {
    /// The sum by component, saturated.
    pub open spec fn sum(self, other: Vec3) -> Vec3 {
        Vec3 {
            x: clamp(self.x + other.x) as i64,
            y: clamp(self.y + other.y) as i64,
            z: clamp(self.z + other.z) as i64,
        }
    }

    /// The difference by component, saturated.
    pub open spec fn difference(self, other: Vec3) -> Vec3 {
        Vec3 {
            x: clamp(self.x - other.x) as i64,
            y: clamp(self.y - other.y) as i64,
            z: clamp(self.z - other.z) as i64,
        }
    }

    /// Every component times the fixed-point `factor`, saturated.
    pub open spec fn stretched(self, factor: i64) -> Vec3 {
        Vec3 {
            x: clamp(product(self.x as int, factor as int)) as i64,
            y: clamp(product(self.y as int, factor as int)) as i64,
            z: clamp(product(self.z as int, factor as int)) as i64,
        }
    }

    /// `self` turned about the vertical axis by the angle whose cosine and
    /// sine are given.
    pub open spec fn turned(self, cosine: i64, sine: i64) -> Vec3 {
        Vec3 {
            x: clamp(
                clamp(product(cosine as int, self.x as int)) + clamp(
                    product(sine as int, self.z as int),
                ),
            ) as i64,
            y: self.y,
            z: clamp(
                clamp(product(cosine as int, self.z as int)) - clamp(
                    product(sine as int, self.x as int),
                ),
            ) as i64,
        }
    }

    /// Every component moved toward that of `target` by the fraction
    /// `elapsed / TIME_CONSTANT` of the gap, saturated.
    pub open spec fn approached(self, target: Vec3, elapsed: u64) -> Vec3 {
        Vec3 {
            x: clamp(interpolated(self.x as int, target.x as int, elapsed as int)) as i64,
            y: clamp(interpolated(self.y as int, target.y as int, elapsed as int)) as i64,
            z: clamp(interpolated(self.z as int, target.z as int, elapsed as int)) as i64,
        }
    }

    /// The vector with the given components.
    pub fn new(x: i64, y: i64, z: i64) -> (v: Vec3)
        ensures
            v == (Vec3 { x, y, z }),
    {
        Vec3 { x, y, z }
    }

    /// The origin.
    pub fn zero() -> (v: Vec3)
        ensures
            v == (Vec3 { x: 0, y: 0, z: 0 }),
    {
        Vec3 { x: 0, y: 0, z: 0 }
    }

    /// Component-wise saturating sum.
    pub fn plus(self, other: Vec3) -> (v: Vec3)
        ensures
            v == self.sum(other),
    {
        Vec3 { x: plus(self.x, other.x), y: plus(self.y, other.y), z: plus(self.z, other.z) }
    }

    /// Component-wise saturating difference.
    pub fn minus(self, other: Vec3) -> (v: Vec3)
        ensures
            v == self.difference(other),
    {
        Vec3 { x: minus(self.x, other.x), y: minus(self.y, other.y), z: minus(self.z, other.z) }
    }

    /// Every component multiplied by the fixed-point `factor`.
    pub fn scaled(self, factor: i64) -> (v: Vec3)
        ensures
            v == self.stretched(factor),
    {
        Vec3 { x: times(self.x, factor), y: times(self.y, factor), z: times(self.z, factor) }
    }

    /// Turns `self` about the vertical axis. `cosine` and `sine` are those of
    /// the angle, in fixed point; the height is kept.
    pub fn rotated_about_vertical(self, cosine: i64, sine: i64) -> (v: Vec3)
        ensures
            v == self.turned(cosine, sine),
    {
        Vec3 {
            x: plus(times(cosine, self.x), times(sine, self.z)),
            y: self.y,
            z: minus(times(cosine, self.z), times(sine, self.x)),
        }
    }

    /// Whether `self` and `other` are more than `SNAP_DISTANCE` apart.
    pub fn is_apart(self, other: Vec3) -> (far: bool)
        ensures
            far == apart(self, other),
    {
        let dx: i128 = self.x as i128 - other.x as i128;
        let dy: i128 = self.y as i128 - other.y as i128;
        let dz: i128 = self.z as i128 - other.z as i128;
        let reach: i128 = SNAP_DISTANCE as i128;
        proof {
            lemma_square_bounds(dx as int, reach as int);
            lemma_square_bounds(dy as int, reach as int);
            lemma_square_bounds(dz as int, reach as int);
        }
        if dx > reach || dx < -reach || dy > reach || dy < -reach || dz > reach || dz < -reach {
            true
        } else {
            dx * dx + dy * dy + dz * dz > reach * reach
        }
    }

    /// Every component moved toward that of `target` by the fraction
    /// `elapsed / TIME_CONSTANT` of the gap.
    pub fn blend(self, target: Vec3, elapsed: u64) -> (v: Vec3)
        ensures
            v == self.approached(target, elapsed),
    {
        Vec3 {
            x: blend(self.x, target.x, elapsed),
            y: blend(self.y, target.y, elapsed),
            z: blend(self.z, target.z, elapsed),
        }
    }
}

/// A point is not apart from itself.
pub proof fn lemma_not_apart_from_itself(a: Vec3)
    ensures
        distance_squared(a, a) == 0,
        !apart(a, a),
{
    lemma_square_bounds(0, 0);
}

/// A square is never negative; it exceeds `reach * reach` when its root lies
/// outside `-reach ..= reach`, and stays within it otherwise.
pub proof fn lemma_square_bounds(d: int, reach: int)
    requires
        reach >= 0,
    ensures
        d * d >= 0,
        (d > reach || d < -reach) ==> d * d > reach * reach,
        -reach <= d <= reach ==> d * d <= reach * reach,
{
    assert(d * d >= 0) by (nonlinear_arith);
    assert((d > reach || d < -reach) ==> d * d > reach * reach) by (nonlinear_arith)
        requires
            reach >= 0,
    ;
    assert(-reach <= d <= reach ==> d * d <= reach * reach) by (nonlinear_arith)
        requires
            reach >= 0,
    ;
}

} // verus!
