//! Fixed-point vectors and orientations.

use vstd::prelude::*;

verus! {

/// Fixed-point steps per world unit: a stored `1_000_000` stands for `1.0`.
pub const UNIT: i64 = 1_000_000;

/// Largest magnitude of a coordinate that the rules accept as input. Two such
/// coordinates can be added without leaving `i64`.
pub const COORD_MAX: i64 = 1_000_000_000_000_000_000;

/// A vector of mathematical integers: what a [`Vec3`] stands for.
pub ghost struct Vector {
    pub x: int,
    pub y: int,
    pub z: int,
}

impl Vector {
    pub open spec fn zero() -> Vector {
        Vector { x: 0, y: 0, z: 0 }
    }

    /// Component-wise sum.
    pub open spec fn plus(self, other: Vector) -> Vector {
        Vector { x: self.x + other.x, y: self.y + other.y, z: self.z + other.z }
    }

    /// The vector of the same length that points the other way.
    pub open spec fn negated(self) -> Vector {
        Vector { x: -self.x, y: -self.y, z: -self.z }
    }

    /// Every component multiplied by `k`.
    pub open spec fn scaled(self, k: int) -> Vector {
        Vector { x: self.x * k, y: self.y * k, z: self.z * k }
    }

    /// The projection onto the ground plane: the vertical component dropped.
    pub open spec fn planar(self) -> Vector {
        Vector { x: self.x, y: 0, z: self.z }
    }

    /// Squared length of the projection onto the ground plane.
    pub open spec fn planar_norm_squared(self) -> int {
        self.x * self.x + self.z * self.z
    }

    /// Dot product of the projections onto the ground plane.
    pub open spec fn planar_dot(self, other: Vector) -> int {
        self.x * other.x + self.z * other.z
    }

    /// No component exceeds `bound` in magnitude.
    pub open spec fn within(self, bound: int) -> bool {
        &&& -bound <= self.x <= bound
        &&& -bound <= self.y <= bound
        &&& -bound <= self.z <= bound
    }
}

/// A fixed-point vector: `x` to the right, `y` up, `z` towards the viewer.
#[derive(Clone, Copy, Debug, PartialEq, Eq, Structural)]
pub struct Vec3 {
    pub x: i64,
    pub y: i64,
    pub z: i64,
}

impl View for Vec3 {
    type V = Vector;

    open spec fn view(&self) -> Vector {
        Vector { x: self.x as int, y: self.y as int, z: self.z as int }
    }
}

impl Vec3 {
    /// Every coordinate is within [`COORD_MAX`] of zero.
    pub open spec fn in_range(self) -> bool {
        self@.within(COORD_MAX as int)
    }

    /// Tests [`Vec3::in_range`].
    pub fn is_in_range(&self) -> (ok: bool)
        ensures
            ok == self.in_range(),
    {
        -COORD_MAX <= self.x && self.x <= COORD_MAX && -COORD_MAX <= self.y && self.y
            <= COORD_MAX && -COORD_MAX <= self.z && self.z <= COORD_MAX
    }

    /// Tests that no coordinate exceeds `bound` in magnitude.
    pub fn is_within(&self, bound: i64) -> (ok: bool)
        requires
            0 <= bound,
        ensures
            ok == self@.within(bound as int),
    {
        -bound <= self.x && self.x <= bound && -bound <= self.y && self.y <= bound && -bound
            <= self.z && self.z <= bound
    }

    pub fn new(x: i64, y: i64, z: i64) -> (v: Vec3)
        ensures
            v.x == x,
            v.y == y,
            v.z == z,
    {
        Vec3 { x, y, z }
    }

    pub fn zero() -> (v: Vec3)
        ensures
            v@ == Vector::zero(),
    {
        Vec3 { x: 0, y: 0, z: 0 }
    }

    /// Component-wise sum of two vectors in range.
    pub fn plus(self, other: Vec3) -> (sum: Vec3)
        requires
            self.in_range(),
            other.in_range(),
        ensures
            sum@ == self@.plus(other@),
    {
        Vec3 { x: self.x + other.x, y: self.y + other.y, z: self.z + other.z }
    }

    /// The opposite vector.
    pub fn negated(self) -> (neg: Vec3)
        requires
            self.in_range(),
        ensures
            neg@ == self@.negated(),
            neg.in_range(),
    {
        Vec3 { x: -self.x, y: -self.y, z: -self.z }
    }
}

/// An orientation as a fixed-point quaternion `x i + y j + z k + w`.
#[derive(Clone, Copy, Debug, PartialEq, Eq, Structural)]
pub struct Quat {
    pub x: i64,
    pub y: i64,
    pub z: i64,
    pub w: i64,
}

impl Quat {
    pub fn from_xyzw(x: i64, y: i64, z: i64, w: i64) -> (q: Quat)
        ensures
            q == (Quat { x, y, z, w }),
    {
        Quat { x, y, z, w }
    }

    /// The orientation that turns nothing.
    pub fn identity() -> (q: Quat)
        ensures
            q == (Quat { x: 0, y: 0, z: 0, w: UNIT }),
    {
        Quat { x: 0, y: 0, z: 0, w: UNIT }
    }

    /// What is left of an orientation when pitch and roll are discarded: the
    /// `y` and `w` components, with `x` and `z` forced to zero.
    pub open spec fn spec_yaw_only(self) -> Quat {
        Quat { x: 0, y: self.y, z: 0, w: self.w }
    }

    #[verifier::when_used_as_spec(spec_yaw_only)]
    pub fn yaw_only(self) -> (yaw: Quat)
        ensures
            yaw == self.spec_yaw_only(),
    {
        Quat { x: 0, y: self.y, z: 0, w: self.w }
    }
}

} // verus!
