//! Vectors, points and rotations in fixed-point coordinates.
//!
//! The car's frame has `x` to its right, `y` up and `z` to its rear. A [`Vec3`] is what a caller
//! hands in, a [`Point3`] is what the crate computes; both are seen in contracts as a
//! [`Vector`] of mathematical integers.

use vstd::prelude::*;

verus! {

/// Three mathematical integers: what a [`Vec3`] or a [`Point3`] stands for.
pub struct Vector {
    pub x: int,
    pub y: int,
    pub z: int,
}

impl Vector {
    /// The vector with no length.
    pub open spec fn zero() -> Vector {
        Vector { x: 0, y: 0, z: 0 }
    }

    /// The sum of two vectors.
    pub open spec fn plus(self, other: Vector) -> Vector {
        Vector { x: self.x + other.x, y: self.y + other.y, z: self.z + other.z }
    }

    /// The vector of the same length in the opposite direction.
    pub open spec fn negated(self) -> Vector {
        Vector { x: -self.x, y: -self.y, z: -self.z }
    }

    /// The vector moved by `dx` along `x`.
    pub open spec fn shifted_x(self, dx: int) -> Vector {
        Vector { x: self.x + dx, y: self.y, z: self.z }
    }

    /// The image of the vector in the car's plane of symmetry: `x` changes sign.
    pub open spec fn reflected(self) -> Vector {
        Vector { x: -self.x, y: self.y, z: self.z }
    }
}

/// A vector given by a caller, in thousandths.
#[derive(Clone, Copy, Debug, PartialEq, Eq, Structural)]
pub struct Vec3 {
    pub x: i32,
    pub y: i32,
    pub z: i32,
}

impl View for Vec3 {
    type V = Vector;

    open spec fn view(&self) -> Vector {
        Vector { x: self.x as int, y: self.y as int, z: self.z as int }
    }
}

impl Vec3 {
    /// One whole unit along `x`.
    pub open spec fn spec_unit_x() -> Vec3 {
        Vec3 { x: 1000, y: 0, z: 0 }
    }

    /// One whole unit against `x`.
    pub open spec fn spec_neg_unit_x() -> Vec3 {
        Vec3 { x: -1000i32, y: 0, z: 0 }
    }

    /// One whole unit along `y`.
    pub open spec fn spec_unit_y() -> Vec3 {
        Vec3 { x: 0, y: 1000, z: 0 }
    }

    /// One whole unit against `y`.
    pub open spec fn spec_neg_unit_y() -> Vec3 {
        Vec3 { x: 0, y: -1000i32, z: 0 }
    }

    /// The vector with the given components.
    pub fn new(x: i32, y: i32, z: i32) -> (v: Vec3)
        ensures
            v == (Vec3 { x, y, z }),
    {
        Vec3 { x, y, z }
    }

    /// The vector with no length.
    pub fn zero() -> (v: Vec3)
        ensures
            v@ == Vector::zero(),
    {
        Vec3 { x: 0, y: 0, z: 0 }
    }

    /// One whole unit along `x`.
    #[verifier::when_used_as_spec(spec_unit_x)]
    pub fn unit_x() -> (v: Vec3)
        ensures
            v == Self::spec_unit_x(),
    {
        Vec3 { x: 1000, y: 0, z: 0 }
    }

    /// One whole unit against `x`.
    #[verifier::when_used_as_spec(spec_neg_unit_x)]
    pub fn neg_unit_x() -> (v: Vec3)
        ensures
            v == Self::spec_neg_unit_x(),
    {
        Vec3 { x: -1000i32, y: 0, z: 0 }
    }

    /// One whole unit along `y`.
    #[verifier::when_used_as_spec(spec_unit_y)]
    pub fn unit_y() -> (v: Vec3)
        ensures
            v == Self::spec_unit_y(),
    {
        Vec3 { x: 0, y: 1000, z: 0 }
    }

    /// One whole unit against `y`.
    #[verifier::when_used_as_spec(spec_neg_unit_y)]
    pub fn neg_unit_y() -> (v: Vec3)
        ensures
            v == Self::spec_neg_unit_y(),
    {
        Vec3 { x: 0, y: -1000i32, z: 0 }
    }

    /// The same vector as a point of the crate's results.
    pub fn widen(self) -> (p: Point3)
        ensures
            p@ == self@,
    {
        Point3 { x: self.x as i64, y: self.y as i64, z: self.z as i64 }
    }
}

/// A position or an anchor computed by the crate, in thousandths.
#[derive(Clone, Copy, Debug, PartialEq, Eq, Structural)]
pub struct Point3 {
    pub x: i64,
    pub y: i64,
    pub z: i64,
}

impl View for Point3 {
    type V = Vector;

    open spec fn view(&self) -> Vector {
        Vector { x: self.x as int, y: self.y as int, z: self.z as int }
    }
}

impl Point3 {
    /// The point with the given coordinates.
    pub fn new(x: i64, y: i64, z: i64) -> (p: Point3)
        ensures
            p == (Point3 { x, y, z }),
    {
        Point3 { x, y, z }
    }
}

/// A rotation, with its angles in thousandths of a degree.
#[derive(Clone, Copy, Debug, PartialEq, Eq, Structural)]
pub enum Rotation {
    /// No rotation.
    Identity,
    /// A turn by `angle` about `axis`.
    AxisAngle { axis: Vec3, angle: i32 },
    /// A turn by `x` about the x axis, then by `y` about the y axis, then by `z` about the z
    /// axis, each axis taken as the turns before it have left it.
    EulerXyz { x: i32, y: i32, z: i32 },
}

} // verus!
