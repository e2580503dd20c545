//! Exact points in two and three dimensions.
//!
//! A point is a position; a vector is a displacement.  The two share one
//! representation, and a rotation acts on a point by rotating the vector
//! from the origin to the point.

use vstd::prelude::*;

use crate::scalar::DEN_MAX;
use crate::scalar::NUM_MAX;
use crate::vector::Vector2;
use crate::vector::Vector3;

verus! {

/// An exact two-dimensional point `(x / den, y / den)`.
#[derive(Clone, Copy, Debug, PartialEq, Eq, Structural)]
pub struct Point2 {
    pub x: i128,
    pub y: i128,
    pub den: i128,
}

/// An exact three-dimensional point `(x / den, y / den, z / den)`.
#[derive(Clone, Copy, Debug, PartialEq, Eq, Structural)]
pub struct Point3 {
    pub x: i128,
    pub y: i128,
    pub z: i128,
    pub den: i128,
}

impl Point2 {
    pub open spec fn wf(self) -> bool {
        &&& 1 <= self.den <= DEN_MAX
        &&& -NUM_MAX <= self.x <= NUM_MAX
        &&& -NUM_MAX <= self.y <= NUM_MAX
    }

    /// The vector from the origin to the point, as a specification value.
    pub open spec fn vec(self) -> Vector2 {
        Vector2 { x: self.x, y: self.y, den: self.den }
    }

    /// The point the vector reaches from the origin.
    pub fn from_vec(v: Vector2) -> (r: Point2)
        ensures
            r.x == v.x && r.y == v.y && r.den == v.den,
            v.wf() ==> r.wf(),
    {
        Point2 { x: v.x, y: v.y, den: v.den }
    }

    /// The vector from the origin to the point.
    pub fn to_vec(&self) -> (r: Vector2)
        ensures
            r.x == self.x && r.y == self.y && r.den == self.den,
            self.wf() ==> r.wf(),
    {
        Vector2 { x: self.x, y: self.y, den: self.den }
    }
}

impl Point3 {
    pub open spec fn wf(self) -> bool {
        &&& 1 <= self.den <= DEN_MAX
        &&& -NUM_MAX <= self.x <= NUM_MAX
        &&& -NUM_MAX <= self.y <= NUM_MAX
        &&& -NUM_MAX <= self.z <= NUM_MAX
    }

    /// The vector from the origin to the point, as a specification value.
    pub open spec fn vec(self) -> Vector3 {
        Vector3 { x: self.x, y: self.y, z: self.z, den: self.den }
    }

    /// The point the vector reaches from the origin.
    pub fn from_vec(v: Vector3) -> (r: Point3)
        ensures
            r.x == v.x && r.y == v.y && r.z == v.z && r.den == v.den,
            v.wf() ==> r.wf(),
    {
        Point3 { x: v.x, y: v.y, z: v.z, den: v.den }
    }

    /// The vector from the origin to the point.
    pub fn to_vec(&self) -> (r: Vector3)
        ensures
            r.x == self.x && r.y == self.y && r.z == self.z && r.den == self.den,
            self.wf() ==> r.wf(),
    {
        Vector3 { x: self.x, y: self.y, z: self.z, den: self.den }
    }
}

} // verus!
