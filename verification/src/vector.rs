//! Exact free vectors in two and three dimensions.
//!
//! Coordinates are integer numerators over one shared positive denominator:
//! `Vector2 { x, y, den }` is the vector `(x / den, y / den)`.  The dot
//! product is exact, and "unit length" is an exact statement:
//! `x^2 + y^2 = den^2`.

use vstd::prelude::*;

use crate::scalar::lemma_abs_mul;
use crate::scalar::lemma_mul_pos;
use crate::scalar::Rational;
use crate::scalar::ARG_MAX;
use crate::scalar::DEN_MAX;
use crate::scalar::NUM_MAX;

verus! {

/// An exact two-dimensional vector `(x / den, y / den)`.
#[derive(Clone, Copy, Debug, PartialEq, Eq, Structural)]
pub struct Vector2 {
    pub x: i128,
    pub y: i128,
    pub den: i128,
}

/// An exact three-dimensional vector `(x / den, y / den, z / den)`.
#[derive(Clone, Copy, Debug, PartialEq, Eq, Structural)]
pub struct Vector3 {
    pub x: i128,
    pub y: i128,
    pub z: i128,
    pub den: i128,
}

impl Vector2 {
    pub open spec fn wf(self) -> bool {
        &&& 1 <= self.den <= DEN_MAX
        &&& -NUM_MAX <= self.x <= NUM_MAX
        &&& -NUM_MAX <= self.y <= NUM_MAX
    }

    /// Largest coordinate magnitude.
    pub open spec fn max_abs(self) -> int {
        let ax = if self.x >= 0 { self.x as int } else { -self.x as int };
        let ay = if self.y >= 0 { self.y as int } else { -self.y as int };
        if ax >= ay { ax } else { ay }
    }

    /// Exactly unit length.
    pub open spec fn is_unit(self) -> bool {
        self.x * self.x + self.y * self.y == self.den * self.den
    }

    /// Squared length, as a numerator over `den^2`.
    pub open spec fn norm_sq_num(self) -> int {
        self.x * self.x + self.y * self.y
    }

    /// The unit vector along the first axis.
    pub fn unit_x() -> (r: Vector2)
        ensures
            r.x == 1 && r.y == 0 && r.den == 1,
            r.wf() && r.is_unit(),
    {
        Vector2 { x: 1, y: 0, den: 1 }
    }

    /// The unit vector along the second axis.
    pub fn unit_y() -> (r: Vector2)
        ensures
            r.x == 0 && r.y == 1 && r.den == 1,
            r.wf() && r.is_unit(),
    {
        Vector2 { x: 0, y: 1, den: 1 }
    }

    /// Builds a vector; rejects fields out of range.
    pub fn new(x: i128, y: i128, den: i128) -> (r: Option<Vector2>)
        ensures
            r is Some <==> (1 <= den <= DEN_MAX && -NUM_MAX <= x <= NUM_MAX
                && -NUM_MAX <= y <= NUM_MAX),
            r matches Some(v) ==> v == (Vector2 { x, y, den }),
    {
        if 1 <= den && den <= DEN_MAX && -NUM_MAX <= x && x <= NUM_MAX && -NUM_MAX <= y
            && y <= NUM_MAX {
            Some(Vector2 { x, y, den })
        } else {
            None
        }
    }

    /// The exact dot product.
    pub fn dot(&self, other: &Vector2) -> (r: Rational)
        requires
            self.wf(),
            other.wf(),
            self.den * other.den <= DEN_MAX,
            self.max_abs() <= ARG_MAX,
            other.max_abs() <= ARG_MAX,
        ensures
            r.num == self.x * other.x + self.y * other.y,
            r.den == self.den * other.den,
            r.wf(),
    {
        proof {
            lemma_mul_pos(self.den as int, other.den as int);
            lemma_abs_mul(self.x as int, other.x as int, ARG_MAX as int, ARG_MAX as int);
            lemma_abs_mul(self.y as int, other.y as int, ARG_MAX as int, ARG_MAX as int);
        }
        Rational { num: self.x * other.x + self.y * other.y, den: self.den * other.den }
    }

    /// The two-dimensional cross product `x1 * y2 - y1 * x2`, the sine of the
    /// angle from `self` to `other` scaled by both lengths.
    pub fn perp_dot(&self, other: &Vector2) -> (r: Rational)
        requires
            self.wf(),
            other.wf(),
            self.den * other.den <= DEN_MAX,
            self.max_abs() <= ARG_MAX,
            other.max_abs() <= ARG_MAX,
        ensures
            r.num == self.x * other.y - self.y * other.x,
            r.den == self.den * other.den,
            r.wf(),
    {
        proof {
            lemma_mul_pos(self.den as int, other.den as int);
            lemma_abs_mul(self.x as int, other.y as int, ARG_MAX as int, ARG_MAX as int);
            lemma_abs_mul(self.y as int, other.x as int, ARG_MAX as int, ARG_MAX as int);
        }
        Rational { num: self.x * other.y - self.y * other.x, den: self.den * other.den }
    }
}

impl Vector3 {
    pub open spec fn wf(self) -> bool {
        &&& 1 <= self.den <= DEN_MAX
        &&& -NUM_MAX <= self.x <= NUM_MAX
        &&& -NUM_MAX <= self.y <= NUM_MAX
        &&& -NUM_MAX <= self.z <= NUM_MAX
    }

    /// Largest coordinate magnitude.
    pub open spec fn max_abs(self) -> int {
        let ax = if self.x >= 0 { self.x as int } else { -self.x as int };
        let ay = if self.y >= 0 { self.y as int } else { -self.y as int };
        let az = if self.z >= 0 { self.z as int } else { -self.z as int };
        if ax >= ay && ax >= az { ax } else if ay >= az { ay } else { az }
    }

    /// Exactly unit length.
    pub open spec fn is_unit(self) -> bool {
        self.x * self.x + self.y * self.y + self.z * self.z == self.den * self.den
    }

    /// Squared length, as a numerator over `den^2`.
    pub open spec fn norm_sq_num(self) -> int {
        self.x * self.x + self.y * self.y + self.z * self.z
    }

    /// The unit vector along the first axis.
    pub fn unit_x() -> (r: Vector3)
        ensures
            r == (Vector3 { x: 1, y: 0, z: 0, den: 1 }),
            r.wf() && r.is_unit(),
    {
        Vector3 { x: 1, y: 0, z: 0, den: 1 }
    }

    /// The unit vector along the second axis.
    pub fn unit_y() -> (r: Vector3)
        ensures
            r == (Vector3 { x: 0, y: 1, z: 0, den: 1 }),
            r.wf() && r.is_unit(),
    {
        Vector3 { x: 0, y: 1, z: 0, den: 1 }
    }

    /// The unit vector along the third axis.
    pub fn unit_z() -> (r: Vector3)
        ensures
            r == (Vector3 { x: 0, y: 0, z: 1, den: 1 }),
            r.wf() && r.is_unit(),
    {
        Vector3 { x: 0, y: 0, z: 1, den: 1 }
    }

    /// Builds a vector; rejects fields out of range.
    pub fn new(x: i128, y: i128, z: i128, den: i128) -> (r: Option<Vector3>)
        ensures
            r is Some <==> (1 <= den <= DEN_MAX && -NUM_MAX <= x <= NUM_MAX
                && -NUM_MAX <= y <= NUM_MAX && -NUM_MAX <= z <= NUM_MAX),
            r matches Some(v) ==> v == (Vector3 { x, y, z, den }),
    {
        if 1 <= den && den <= DEN_MAX && -NUM_MAX <= x && x <= NUM_MAX && -NUM_MAX <= y
            && y <= NUM_MAX && -NUM_MAX <= z && z <= NUM_MAX {
            Some(Vector3 { x, y, z, den })
        } else {
            None
        }
    }

    /// The exact dot product.
    pub fn dot(&self, other: &Vector3) -> (r: Rational)
        requires
            self.wf(),
            other.wf(),
            self.den * other.den <= DEN_MAX,
            self.max_abs() <= ARG_MAX,
            other.max_abs() <= ARG_MAX,
        ensures
            r.num == self.x * other.x + self.y * other.y + self.z * other.z,
            r.den == self.den * other.den,
            r.wf(),
    {
        proof {
            lemma_mul_pos(self.den as int, other.den as int);
            lemma_abs_mul(self.x as int, other.x as int, ARG_MAX as int, ARG_MAX as int);
            lemma_abs_mul(self.y as int, other.y as int, ARG_MAX as int, ARG_MAX as int);
            lemma_abs_mul(self.z as int, other.z as int, ARG_MAX as int, ARG_MAX as int);
        }
        Rational {
            num: self.x * other.x + self.y * other.y + self.z * other.z,
            den: self.den * other.den,
        }
    }

    /// The exact cross product; its denominator is the product of both.
    pub fn cross(&self, other: &Vector3) -> (r: Vector3)
        requires
            self.wf(),
            other.wf(),
            self.den * other.den <= DEN_MAX,
            self.max_abs() <= ARG_MAX,
            other.max_abs() <= ARG_MAX,
        ensures
            r.x == self.y * other.z - self.z * other.y,
            r.y == self.z * other.x - self.x * other.z,
            r.z == self.x * other.y - self.y * other.x,
            r.den == self.den * other.den,
            r.wf(),
    {
        proof {
            lemma_mul_pos(self.den as int, other.den as int);
            lemma_abs_mul(self.y as int, other.z as int, ARG_MAX as int, ARG_MAX as int);
            lemma_abs_mul(self.z as int, other.y as int, ARG_MAX as int, ARG_MAX as int);
            lemma_abs_mul(self.z as int, other.x as int, ARG_MAX as int, ARG_MAX as int);
            lemma_abs_mul(self.x as int, other.z as int, ARG_MAX as int, ARG_MAX as int);
            lemma_abs_mul(self.x as int, other.y as int, ARG_MAX as int, ARG_MAX as int);
            lemma_abs_mul(self.y as int, other.x as int, ARG_MAX as int, ARG_MAX as int);
        }
        Vector3 {
            x: self.y * other.z - self.z * other.y,
            y: self.z * other.x - self.x * other.z,
            z: self.x * other.y - self.y * other.x,
            den: self.den * other.den,
        }
    }
}

} // verus!
