//! Exact quaternions.
//!
//! A [`Quaternion`] stores the four components over one positive
//! denominator; "unit norm" is the exact statement
//! `s^2 + x^2 + y^2 + z^2 = den^2`.  A unit quaternion converts to an
//! orthogonal rotation matrix exactly ([`crate::rotation::Basis3`]); the
//! conversion back needs a square root and therefore has no exact form.

use vstd::prelude::*;

use crate::scalar::DEN_MAX;
use crate::scalar::NUM_MAX;

verus! {

/// An exact quaternion `(s + x i + y j + z k) / den`.
#[derive(Clone, Copy, Debug, PartialEq, Eq, Structural)]
pub struct Quaternion {
    pub s: i128,
    pub x: i128,
    pub y: i128,
    pub z: i128,
    pub den: i128,
}

impl Quaternion {
    pub open spec fn wf(self) -> bool {
        &&& 1 <= self.den <= DEN_MAX
        &&& -NUM_MAX <= self.s <= NUM_MAX
        &&& -NUM_MAX <= self.x <= NUM_MAX
        &&& -NUM_MAX <= self.y <= NUM_MAX
        &&& -NUM_MAX <= self.z <= NUM_MAX
    }

    /// Exactly unit norm.
    pub open spec fn is_unit(self) -> bool {
        self.s * self.s + self.x * self.x + self.y * self.y + self.z * self.z
            == self.den * self.den
    }

    /// Builds a quaternion; rejects fields out of range.
    pub fn new(s: i128, x: i128, y: i128, z: i128, den: i128) -> (r: Option<Quaternion>)
        ensures
            r is Some <==> (1 <= den <= DEN_MAX && -NUM_MAX <= s <= NUM_MAX
                && -NUM_MAX <= x <= NUM_MAX && -NUM_MAX <= y <= NUM_MAX
                && -NUM_MAX <= z <= NUM_MAX),
            r matches Some(q) ==> q == (Quaternion { s, x, y, z, den }),
    {
        if 1 <= den && den <= DEN_MAX && -NUM_MAX <= s && s <= NUM_MAX && -NUM_MAX <= x
            && x <= NUM_MAX && -NUM_MAX <= y && y <= NUM_MAX && -NUM_MAX <= z
            && z <= NUM_MAX {
            Some(Quaternion { s, x, y, z, den })
        } else {
            None
        }
    }
}

/// A point on the sphere of radius `den` has every component within `den`.
pub proof fn lemma_quaternion_bound(s: int, x: int, y: int, z: int, den: int)
    by (nonlinear_arith)
    requires
        1 <= den,
        s * s + x * x + y * y + z * z == den * den,
    ensures
        -den <= s <= den,
        -den <= x <= den,
        -den <= y <= den,
        -den <= z <= den,
{
}

/// Column and row zero of the quaternion matrix have length `n`:
/// quadratic once the product relations are given.
proof fn lemma_quat_norm0(
    a: int, b: int, c: int, d: int, e: int, f: int, g: int, h: int, n: int,
)
    requires
        n == a + b + c + d,
        e * e == b * c,
        f * f == a * d,
        g * g == b * d,
        h * h == a * c,
        e * f == g * h,
    ensures
        (a + b - c - d) * (a + b - c - d) + (2 * (e + f)) * (2 * (e + f))
            + (2 * (g - h)) * (2 * (g - h)) == n * n,
        (a + b - c - d) * (a + b - c - d) + (2 * (e - f)) * (2 * (e - f))
            + (2 * (g + h)) * (2 * (g + h)) == n * n,
{
    assert(n * n == (a * a) + (b * b) + (c * c) + (d * d) + 2 * (a * b) + 2 * (a * c)
        + 2 * (a * d) + 2 * (b * c) + 2 * (b * d) + 2 * (c * d)) by (nonlinear_arith)
        requires
            n == a + b + c + d,
    ;
    assert((a + b - c - d) * (a + b - c - d)
        == (a * a) + (a * b) - (a * c) - (a * d) + (a * b) + (b * b) - (b * c) - (b * d) - (a * c) - (b * c) + (c * c) + (c * d) - (a * d) - (b * d) + (c * d) + (d * d)) by (nonlinear_arith);
    assert((2 * (e + f)) * (2 * (e + f))
        == 4 * (e * e) + 4 * (e * f) + 4 * (e * f) + 4 * (f * f)) by (nonlinear_arith);
    assert((2 * (g - h)) * (2 * (g - h))
        == 4 * (g * g) - 4 * (g * h) - 4 * (g * h) + 4 * (h * h)) by (nonlinear_arith);
    assert((2 * (e - f)) * (2 * (e - f))
        == 4 * (e * e) - 4 * (e * f) - 4 * (e * f) + 4 * (f * f)) by (nonlinear_arith);
    assert((2 * (g + h)) * (2 * (g + h))
        == 4 * (g * g) + 4 * (g * h) + 4 * (g * h) + 4 * (h * h)) by (nonlinear_arith);
}

/// Column and row one of the quaternion matrix have length `n`.
proof fn lemma_quat_norm1(
    a: int, b: int, c: int, d: int, e: int, f: int, k: int, l: int, n: int,
)
    requires
        n == a + b + c + d,
        e * e == b * c,
        f * f == a * d,
        k * k == c * d,
        l * l == a * b,
        e * f == k * l,
    ensures
        (2 * (e - f)) * (2 * (e - f)) + (a - b + c - d) * (a - b + c - d)
            + (2 * (k + l)) * (2 * (k + l)) == n * n,
        (2 * (e + f)) * (2 * (e + f)) + (a - b + c - d) * (a - b + c - d)
            + (2 * (k - l)) * (2 * (k - l)) == n * n,
{
    assert(n * n == (a * a) + (b * b) + (c * c) + (d * d) + 2 * (a * b) + 2 * (a * c)
        + 2 * (a * d) + 2 * (b * c) + 2 * (b * d) + 2 * (c * d)) by (nonlinear_arith)
        requires
            n == a + b + c + d,
    ;
    assert((2 * (e - f)) * (2 * (e - f))
        == 4 * (e * e) - 4 * (e * f) - 4 * (e * f) + 4 * (f * f)) by (nonlinear_arith);
    assert((a - b + c - d) * (a - b + c - d)
        == (a * a) - (a * b) + (a * c) - (a * d) - (a * b) + (b * b) - (b * c) + (b * d) + (a * c) - (b * c) + (c * c) - (c * d) - (a * d) + (b * d) - (c * d) + (d * d)) by (nonlinear_arith);
    assert((2 * (k + l)) * (2 * (k + l))
        == 4 * (k * k) + 4 * (k * l) + 4 * (k * l) + 4 * (l * l)) by (nonlinear_arith);
    assert((2 * (e + f)) * (2 * (e + f))
        == 4 * (e * e) + 4 * (e * f) + 4 * (e * f) + 4 * (f * f)) by (nonlinear_arith);
    assert((2 * (k - l)) * (2 * (k - l))
        == 4 * (k * k) - 4 * (k * l) - 4 * (k * l) + 4 * (l * l)) by (nonlinear_arith);
}

/// Column and row two of the quaternion matrix have length `n`.
proof fn lemma_quat_norm2(
    a: int, b: int, c: int, d: int, g: int, h: int, k: int, l: int, n: int,
)
    requires
        n == a + b + c + d,
        g * g == b * d,
        h * h == a * c,
        k * k == c * d,
        l * l == a * b,
        g * h == k * l,
    ensures
        (2 * (g + h)) * (2 * (g + h)) + (2 * (k - l)) * (2 * (k - l))
            + (a - b - c + d) * (a - b - c + d) == n * n,
        (2 * (g - h)) * (2 * (g - h)) + (2 * (k + l)) * (2 * (k + l))
            + (a - b - c + d) * (a - b - c + d) == n * n,
{
    assert(n * n == (a * a) + (b * b) + (c * c) + (d * d) + 2 * (a * b) + 2 * (a * c)
        + 2 * (a * d) + 2 * (b * c) + 2 * (b * d) + 2 * (c * d)) by (nonlinear_arith)
        requires
            n == a + b + c + d,
    ;
    assert((2 * (g + h)) * (2 * (g + h))
        == 4 * (g * g) + 4 * (g * h) + 4 * (g * h) + 4 * (h * h)) by (nonlinear_arith);
    assert((2 * (k - l)) * (2 * (k - l))
        == 4 * (k * k) - 4 * (k * l) - 4 * (k * l) + 4 * (l * l)) by (nonlinear_arith);
    assert((a - b - c + d) * (a - b - c + d)
        == (a * a) - (a * b) - (a * c) + (a * d) - (a * b) + (b * b) + (b * c) - (b * d) - (a * c) + (b * c) + (c * c) - (c * d) + (a * d) - (b * d) - (c * d) + (d * d)) by (nonlinear_arith);
    assert((2 * (g - h)) * (2 * (g - h))
        == 4 * (g * g) - 4 * (g * h) - 4 * (g * h) + 4 * (h * h)) by (nonlinear_arith);
    assert((2 * (k + l)) * (2 * (k + l))
        == 4 * (k * k) + 4 * (k * l) + 4 * (k * l) + 4 * (l * l)) by (nonlinear_arith);
}

/// Columns zero and one (and rows zero and one) are perpendicular.
proof fn lemma_quat_dot01(
    a: int, b: int, c: int, d: int, e: int, f: int, g: int, h: int, k: int, l: int,
)
    requires
        g * k == d * e,
        g * l == b * f,
        h * k == c * f,
        h * l == a * e,
    ensures
        (a + b - c - d) * (2 * (e - f)) + (2 * (e + f)) * (a - b + c - d)
            + (2 * (g - h)) * (2 * (k + l)) == 0,
        (a + b - c - d) * (2 * (e + f)) + (2 * (e - f)) * (a - b + c - d)
            + (2 * (g + h)) * (2 * (k - l)) == 0,
{
    assert((a + b - c - d) * (2 * (e - f))
        == 2 * (a * e) - 2 * (a * f) + 2 * (b * e) - 2 * (b * f) - 2 * (c * e) + 2 * (c * f) - 2 * (d * e) + 2 * (d * f)) by (nonlinear_arith);
    assert((2 * (e + f)) * (a - b + c - d)
        == 2 * (a * e) - 2 * (b * e) + 2 * (c * e) - 2 * (d * e) + 2 * (a * f) - 2 * (b * f) + 2 * (c * f) - 2 * (d * f)) by (nonlinear_arith);
    assert((2 * (g - h)) * (2 * (k + l))
        == 4 * (g * k) + 4 * (g * l) - 4 * (h * k) - 4 * (h * l)) by (nonlinear_arith);
    assert((a + b - c - d) * (2 * (e + f))
        == 2 * (a * e) + 2 * (a * f) + 2 * (b * e) + 2 * (b * f) - 2 * (c * e) - 2 * (c * f) - 2 * (d * e) - 2 * (d * f)) by (nonlinear_arith);
    assert((2 * (e - f)) * (a - b + c - d)
        == 2 * (a * e) - 2 * (b * e) + 2 * (c * e) - 2 * (d * e) - 2 * (a * f) + 2 * (b * f) - 2 * (c * f) + 2 * (d * f)) by (nonlinear_arith);
    assert((2 * (g + h)) * (2 * (k - l))
        == 4 * (g * k) - 4 * (g * l) + 4 * (h * k) - 4 * (h * l)) by (nonlinear_arith);
}

/// Columns zero and two (and rows zero and two) are perpendicular.
proof fn lemma_quat_dot02(
    a: int, b: int, c: int, d: int, e: int, f: int, g: int, h: int, k: int, l: int,
)
    requires
        e * k == c * g,
        e * l == b * h,
        f * k == d * h,
        f * l == a * g,
    ensures
        (a + b - c - d) * (2 * (g + h)) + (2 * (e + f)) * (2 * (k - l))
            + (2 * (g - h)) * (a - b - c + d) == 0,
        (a + b - c - d) * (2 * (g - h)) + (2 * (e - f)) * (2 * (k + l))
            + (2 * (g + h)) * (a - b - c + d) == 0,
{
    assert((a + b - c - d) * (2 * (g + h))
        == 2 * (a * g) + 2 * (a * h) + 2 * (b * g) + 2 * (b * h) - 2 * (c * g) - 2 * (c * h) - 2 * (d * g) - 2 * (d * h)) by (nonlinear_arith);
    assert((2 * (e + f)) * (2 * (k - l))
        == 4 * (e * k) - 4 * (e * l) + 4 * (f * k) - 4 * (f * l)) by (nonlinear_arith);
    assert((2 * (g - h)) * (a - b - c + d)
        == 2 * (a * g) - 2 * (b * g) - 2 * (c * g) + 2 * (d * g) - 2 * (a * h) + 2 * (b * h) + 2 * (c * h) - 2 * (d * h)) by (nonlinear_arith);
    assert((a + b - c - d) * (2 * (g - h))
        == 2 * (a * g) - 2 * (a * h) + 2 * (b * g) - 2 * (b * h) - 2 * (c * g) + 2 * (c * h) - 2 * (d * g) + 2 * (d * h)) by (nonlinear_arith);
    assert((2 * (e - f)) * (2 * (k + l))
        == 4 * (e * k) + 4 * (e * l) - 4 * (f * k) - 4 * (f * l)) by (nonlinear_arith);
    assert((2 * (g + h)) * (a - b - c + d)
        == 2 * (a * g) - 2 * (b * g) - 2 * (c * g) + 2 * (d * g) + 2 * (a * h) - 2 * (b * h) - 2 * (c * h) + 2 * (d * h)) by (nonlinear_arith);
}

/// Columns one and two (and rows one and two) are perpendicular.
proof fn lemma_quat_dot12(
    a: int, b: int, c: int, d: int, e: int, f: int, g: int, h: int, k: int, l: int,
)
    requires
        e * g == b * k,
        e * h == c * l,
        f * g == d * l,
        f * h == a * k,
    ensures
        (2 * (e - f)) * (2 * (g + h)) + (a - b + c - d) * (2 * (k - l))
            + (2 * (k + l)) * (a - b - c + d) == 0,
        (2 * (e + f)) * (2 * (g - h)) + (a - b + c - d) * (2 * (k + l))
            + (2 * (k - l)) * (a - b - c + d) == 0,
{
    assert((2 * (e - f)) * (2 * (g + h))
        == 4 * (e * g) + 4 * (e * h) - 4 * (f * g) - 4 * (f * h)) by (nonlinear_arith);
    assert((a - b + c - d) * (2 * (k - l))
        == 2 * (a * k) - 2 * (a * l) - 2 * (b * k) + 2 * (b * l) + 2 * (c * k) - 2 * (c * l) - 2 * (d * k) + 2 * (d * l)) by (nonlinear_arith);
    assert((2 * (k + l)) * (a - b - c + d)
        == 2 * (a * k) - 2 * (b * k) - 2 * (c * k) + 2 * (d * k) + 2 * (a * l) - 2 * (b * l) - 2 * (c * l) + 2 * (d * l)) by (nonlinear_arith);
    assert((2 * (e + f)) * (2 * (g - h))
        == 4 * (e * g) - 4 * (e * h) + 4 * (f * g) - 4 * (f * h)) by (nonlinear_arith);
    assert((a - b + c - d) * (2 * (k + l))
        == 2 * (a * k) + 2 * (a * l) - 2 * (b * k) - 2 * (b * l) + 2 * (c * k) + 2 * (c * l) - 2 * (d * k) - 2 * (d * l)) by (nonlinear_arith);
    assert((2 * (k - l)) * (a - b - c + d)
        == 2 * (a * k) - 2 * (b * k) - 2 * (c * k) + 2 * (d * k) - 2 * (a * l) + 2 * (b * l) + 2 * (c * l) - 2 * (d * l)) by (nonlinear_arith);
}

/// The quadratic forms of a unit quaternion make an orthonormal matrix:
/// all twelve orthonormality equations, over the ten pairwise products of
/// the components.  The callers discharge the product relations by
/// regrouping; with them every equation is quadratic.
pub proof fn lemma_quaternion_matrix_orthonormal(
    a: int, b: int, c: int, d: int, e: int, f: int, g: int, h: int, k: int, l: int,
    n: int,
)
    requires
        n == a + b + c + d,
        e * e == b * c,
        f * f == a * d,
        g * g == b * d,
        h * h == a * c,
        k * k == c * d,
        l * l == a * b,
        e * f == g * h,
        e * f == k * l,
        g * h == k * l,
        g * k == d * e,
        g * l == b * f,
        h * k == c * f,
        h * l == a * e,
        e * k == c * g,
        e * l == b * h,
        f * k == d * h,
        f * l == a * g,
        e * g == b * k,
        e * h == c * l,
        f * g == d * l,
        f * h == a * k,
    ensures
        (a + b - c - d) * (a + b - c - d) + (2 * (e + f)) * (2 * (e + f))
            + (2 * (g - h)) * (2 * (g - h)) == n * n,
        (2 * (e - f)) * (2 * (e - f)) + (a - b + c - d) * (a - b + c - d)
            + (2 * (k + l)) * (2 * (k + l)) == n * n,
        (2 * (g + h)) * (2 * (g + h)) + (2 * (k - l)) * (2 * (k - l))
            + (a - b - c + d) * (a - b - c + d) == n * n,
        (a + b - c - d) * (2 * (e - f)) + (2 * (e + f)) * (a - b + c - d)
            + (2 * (g - h)) * (2 * (k + l)) == 0,
        (a + b - c - d) * (2 * (g + h)) + (2 * (e + f)) * (2 * (k - l))
            + (2 * (g - h)) * (a - b - c + d) == 0,
        (2 * (e - f)) * (2 * (g + h)) + (a - b + c - d) * (2 * (k - l))
            + (2 * (k + l)) * (a - b - c + d) == 0,
        (a + b - c - d) * (a + b - c - d) + (2 * (e - f)) * (2 * (e - f))
            + (2 * (g + h)) * (2 * (g + h)) == n * n,
        (2 * (e + f)) * (2 * (e + f)) + (a - b + c - d) * (a - b + c - d)
            + (2 * (k - l)) * (2 * (k - l)) == n * n,
        (2 * (g - h)) * (2 * (g - h)) + (2 * (k + l)) * (2 * (k + l))
            + (a - b - c + d) * (a - b - c + d) == n * n,
        (a + b - c - d) * (2 * (e + f)) + (2 * (e - f)) * (a - b + c - d)
            + (2 * (g + h)) * (2 * (k - l)) == 0,
        (a + b - c - d) * (2 * (g - h)) + (2 * (e - f)) * (2 * (k + l))
            + (2 * (g + h)) * (a - b - c + d) == 0,
        (2 * (e + f)) * (2 * (g - h)) + (a - b + c - d) * (2 * (k + l))
            + (2 * (k - l)) * (a - b - c + d) == 0,
{
    lemma_quat_norm0(a, b, c, d, e, f, g, h, n);
    lemma_quat_norm1(a, b, c, d, e, f, k, l, n);
    lemma_quat_norm2(a, b, c, d, g, h, k, l, n);
    lemma_quat_dot01(a, b, c, d, e, f, g, h, k, l);
    lemma_quat_dot02(a, b, c, d, e, f, g, h, k, l);
    lemma_quat_dot12(a, b, c, d, e, f, g, h, k, l);
}

} // verus!
