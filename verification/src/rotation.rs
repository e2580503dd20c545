//! Rotations, backed by an orthogonal matrix.
//!
//! A [`Basis2`] wraps one 2 by 2 matrix and a [`Basis3`] one 3 by 3 matrix,
//! each restricted to the rotation-preserving operations, so a well-formed
//! value always satisfies the orthogonality invariant.  Construction goes
//! through the identity, an angle, an axis pair or a unit quaternion;
//! composition and inversion keep the invariant, and that is proved, not
//! assumed.

use vstd::arithmetic::mul::lemma_mul_is_distributive_add_other_way;
use vstd::prelude::*;

use crate::angle::Rad;
use crate::matrix::lemma_mul_comm;
use crate::matrix::lemma_neg_mul;
use crate::matrix::lemma_neg_sq;
use crate::matrix::lemma_orthonormal_bounds2;
use crate::matrix::lemma_rotation_form_orthonormal;
use crate::matrix::lemma_rotation_form_product;
use crate::matrix::lemma_rotation_preserves_norm2;
use crate::matrix::lemma_sq_mul;
use crate::matrix::lemma_dot_cross_circle;
use crate::matrix::lemma_orthonormal_bounds3;
use crate::matrix::lemma_product_orthonormal3;
use crate::matrix::lemma_rotation_preserves_norm3;
use crate::matrix::Matrix2;
use crate::matrix::Matrix3;
use crate::point::Point2;
use crate::quaternion::lemma_quaternion_bound;
use crate::quaternion::lemma_quaternion_matrix_orthonormal;
use crate::quaternion::Quaternion;
use crate::point::Point3;
use crate::scalar::lemma_abs_mul;
use crate::scalar::lemma_mul_pos;
use crate::scalar::Rational;
use crate::scalar::ARG_MAX;
use crate::scalar::DEN_MAX;
use crate::vector::Vector2;
use crate::vector::Vector3;

verus! {

/// A two-dimensional rotation: an orthogonal 2 by 2 matrix, kept orthogonal
/// by construction.
#[derive(Clone, Copy, Debug, PartialEq, Eq, Structural)]
pub struct Basis2 {
    pub mat: Matrix2,
}

impl Basis2 {
    /// The invariant every exposed operation preserves: the matrix is well
    /// formed and has the exact shape of a plane rotation.
    pub open spec fn wf(self) -> bool {
        &&& self.mat.wf()
        &&& self.mat.rotation_form()
    }

    /// The wrapped matrix.
    pub fn as_ref(&self) -> (r: &Matrix2)
        ensures
            *r == self.mat,
    {
        &self.mat
    }

    /// The identity rotation.
    pub fn one() -> (r: Basis2)
        ensures
            r.mat == (Matrix2 { m00: 1, m01: 0, m10: 0, m11: 1, den: 1 }),
            r.wf() && r.mat.orthonormal(),
    {
        Basis2 { mat: Matrix2::identity() }
    }

    /// The rotation by `theta`, counter-clockwise.
    pub fn from_angle(theta: Rad) -> (r: Basis2)
        requires
            theta.wf(),
        ensures
            r.mat.m00 == theta.cos && r.mat.m01 == -theta.sin,
            r.mat.m10 == theta.sin && r.mat.m11 == theta.cos,
            r.mat.den == theta.den,
            r.wf() && r.mat.orthonormal(),
    {
        Basis2 { mat: Matrix2::from_angle(theta) }
    }

    /// The shortest-arc rotation carrying unit vector `a` onto unit vector
    /// `b` -- by the unsigned angle between them, as the original behaviour
    /// has it: the cosine is the dot product and the sine the absolute value
    /// of the two-dimensional cross product, so for pairs whose signed angle
    /// is negative the turn goes the other way round.  Both inputs must be
    /// exactly unit length; no normalisation is performed.
    pub fn between_vectors(a: &Vector2, b: &Vector2) -> (r: Basis2)
        requires
            a.wf(),
            b.wf(),
            a.is_unit(),
            b.is_unit(),
            a.den * b.den <= DEN_MAX,
            a.max_abs() <= ARG_MAX,
            b.max_abs() <= ARG_MAX,
        ensures
            r.wf() && r.mat.orthonormal(),
            r.mat.den == a.den * b.den,
            r.mat.m00 == a.x * b.x + a.y * b.y,
            r.mat.m10 == (if a.x * b.y - a.y * b.x >= 0 {
                a.x * b.y - a.y * b.x
            } else {
                -(a.x * b.y - a.y * b.x)
            }),
    {
        proof {
            lemma_mul_pos(a.den as int, b.den as int);
            lemma_abs_mul(a.x as int, b.x as int, ARG_MAX as int, ARG_MAX as int);
            lemma_abs_mul(a.y as int, b.y as int, ARG_MAX as int, ARG_MAX as int);
            lemma_abs_mul(a.x as int, b.y as int, ARG_MAX as int, ARG_MAX as int);
            lemma_abs_mul(a.y as int, b.x as int, ARG_MAX as int, ARG_MAX as int);
        }
        let cos: i128 = a.x * b.x + a.y * b.y;
        let cross: i128 = a.x * b.y - a.y * b.x;
        let sin: i128 = if cross >= 0 { cross } else { -cross };
        proof {
            lemma_dot_cross_circle(a.x as int, a.y as int, b.x as int, b.y as int);
            crate::matrix::lemma_neg_sq(cross as int);
            lemma_sq_mul(a.den as int, b.den as int);
        }
        let theta = Rad { cos, sin, den: a.den * b.den };
        Basis2 { mat: Matrix2::from_angle(theta) }
    }

    /// The rotation that aligns the first axis with `dir`: its first column
    /// is `dir` and its second the counter-clockwise perpendicular of `dir`.
    /// `dir` must be exactly unit length (a general direction would need an
    /// inexact normalisation), and `up` must lie strictly on the
    /// counter-clockwise side of `dir`; it only disambiguates orientation,
    /// as the perpendicular is already determined.  Degenerate pairs are
    /// rejected by the precondition rather than producing a degenerate
    /// basis.
    pub fn look_at(dir: Vector2, up: Vector2) -> (r: Basis2)
        requires
            dir.wf(),
            up.wf(),
            dir.is_unit(),
            dir.x * up.y - dir.y * up.x > 0,
        ensures
            r.wf() && r.mat.orthonormal(),
            r.mat.m00 == dir.x && r.mat.m10 == dir.y,
            r.mat.m01 == -dir.y && r.mat.m11 == dir.x,
            r.mat.den == dir.den,
    {
        proof {
            crate::angle::lemma_circle_bound(dir.x as int, dir.y as int, dir.den as int);
        }
        let theta = Rad { cos: dir.x, sin: dir.y, den: dir.den };
        Basis2 { mat: Matrix2::from_angle(theta) }
    }

    /// Rotates a free vector; the length is preserved exactly, stated over
    /// the squared norms.
    pub fn rotate_vector(&self, vec: Vector2) -> (r: Vector2)
        requires
            self.wf(),
            vec.wf(),
            self.mat.den * vec.den <= DEN_MAX,
            vec.max_abs() <= ARG_MAX,
        ensures
            Matrix2::is_vec_product(self.mat, vec, r),
            r.wf(),
            r.x * r.x + r.y * r.y == (vec.x * vec.x + vec.y * vec.y)
                * (self.mat.den * self.mat.den),
    {
        proof {
            lemma_rotation_form_orthonormal(self.mat);
            lemma_orthonormal_bounds2(self.mat);
        }
        let r = self.mat.mul_vec(&vec);
        proof {
            lemma_rotation_preserves_norm2(self.mat, vec, r);
        }
        r
    }

    /// Rotates a point by rotating the vector from the origin to it:
    /// `rotate_point(Point2::from_vec(v))` is `Point2::from_vec` of
    /// `rotate_vector(v)`, exactly.
    pub fn rotate_point(&self, point: Point2) -> (r: Point2)
        requires
            self.wf(),
            point.wf(),
            self.mat.den * point.den <= DEN_MAX,
            point.vec().max_abs() <= ARG_MAX,
        ensures
            Matrix2::is_vec_product(self.mat, point.vec(), r.vec()),
            r.wf(),
    {
        Point2::from_vec(self.rotate_vector(point.to_vec()))
    }

    /// The rotation that applies `other`, then `self`: the matrix product
    /// `self.mat * other.mat`.
    pub fn concat(&self, other: &Basis2) -> (r: Basis2)
        requires
            self.wf(),
            other.wf(),
            self.mat.den * other.mat.den <= DEN_MAX,
        ensures
            Matrix2::is_product(self.mat, other.mat, r.mat),
            r.wf() && r.mat.orthonormal(),
    {
        proof {
            lemma_rotation_form_orthonormal(self.mat);
            lemma_orthonormal_bounds2(self.mat);
            lemma_rotation_form_orthonormal(other.mat);
            lemma_orthonormal_bounds2(other.mat);
        }
        let m = self.mat.mul(&other.mat);
        proof {
            lemma_rotation_form_product(self.mat, other.mat, m);
            lemma_rotation_form_orthonormal(m);
        }
        Basis2 { mat: m }
    }

    /// Replaces `self` with `self.concat(other)`.
    pub fn concat_self(&mut self, other: &Basis2)
        requires
            old(self).wf(),
            other.wf(),
            old(self).mat.den * other.mat.den <= DEN_MAX,
        ensures
            Matrix2::is_product(old(self).mat, other.mat, final(self).mat),
            final(self).wf(),
    {
        *self = self.concat(other);
    }

    /// The inverse rotation, through the general matrix inverse.  The
    /// orthogonality invariant proves the matrix is invertible, so the
    /// failure path of the general inverse is unreachable.
    pub fn invert(&self) -> (r: Basis2)
        requires
            self.wf(),
            self.mat.den * self.mat.den <= DEN_MAX,
        ensures
            r.wf(),
            r.mat.den == self.mat.den * self.mat.den,
            self.mat.m00 * r.mat.m00 + self.mat.m01 * r.mat.m10
                == self.mat.den * r.mat.den,
            self.mat.m10 * r.mat.m01 + self.mat.m11 * r.mat.m11
                == self.mat.den * r.mat.den,
            self.mat.m00 * r.mat.m01 + self.mat.m01 * r.mat.m11 == 0,
            self.mat.m10 * r.mat.m00 + self.mat.m11 * r.mat.m10 == 0,
    {
        proof {
            lemma_rotation_form_orthonormal(self.mat);
            lemma_orthonormal_bounds2(self.mat);
            lemma_mul_pos(self.mat.den as int, self.mat.den as int);
        }
        let inv = self.mat.invert();
        match inv {
            Some(m) => {
                proof {
                    lemma_invert_form(self.mat, m);
                }
                Basis2 { mat: m }
            },
            None => vstd::pervasive::unreached(),
        }
    }

    /// Replaces `self` with its inverse.
    pub fn invert_self(&mut self)
        requires
            old(self).wf(),
            old(self).mat.den * old(self).mat.den <= DEN_MAX,
        ensures
            final(self).wf(),
            final(self).mat.den == old(self).mat.den * old(self).mat.den,
            old(self).mat.m00 * final(self).mat.m00
                + old(self).mat.m01 * final(self).mat.m10
                == old(self).mat.den * final(self).mat.den,
            old(self).mat.m10 * final(self).mat.m01
                + old(self).mat.m11 * final(self).mat.m11
                == old(self).mat.den * final(self).mat.den,
            old(self).mat.m00 * final(self).mat.m01
                + old(self).mat.m01 * final(self).mat.m11 == 0,
            old(self).mat.m10 * final(self).mat.m00
                + old(self).mat.m11 * final(self).mat.m10 == 0,
    {
        *self = self.invert();
    }

    /// Whether the two rotations agree entrywise within `eps`.
    pub fn approx_eq_eps(&self, other: &Basis2, eps: &Rational) -> (r: bool)
        requires
            self.wf(),
            other.wf(),
            eps.wf(),
            0 <= eps.num <= ARG_MAX,
        ensures
            r == self.mat.close_to(other.mat, *eps),
    {
        proof {
            lemma_rotation_form_orthonormal(self.mat);
            lemma_orthonormal_bounds2(self.mat);
            lemma_rotation_form_orthonormal(other.mat);
            lemma_orthonormal_bounds2(other.mat);
        }
        self.mat.approx_eq_eps(&other.mat, eps)
    }
}


/// A three-dimensional rotation: an orthogonal 3 by 3 matrix, kept
/// orthogonal by construction.
///
/// The conversion from a rotation matrix back to a quaternion is absent by
/// design: it needs a square root, which exact rational arithmetic does not
/// have.  The conversion from a quaternion to a matrix is exact and lives
/// in [`Basis3::from_quaternion`].
#[derive(Clone, Copy, Debug, PartialEq, Eq, Structural)]
pub struct Basis3 {
    pub mat: Matrix3,
}

impl Basis3 {
    /// The invariant every exposed operation preserves: the matrix is well
    /// formed and exactly orthogonal.
    pub open spec fn wf(self) -> bool {
        &&& self.mat.wf()
        &&& self.mat.orthonormal()
    }

    /// The wrapped matrix.
    pub fn as_ref(&self) -> (r: &Matrix3)
        ensures
            *r == self.mat,
    {
        &self.mat
    }

    /// The identity rotation.
    pub fn one() -> (r: Basis3)
        ensures
            r.mat == (Matrix3 { m00: 1, m01: 0, m02: 0, m10: 0, m11: 1, m12: 0,
                m20: 0, m21: 0, m22: 1, den: 1 }),
            r.wf(),
    {
        Basis3 { mat: Matrix3::identity() }
    }


    /// The rotation of a unit quaternion, as its exact orthogonal matrix:
    /// the standard quadratic forms over the squared denominator.  The
    /// quaternion is assumed to be exactly unit norm, as the contract
    /// requires; no normalisation is performed.
    pub fn from_quaternion(quaternion: &Quaternion) -> (r: Basis3)
        requires
            quaternion.wf(),
            quaternion.is_unit(),
            quaternion.den * quaternion.den <= DEN_MAX,
        ensures
            r.wf(),
            r.mat.den == quaternion.den * quaternion.den,
            r.mat.m00 == quaternion.s * quaternion.s + quaternion.x * quaternion.x
                - quaternion.y * quaternion.y - quaternion.z * quaternion.z,
            r.mat.m01 == 2 * (quaternion.x * quaternion.y - quaternion.s * quaternion.z),
            r.mat.m02 == 2 * (quaternion.x * quaternion.z + quaternion.s * quaternion.y),
            r.mat.m10 == 2 * (quaternion.x * quaternion.y + quaternion.s * quaternion.z),
            r.mat.m11 == quaternion.s * quaternion.s - quaternion.x * quaternion.x
                + quaternion.y * quaternion.y - quaternion.z * quaternion.z,
            r.mat.m12 == 2 * (quaternion.y * quaternion.z - quaternion.s * quaternion.x),
            r.mat.m20 == 2 * (quaternion.x * quaternion.z - quaternion.s * quaternion.y),
            r.mat.m21 == 2 * (quaternion.y * quaternion.z + quaternion.s * quaternion.x),
            r.mat.m22 == quaternion.s * quaternion.s - quaternion.x * quaternion.x
                - quaternion.y * quaternion.y + quaternion.z * quaternion.z,
    {
        let q = *quaternion;
        proof {
            lemma_mul_pos(q.den as int, q.den as int);
            lemma_quaternion_bound(q.s as int, q.x as int, q.y as int, q.z as int,
                q.den as int);
            lemma_abs_mul(q.s as int, q.s as int, DEN_MAX as int, DEN_MAX as int);
            lemma_abs_mul(q.x as int, q.x as int, DEN_MAX as int, DEN_MAX as int);
            lemma_abs_mul(q.y as int, q.y as int, DEN_MAX as int, DEN_MAX as int);
            lemma_abs_mul(q.z as int, q.z as int, DEN_MAX as int, DEN_MAX as int);
            lemma_abs_mul(q.x as int, q.y as int, DEN_MAX as int, DEN_MAX as int);
            lemma_abs_mul(q.s as int, q.z as int, DEN_MAX as int, DEN_MAX as int);
            lemma_abs_mul(q.x as int, q.z as int, DEN_MAX as int, DEN_MAX as int);
            lemma_abs_mul(q.s as int, q.y as int, DEN_MAX as int, DEN_MAX as int);
            lemma_abs_mul(q.y as int, q.z as int, DEN_MAX as int, DEN_MAX as int);
            lemma_abs_mul(q.s as int, q.x as int, DEN_MAX as int, DEN_MAX as int);
            assert((q.x * q.y) * (q.x * q.y) == (q.x * q.x) * (q.y * q.y)) by (nonlinear_arith);
            assert((q.s * q.z) * (q.s * q.z) == (q.s * q.s) * (q.z * q.z)) by (nonlinear_arith);
            assert((q.x * q.z) * (q.x * q.z) == (q.x * q.x) * (q.z * q.z)) by (nonlinear_arith);
            assert((q.s * q.y) * (q.s * q.y) == (q.s * q.s) * (q.y * q.y)) by (nonlinear_arith);
            assert((q.y * q.z) * (q.y * q.z) == (q.y * q.y) * (q.z * q.z)) by (nonlinear_arith);
            assert((q.s * q.x) * (q.s * q.x) == (q.s * q.s) * (q.x * q.x)) by (nonlinear_arith);
            assert((q.x * q.y) * (q.s * q.z) == (q.x * q.z) * (q.s * q.y)) by (nonlinear_arith);
            assert((q.x * q.y) * (q.s * q.z) == (q.y * q.z) * (q.s * q.x)) by (nonlinear_arith);
            assert((q.x * q.z) * (q.s * q.y) == (q.y * q.z) * (q.s * q.x)) by (nonlinear_arith);
            assert((q.x * q.z) * (q.y * q.z) == (q.z * q.z) * (q.x * q.y)) by (nonlinear_arith);
            assert((q.x * q.z) * (q.s * q.x) == (q.x * q.x) * (q.s * q.z)) by (nonlinear_arith);
            assert((q.s * q.y) * (q.y * q.z) == (q.y * q.y) * (q.s * q.z)) by (nonlinear_arith);
            assert((q.s * q.y) * (q.s * q.x) == (q.s * q.s) * (q.x * q.y)) by (nonlinear_arith);
            assert((q.x * q.y) * (q.y * q.z) == (q.y * q.y) * (q.x * q.z)) by (nonlinear_arith);
            assert((q.x * q.y) * (q.s * q.x) == (q.x * q.x) * (q.s * q.y)) by (nonlinear_arith);
            assert((q.s * q.z) * (q.y * q.z) == (q.z * q.z) * (q.s * q.y)) by (nonlinear_arith);
            assert((q.s * q.z) * (q.s * q.x) == (q.s * q.s) * (q.x * q.z)) by (nonlinear_arith);
            assert((q.x * q.y) * (q.x * q.z) == (q.x * q.x) * (q.y * q.z)) by (nonlinear_arith);
            assert((q.x * q.y) * (q.s * q.y) == (q.y * q.y) * (q.s * q.x)) by (nonlinear_arith);
            assert((q.s * q.z) * (q.x * q.z) == (q.z * q.z) * (q.s * q.x)) by (nonlinear_arith);
            assert((q.s * q.z) * (q.s * q.y) == (q.s * q.s) * (q.y * q.z)) by (nonlinear_arith);
            lemma_quaternion_matrix_orthonormal(
                q.s * q.s, q.x * q.x, q.y * q.y, q.z * q.z,
                q.x * q.y, q.s * q.z, q.x * q.z, q.s * q.y, q.y * q.z, q.s * q.x,
                q.den * q.den,
            );
        }
        Basis3 {
            mat: Matrix3 {
                m00: q.s * q.s + q.x * q.x - q.y * q.y - q.z * q.z,
                m01: 2 * (q.x * q.y - q.s * q.z),
                m02: 2 * (q.x * q.z + q.s * q.y),
                m10: 2 * (q.x * q.y + q.s * q.z),
                m11: q.s * q.s - q.x * q.x + q.y * q.y - q.z * q.z,
                m12: 2 * (q.y * q.z - q.s * q.x),
                m20: 2 * (q.x * q.z - q.s * q.y),
                m21: 2 * (q.y * q.z + q.s * q.x),
                m22: q.s * q.s - q.x * q.x - q.y * q.y + q.z * q.z,
                den: q.den * q.den,
            },
        }
    }

    /// The rotation by `theta` about the first axis (pitch).
    pub fn from_angle_x(theta: Rad) -> (r: Basis3)
        requires
            theta.wf(),
        ensures
            r.mat.m00 == theta.den && r.mat.m01 == 0 && r.mat.m02 == 0,
            r.mat.m10 == 0 && r.mat.m11 == theta.cos && r.mat.m12 == -theta.sin,
            r.mat.m20 == 0 && r.mat.m21 == theta.sin && r.mat.m22 == theta.cos,
            r.mat.den == theta.den,
            r.wf(),
    {
        Basis3 { mat: Matrix3::from_angle_x(theta) }
    }

    /// The rotation by `theta` about the second axis (yaw).
    pub fn from_angle_y(theta: Rad) -> (r: Basis3)
        requires
            theta.wf(),
        ensures
            r.mat.m00 == theta.cos && r.mat.m01 == 0 && r.mat.m02 == theta.sin,
            r.mat.m10 == 0 && r.mat.m11 == theta.den && r.mat.m12 == 0,
            r.mat.m20 == -theta.sin && r.mat.m21 == 0 && r.mat.m22 == theta.cos,
            r.mat.den == theta.den,
            r.wf(),
    {
        Basis3 { mat: Matrix3::from_angle_y(theta) }
    }

    /// The rotation by `theta` about the third axis (roll).
    pub fn from_angle_z(theta: Rad) -> (r: Basis3)
        requires
            theta.wf(),
        ensures
            r.mat.m00 == theta.cos && r.mat.m01 == -theta.sin && r.mat.m02 == 0,
            r.mat.m10 == theta.sin && r.mat.m11 == theta.cos && r.mat.m12 == 0,
            r.mat.m20 == 0 && r.mat.m21 == 0 && r.mat.m22 == theta.den,
            r.mat.den == theta.den,
            r.wf(),
    {
        Basis3 { mat: Matrix3::from_angle_z(theta) }
    }

    /// The rotation from Euler angles: about the first axis by `x`, then
    /// the second by `y`, then the third by `z`, in that fixed order, so
    /// the matrix is the product of the `z`, `y` and `x` single-axis
    /// rotations applied to column vectors.  The order is part of the
    /// contract, stated by the two chained products below.
    pub fn from_euler(x: Rad, y: Rad, z: Rad) -> (r: Basis3)
        requires
            x.wf(),
            y.wf(),
            z.wf(),
            y.den * x.den <= DEN_MAX,
            z.den * (y.den * x.den) <= DEN_MAX,
        ensures
            r.wf(),
            r.mat.den == z.den * (y.den * x.den),
            exists|mid: Basis3|
                {
                    &&& #[trigger] Matrix3::is_product(Basis3::from_angle_y_spec(y),
                        Basis3::from_angle_x_spec(x), mid.mat)
                    &&& Matrix3::is_product(Basis3::from_angle_z_spec(z), mid.mat, r.mat)
                },
    {
        let rx = Matrix3::from_angle_x(x);
        let ry = Matrix3::from_angle_y(y);
        let rz = Matrix3::from_angle_z(z);
        proof {
            lemma_orthonormal_bounds3(rx);
            lemma_orthonormal_bounds3(ry);
            lemma_orthonormal_bounds3(rz);
            assert(rx == Basis3::from_angle_x_spec(x));
            assert(ry == Basis3::from_angle_y_spec(y));
            assert(rz == Basis3::from_angle_z_spec(z));
        }
        let inner = ry.mul(&rx);
        proof {
            lemma_product_orthonormal3(ry, rx, inner);
            lemma_orthonormal_bounds3(inner);
        }
        let full = rz.mul(&inner);
        proof {
            lemma_product_orthonormal3(rz, inner, full);
            assert(Matrix3::is_product(Basis3::from_angle_y_spec(y),
                Basis3::from_angle_x_spec(x), (Basis3 { mat: inner }).mat));
        }
        Basis3 { mat: full }
    }

    /// The single-axis rotation about the first axis, as a matrix value.
    pub open spec fn from_angle_x_spec(t: Rad) -> Matrix3 {
        Matrix3 { m00: t.den, m01: 0, m02: 0, m10: 0, m11: t.cos,
            m12: (-t.sin) as i128, m20: 0, m21: t.sin, m22: t.cos, den: t.den }
    }

    /// The single-axis rotation about the second axis, as a matrix value.
    pub open spec fn from_angle_y_spec(t: Rad) -> Matrix3 {
        Matrix3 { m00: t.cos, m01: 0, m02: t.sin, m10: 0, m11: t.den,
            m12: 0, m20: (-t.sin) as i128, m21: 0, m22: t.cos, den: t.den }
    }

    /// The single-axis rotation about the third axis, as a matrix value.
    pub open spec fn from_angle_z_spec(t: Rad) -> Matrix3 {
        Matrix3 { m00: t.cos, m01: (-t.sin) as i128, m02: 0, m10: t.sin,
            m11: t.cos, m12: 0, m20: 0, m21: 0, m22: t.den, den: t.den }
    }

    /// Rotates a free vector; the length is preserved exactly, stated over
    /// the squared norms.
    pub fn rotate_vector(&self, vec: Vector3) -> (r: Vector3)
        requires
            self.wf(),
            vec.wf(),
            self.mat.den * vec.den <= DEN_MAX,
            vec.max_abs() <= ARG_MAX,
        ensures
            Matrix3::is_vec_product(self.mat, vec, r),
            r.wf(),
            r.x * r.x + r.y * r.y + r.z * r.z
                == (vec.x * vec.x + vec.y * vec.y + vec.z * vec.z)
                * (self.mat.den * self.mat.den),
    {
        proof {
            lemma_orthonormal_bounds3(self.mat);
        }
        let r = self.mat.mul_vec(&vec);
        proof {
            lemma_rotation_preserves_norm3(self.mat, vec, r);
        }
        r
    }

    /// Rotates a point by rotating the vector from the origin to it:
    /// `rotate_point(Point3::from_vec(v))` is `Point3::from_vec` of
    /// `rotate_vector(v)`, exactly.
    pub fn rotate_point(&self, point: Point3) -> (r: Point3)
        requires
            self.wf(),
            point.wf(),
            self.mat.den * point.den <= DEN_MAX,
            point.vec().max_abs() <= ARG_MAX,
        ensures
            Matrix3::is_vec_product(self.mat, point.vec(), r.vec()),
            r.wf(),
    {
        Point3::from_vec(self.rotate_vector(point.to_vec()))
    }

    /// The rotation that applies `other`, then `self`: the matrix product
    /// `self.mat * other.mat`.
    pub fn concat(&self, other: &Basis3) -> (r: Basis3)
        requires
            self.wf(),
            other.wf(),
            self.mat.den * other.mat.den <= DEN_MAX,
        ensures
            Matrix3::is_product(self.mat, other.mat, r.mat),
            r.wf(),
    {
        proof {
            lemma_orthonormal_bounds3(self.mat);
            lemma_orthonormal_bounds3(other.mat);
        }
        let m = self.mat.mul(&other.mat);
        proof {
            lemma_product_orthonormal3(self.mat, other.mat, m);
        }
        Basis3 { mat: m }
    }

    /// Replaces `self` with `self.concat(other)`.
    pub fn concat_self(&mut self, other: &Basis3)
        requires
            old(self).wf(),
            other.wf(),
            old(self).mat.den * other.mat.den <= DEN_MAX,
        ensures
            Matrix3::is_product(old(self).mat, other.mat, final(self).mat),
            final(self).wf(),
    {
        *self = self.concat(other);
    }

    /// The inverse rotation: the transpose over the same denominator.  For
    /// an orthogonal matrix the transpose is the inverse, so no general
    /// inversion (and no growth of the denominator) is needed; the product
    /// equations below are exactly the row-orthonormality half of the
    /// invariant.
    pub fn invert(&self) -> (r: Basis3)
        requires
            self.wf(),
        ensures
            r.wf(),
            r.mat.den == self.mat.den,
            r.mat.m00 == self.mat.m00 && r.mat.m01 == self.mat.m10
                && r.mat.m02 == self.mat.m20,
            r.mat.m10 == self.mat.m01 && r.mat.m11 == self.mat.m11
                && r.mat.m12 == self.mat.m21,
            r.mat.m20 == self.mat.m02 && r.mat.m21 == self.mat.m12
                && r.mat.m22 == self.mat.m22,
            self.mat.m00 * r.mat.m00 + self.mat.m01 * r.mat.m10
                + self.mat.m02 * r.mat.m20 == self.mat.den * r.mat.den,
            self.mat.m10 * r.mat.m01 + self.mat.m11 * r.mat.m11
                + self.mat.m12 * r.mat.m21 == self.mat.den * r.mat.den,
            self.mat.m20 * r.mat.m02 + self.mat.m21 * r.mat.m12
                + self.mat.m22 * r.mat.m22 == self.mat.den * r.mat.den,
            self.mat.m00 * r.mat.m01 + self.mat.m01 * r.mat.m11
                + self.mat.m02 * r.mat.m21 == 0,
            self.mat.m00 * r.mat.m02 + self.mat.m01 * r.mat.m12
                + self.mat.m02 * r.mat.m22 == 0,
            self.mat.m10 * r.mat.m02 + self.mat.m11 * r.mat.m12
                + self.mat.m12 * r.mat.m22 == 0,
    {
        Basis3 {
            mat: Matrix3 {
                m00: self.mat.m00,
                m01: self.mat.m10,
                m02: self.mat.m20,
                m10: self.mat.m01,
                m11: self.mat.m11,
                m12: self.mat.m21,
                m20: self.mat.m02,
                m21: self.mat.m12,
                m22: self.mat.m22,
                den: self.mat.den,
            },
        }
    }

    /// Replaces `self` with its inverse.
    pub fn invert_self(&mut self)
        requires
            old(self).wf(),
        ensures
            final(self).wf(),
            final(self).mat.den == old(self).mat.den,
            final(self).mat.m00 == old(self).mat.m00
                && final(self).mat.m01 == old(self).mat.m10
                && final(self).mat.m02 == old(self).mat.m20,
            final(self).mat.m10 == old(self).mat.m01
                && final(self).mat.m11 == old(self).mat.m11
                && final(self).mat.m12 == old(self).mat.m21,
            final(self).mat.m20 == old(self).mat.m02
                && final(self).mat.m21 == old(self).mat.m12
                && final(self).mat.m22 == old(self).mat.m22,
    {
        *self = self.invert();
    }

    /// Whether the two rotations agree entrywise within `eps`.
    pub fn approx_eq_eps(&self, other: &Basis3, eps: &Rational) -> (r: bool)
        requires
            self.wf(),
            other.wf(),
            eps.wf(),
            0 <= eps.num <= ARG_MAX,
        ensures
            r == self.mat.close_to(other.mat, *eps),
    {
        proof {
            lemma_orthonormal_bounds3(self.mat);
            lemma_orthonormal_bounds3(other.mat);
        }
        self.mat.approx_eq_eps(&other.mat, eps)
    }
}

/// The adjugate-based inverse of a rotation-shaped matrix has the rotation
/// shape again, over the squared denominator.
proof fn lemma_invert_form(a: Matrix2, m: Matrix2)
    requires
        a.rotation_form(),
        1 <= a.den,
        m.den == a.det(),
        m.m00 == a.m11 * a.den,
        m.m01 == -(a.m01 * a.den),
        m.m10 == -(a.m10 * a.den),
        m.m11 == a.m00 * a.den,
    ensures
        m.rotation_form(),
{
    let a00 = a.m00 as int;
    let a10 = a.m10 as int;
    let den = a.den as int;
    lemma_neg_mul(a10, a10);
    assert(a.det() == a00 * a00 + a10 * a10);
    assert(m.den == den * den);
    assert(m.m00 == a00 * den);
    lemma_neg_mul(den, a10);
    lemma_mul_comm(a10, den);
    assert(m.m01 == a10 * den);
    assert(m.m01 == -m.m10);
    lemma_neg_sq(a10 * den);
    lemma_sq_mul(a00, den);
    lemma_sq_mul(a10, den);
    lemma_mul_is_distributive_add_other_way(den * den, a00 * a00, a10 * a10);
    assert(m.m00 * m.m00 + m.m10 * m.m10 == (a00 * a00 + a10 * a10) * (den * den));
    lemma_sq_mul(den, den);
    assert(m.m00 * m.m00 + m.m10 * m.m10 == m.den * m.den);
}

} // verus!
