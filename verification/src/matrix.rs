//! Exact dense matrices, and the rotation-matrix constructors.
//!
//! A matrix stores integer entries over one positive denominator:
//! `Matrix2 { m00, m01, m10, m11, den }` is the matrix with rows
//! `(m00/den, m01/den)` and `(m10/den, m11/den)`.  The predicate
//! `orthonormal` says the matrix is a pure rotation: rows and columns
//! orthonormal and determinant positive, all stated and proved exactly.
//! Vectors multiply on the right (columns), so `m * v` applies the
//! rotation whose image of the axes is the columns of `m`.

use vstd::arithmetic::mul::lemma_mul_is_distributive_add;
use vstd::arithmetic::mul::lemma_mul_is_distributive_add_other_way;
use vstd::prelude::*;

use crate::angle::Rad;
use crate::scalar::lemma_abs_mul;
use crate::scalar::lemma_mul_pos;
use crate::scalar::num_close;
use crate::scalar::num_close_exec;
use crate::scalar::Rational;
use crate::scalar::ARG_MAX;
use crate::scalar::DEN_MAX;
use crate::scalar::NUM_MAX;
use crate::vector::Vector2;
use crate::vector::Vector3;

verus! {

/// An exact 2 by 2 matrix with entries `m_ij / den` (row `i`, column `j`).
#[derive(Clone, Copy, Debug, PartialEq, Eq, Structural)]
pub struct Matrix2 {
    pub m00: i128,
    pub m01: i128,
    pub m10: i128,
    pub m11: i128,
    pub den: i128,
}

impl Matrix2 {
    pub open spec fn wf(self) -> bool {
        &&& 1 <= self.den <= DEN_MAX
        &&& -NUM_MAX <= self.m00 <= NUM_MAX
        &&& -NUM_MAX <= self.m01 <= NUM_MAX
        &&& -NUM_MAX <= self.m10 <= NUM_MAX
        &&& -NUM_MAX <= self.m11 <= NUM_MAX
    }

    /// The exact determinant numerator; the determinant is `det / den^2`.
    pub open spec fn det(self) -> int {
        self.m00 * self.m11 - self.m01 * self.m10
    }

    /// The shape of a plane rotation: equal diagonal, opposite
    /// off-diagonal, and a first column of length `den`.  Together these
    /// force every orthonormality equation; see
    /// `lemma_rotation_form_orthonormal`.
    pub open spec fn rotation_form(self) -> bool {
        &&& self.m11 == self.m00
        &&& self.m01 == -self.m10
        &&& self.m00 * self.m00 + self.m10 * self.m10 == self.den * self.den
    }

    /// A pure rotation: columns and rows orthonormal (scaled by `den`) and
    /// determinant `+1`, all exactly.
    pub open spec fn orthonormal(self) -> bool {
        &&& self.m00 * self.m00 + self.m10 * self.m10 == self.den * self.den
        &&& self.m01 * self.m01 + self.m11 * self.m11 == self.den * self.den
        &&& self.m00 * self.m01 + self.m10 * self.m11 == 0
        &&& self.m00 * self.m00 + self.m01 * self.m01 == self.den * self.den
        &&& self.m10 * self.m10 + self.m11 * self.m11 == self.den * self.den
        &&& self.m00 * self.m10 + self.m01 * self.m11 == 0
        &&& self.det() == self.den * self.den
    }

    /// `c` holds the exact entries of the matrix product `a * b`.
    pub open spec fn is_product(a: Matrix2, b: Matrix2, c: Matrix2) -> bool {
        &&& c.m00 == a.m00 * b.m00 + a.m01 * b.m10
        &&& c.m01 == a.m00 * b.m01 + a.m01 * b.m11
        &&& c.m10 == a.m10 * b.m00 + a.m11 * b.m10
        &&& c.m11 == a.m10 * b.m01 + a.m11 * b.m11
        &&& c.den == a.den * b.den
    }

    /// `r` holds the exact entries of the product `m * v`.
    pub open spec fn is_vec_product(m: Matrix2, v: Vector2, r: Vector2) -> bool {
        &&& r.x == m.m00 * v.x + m.m01 * v.y
        &&& r.y == m.m10 * v.x + m.m11 * v.y
        &&& r.den == m.den * v.den
    }

    /// Same matrix value: equal entries after cross multiplying by the
    /// denominators.
    pub open spec fn same_value(self, other: Matrix2) -> bool {
        &&& self.m00 * other.den == other.m00 * self.den
        &&& self.m01 * other.den == other.m01 * self.den
        &&& self.m10 * other.den == other.m10 * self.den
        &&& self.m11 * other.den == other.m11 * self.den
    }

    /// Every entry of `self` within `eps` of the matching entry of `other`.
    pub open spec fn close_to(self, other: Matrix2, eps: Rational) -> bool {
        &&& num_close(self.m00 as int, self.den as int, other.m00 as int, other.den as int,
            eps.num as int, eps.den as int)
        &&& num_close(self.m01 as int, self.den as int, other.m01 as int, other.den as int,
            eps.num as int, eps.den as int)
        &&& num_close(self.m10 as int, self.den as int, other.m10 as int, other.den as int,
            eps.num as int, eps.den as int)
        &&& num_close(self.m11 as int, self.den as int, other.m11 as int, other.den as int,
            eps.num as int, eps.den as int)
    }

    /// The identity matrix.
    pub fn identity() -> (r: Matrix2)
        ensures
            r == (Matrix2 { m00: 1, m01: 0, m10: 0, m11: 1, den: 1 }),
            r.wf() && r.rotation_form() && r.orthonormal(),
    {
        Matrix2 { m00: 1, m01: 0, m10: 0, m11: 1, den: 1 }
    }

    /// The rotation by `theta`, counter-clockwise in the standard
    /// orientation: columns `(cos, sin)` and `(-sin, cos)`.
    pub fn from_angle(theta: Rad) -> (r: Matrix2)
        requires
            theta.wf(),
        ensures
            r.m00 == theta.cos && r.m01 == -theta.sin,
            r.m10 == theta.sin && r.m11 == theta.cos,
            r.den == theta.den,
            r.wf() && r.rotation_form() && r.orthonormal(),
    {
        proof {
            crate::angle::lemma_circle_bound(theta.cos as int, theta.sin as int,
                theta.den as int);
            lemma_neg_sq(theta.sin as int);
            lemma_neg_mul(theta.cos as int, theta.sin as int);
            lemma_neg_mul(theta.sin as int, theta.sin as int);
            lemma_mul_comm(theta.cos as int, theta.sin as int);
        }
        Matrix2 { m00: theta.cos, m01: -theta.sin, m10: theta.sin, m11: theta.cos,
            den: theta.den }
    }

    /// The exact matrix product `self * other`.
    pub fn mul(&self, other: &Matrix2) -> (r: Matrix2)
        requires
            self.wf(),
            other.wf(),
            self.den * other.den <= DEN_MAX,
            self.max_abs() <= ARG_MAX,
            other.max_abs() <= ARG_MAX,
        ensures
            Matrix2::is_product(*self, *other, r),
            r.wf(),
    {
        proof {
            lemma_mul_pos(self.den as int, other.den as int);
            lemma_abs_mul(self.m00 as int, other.m00 as int, ARG_MAX as int, ARG_MAX as int);
            lemma_abs_mul(self.m01 as int, other.m10 as int, ARG_MAX as int, ARG_MAX as int);
            lemma_abs_mul(self.m00 as int, other.m01 as int, ARG_MAX as int, ARG_MAX as int);
            lemma_abs_mul(self.m01 as int, other.m11 as int, ARG_MAX as int, ARG_MAX as int);
            lemma_abs_mul(self.m10 as int, other.m00 as int, ARG_MAX as int, ARG_MAX as int);
            lemma_abs_mul(self.m11 as int, other.m10 as int, ARG_MAX as int, ARG_MAX as int);
            lemma_abs_mul(self.m10 as int, other.m01 as int, ARG_MAX as int, ARG_MAX as int);
            lemma_abs_mul(self.m11 as int, other.m11 as int, ARG_MAX as int, ARG_MAX as int);
        }
        Matrix2 {
            m00: self.m00 * other.m00 + self.m01 * other.m10,
            m01: self.m00 * other.m01 + self.m01 * other.m11,
            m10: self.m10 * other.m00 + self.m11 * other.m10,
            m11: self.m10 * other.m01 + self.m11 * other.m11,
            den: self.den * other.den,
        }
    }

    /// The exact matrix-vector product `self * v`.
    pub fn mul_vec(&self, v: &Vector2) -> (r: Vector2)
        requires
            self.wf(),
            v.wf(),
            self.den * v.den <= DEN_MAX,
            self.max_abs() <= ARG_MAX,
            v.max_abs() <= ARG_MAX,
        ensures
            Matrix2::is_vec_product(*self, *v, r),
            r.wf(),
    {
        proof {
            lemma_mul_pos(self.den as int, v.den as int);
            lemma_abs_mul(self.m00 as int, v.x as int, ARG_MAX as int, ARG_MAX as int);
            lemma_abs_mul(self.m01 as int, v.y as int, ARG_MAX as int, ARG_MAX as int);
            lemma_abs_mul(self.m10 as int, v.x as int, ARG_MAX as int, ARG_MAX as int);
            lemma_abs_mul(self.m11 as int, v.y as int, ARG_MAX as int, ARG_MAX as int);
        }
        Vector2 {
            x: self.m00 * v.x + self.m01 * v.y,
            y: self.m10 * v.x + self.m11 * v.y,
            den: self.den * v.den,
        }
    }

    /// The exact determinant, as a scalar.
    pub fn determinant(&self) -> (r: Rational)
        requires
            self.wf(),
            self.max_abs() <= ARG_MAX,
            self.den * self.den <= DEN_MAX,
            -NUM_MAX <= self.det() <= NUM_MAX,
        ensures
            r.num == self.det(),
            r.den == self.den * self.den,
            r.wf(),
    {
        proof {
            lemma_mul_pos(self.den as int, self.den as int);
            lemma_abs_mul(self.m00 as int, self.m11 as int, ARG_MAX as int, ARG_MAX as int);
            lemma_abs_mul(self.m01 as int, self.m10 as int, ARG_MAX as int, ARG_MAX as int);
        }
        Rational { num: self.m00 * self.m11 - self.m01 * self.m10,
            den: self.den * self.den }
    }

    /// The exact general inverse, by the adjugate over the determinant;
    /// `None` exactly when the determinant is zero.  `self * r` equals the
    /// identity at value level when a matrix comes back.
    pub fn invert(&self) -> (r: Option<Matrix2>)
        requires
            self.wf(),
            self.max_abs() <= ARG_MAX,
            -DEN_MAX <= self.det() <= DEN_MAX,
        ensures
            r is Some <==> self.det() != 0,
            r matches Some(m) ==> {
                &&& m.wf()
                &&& m.den == (if self.det() >= 0 { self.det() } else { -self.det() })
                &&& self.m00 * m.m00 + self.m01 * m.m10 == self.den * m.den
                &&& self.m10 * m.m01 + self.m11 * m.m11 == self.den * m.den
                &&& self.m00 * m.m01 + self.m01 * m.m11 == 0
                &&& self.m10 * m.m00 + self.m11 * m.m10 == 0
                &&& self.det() > 0 ==> (m.m00 == self.m11 * self.den
                    && m.m01 == -(self.m01 * self.den)
                    && m.m10 == -(self.m10 * self.den)
                    && m.m11 == self.m00 * self.den)
            },
    {
        proof {
            lemma_abs_mul(self.m00 as int, self.m11 as int, ARG_MAX as int, ARG_MAX as int);
            lemma_abs_mul(self.m01 as int, self.m10 as int, ARG_MAX as int, ARG_MAX as int);
        }
        let d: i128 = self.m00 * self.m11 - self.m01 * self.m10;
        if d == 0 {
            return None;
        }
        proof {
            lemma_abs_mul(self.m00 as int, self.den as int, ARG_MAX as int, DEN_MAX as int);
            lemma_abs_mul(self.m01 as int, self.den as int, ARG_MAX as int, DEN_MAX as int);
            lemma_abs_mul(self.m10 as int, self.den as int, ARG_MAX as int, DEN_MAX as int);
            lemma_abs_mul(self.m11 as int, self.den as int, ARG_MAX as int, DEN_MAX as int);
            lemma_invert2_pos(self.m00 as int, self.m01 as int, self.m10 as int,
                self.m11 as int, self.den as int);
            lemma_invert2_neg(self.m00 as int, self.m01 as int, self.m10 as int,
                self.m11 as int, self.den as int);
        }
        if d > 0 {
            Some(Matrix2 {
                m00: self.m11 * self.den,
                m01: -(self.m01 * self.den),
                m10: -(self.m10 * self.den),
                m11: self.m00 * self.den,
                den: d,
            })
        } else {
            Some(Matrix2 {
                m00: -(self.m11 * self.den),
                m01: self.m01 * self.den,
                m10: self.m10 * self.den,
                m11: -(self.m00 * self.den),
                den: -d,
            })
        }
    }

    /// Whether every entry of `self` is within `eps` of the matching entry
    /// of `other`.
    pub fn approx_eq_eps(&self, other: &Matrix2, eps: &Rational) -> (r: bool)
        requires
            self.wf(),
            other.wf(),
            eps.wf(),
            self.max_abs() <= ARG_MAX,
            other.max_abs() <= ARG_MAX,
            0 <= eps.num <= ARG_MAX,
        ensures
            r == self.close_to(*other, *eps),
    {
        num_close_exec(self.m00, self.den, other.m00, other.den, eps.num, eps.den)
            && num_close_exec(self.m01, self.den, other.m01, other.den, eps.num, eps.den)
            && num_close_exec(self.m10, self.den, other.m10, other.den, eps.num, eps.den)
            && num_close_exec(self.m11, self.den, other.m11, other.den, eps.num, eps.den)
    }

    /// Largest entry magnitude.
    pub open spec fn max_abs(self) -> int {
        let a = if self.m00 >= 0 { self.m00 as int } else { -self.m00 as int };
        let b = if self.m01 >= 0 { self.m01 as int } else { -self.m01 as int };
        let c = if self.m10 >= 0 { self.m10 as int } else { -self.m10 as int };
        let d = if self.m11 >= 0 { self.m11 as int } else { -self.m11 as int };
        let ab = if a >= b { a } else { b };
        let cd = if c >= d { c } else { d };
        if ab >= cd { ab } else { cd }
    }
}

/// `(-x) * (-x) == x * x`.
pub proof fn lemma_neg_sq(x: int)
    by (nonlinear_arith)
    ensures
        (-x) * (-x) == x * x,
{
}

/// `x * (-y) == -(x * y)` and `(-y) * x == -(x * y)`.
pub proof fn lemma_neg_mul(x: int, y: int)
    by (nonlinear_arith)
    ensures
        x * (-y) == -(x * y),
        (-y) * x == -(x * y),
{
}

/// `x * y == y * x`.
pub proof fn lemma_mul_comm(x: int, y: int)
    by (nonlinear_arith)
    ensures
        x * y == y * x,
{
}

/// The adjugate construction inverts a 2 by 2 matrix: the stated products
/// give the identity at value level (positive-determinant layout).
#[verifier::rlimit(30)]
proof fn lemma_invert2_pos(m00: int, m01: int, m10: int, m11: int, den: int)
    by (nonlinear_arith)
    ensures
        m00 * (m11 * den) + m01 * (-(m10 * den)) == den * (m00 * m11 - m01 * m10),
        m10 * (-(m01 * den)) + m11 * (m00 * den) == den * (m00 * m11 - m01 * m10),
        m00 * (-(m01 * den)) + m01 * (m00 * den) == 0,
        m10 * (m11 * den) + m11 * (-(m10 * den)) == 0,
{
}

/// The negated adjugate, for a negative determinant.
#[verifier::rlimit(30)]
proof fn lemma_invert2_neg(m00: int, m01: int, m10: int, m11: int, den: int)
    by (nonlinear_arith)
    ensures
        m00 * (-(m11 * den)) + m01 * (m10 * den) == den * (-(m00 * m11 - m01 * m10)),
        m10 * (m01 * den) + m11 * (-(m00 * den)) == den * (-(m00 * m11 - m01 * m10)),
        m00 * (m01 * den) + m01 * (-(m00 * den)) == 0,
        m10 * (-(m11 * den)) + m11 * (m10 * den) == 0,
{
}

/// A matrix of rotation shape satisfies every orthonormality equation.
pub proof fn lemma_rotation_form_orthonormal(m: Matrix2)
    requires
        m.rotation_form(),
    ensures
        m.orthonormal(),
{
    lemma_neg_sq(m.m10 as int);
    lemma_neg_mul(m.m00 as int, m.m10 as int);
    lemma_neg_mul(m.m10 as int, m.m10 as int);
    lemma_mul_comm(m.m00 as int, m.m10 as int);
    lemma_mul_comm(m.m10 as int, m.m00 as int);
}

/// The product of two rotation-shaped matrices keeps the shape, with the
/// product of the denominators: the angle addition formulas, exactly.
pub proof fn lemma_rotation_form_product(a: Matrix2, b: Matrix2, c: Matrix2)
    requires
        a.rotation_form(),
        b.rotation_form(),
        Matrix2::is_product(a, b, c),
    ensures
        c.rotation_form(),
{
    let a00 = a.m00 as int;
    let a10 = a.m10 as int;
    let b00 = b.m00 as int;
    let b10 = b.m10 as int;
    assert(c.m00 == a00 * b00 - a10 * b10 && c.m11 == a00 * b00 - a10 * b10
        && c.m10 == a10 * b00 + a00 * b10 && c.m01 == -(a10 * b00 + a00 * b10))
        by (nonlinear_arith)
        requires
            c.m00 == a.m00 * b.m00 + a.m01 * b.m10,
            c.m01 == a.m00 * b.m01 + a.m01 * b.m11,
            c.m10 == a.m10 * b.m00 + a.m11 * b.m10,
            c.m11 == a.m10 * b.m01 + a.m11 * b.m11,
            a.m11 == a.m00 && a.m01 == -a.m10,
            b.m11 == b.m00 && b.m01 == -b.m10,
            a00 == a.m00 && a10 == a.m10 && b00 == b.m00 && b10 == b.m10,
    ;
    lemma_sum_of_squares_product(a00, a10, b00, b10);
    lemma_neg_sq(a10 * b00 + a00 * b10);
    lemma_sq_mul(a.den as int, b.den as int);
}

/// Brahmagupta's identity:
/// `(xu - yv)^2 + (yu + xv)^2 == (x^2 + y^2) * (u^2 + v^2)`.
proof fn lemma_sum_of_squares_product(x: int, y: int, u: int, v: int)
    ensures
        (x * u - y * v) * (x * u - y * v) + (y * u + x * v) * (y * u + x * v)
            == (x * x + y * y) * (u * u + v * v),
{
    let a = x * u;
    let b = y * v;
    let c = y * u;
    let d = x * v;
    assert((a - b) * (a - b) + (c + d) * (c + d)
        == a * a + b * b + c * c + d * d - 2 * (a * b) + 2 * (c * d))
        by (nonlinear_arith);
    lemma_sq_mul(x, u);
    lemma_sq_mul(y, v);
    lemma_sq_mul(y, u);
    lemma_sq_mul(x, v);
    assert((x * u) * (y * v) == (y * u) * (x * v)) by (nonlinear_arith);
    lemma_mul_is_distributive_add(x * x + y * y, u * u, v * v);
    lemma_mul_is_distributive_add_other_way(u * u, x * x, y * y);
    lemma_mul_is_distributive_add_other_way(v * v, x * x, y * y);
}

/// Lagrange's identity in the plane:
/// `(dot)^2 + (cross)^2 == |a|^2 * |b|^2`.
pub proof fn lemma_dot_cross_circle(ax: int, ay: int, bx: int, by: int)
    ensures
        (ax * bx + ay * by) * (ax * bx + ay * by)
            + (ax * by - ay * bx) * (ax * by - ay * bx)
            == (ax * ax + ay * ay) * (bx * bx + by * by),
{
    let a = ax * bx;
    let b = ay * by;
    let c = ax * by;
    let d = ay * bx;
    assert((a + b) * (a + b) + (c - d) * (c - d)
        == a * a + b * b + c * c + d * d + 2 * (a * b) - 2 * (c * d))
        by (nonlinear_arith);
    lemma_sq_mul(ax, bx);
    lemma_sq_mul(ay, by);
    lemma_sq_mul(ax, by);
    lemma_sq_mul(ay, bx);
    assert((ax * bx) * (ay * by) == (ax * by) * (ay * bx)) by (nonlinear_arith);
    lemma_mul_is_distributive_add(ax * ax + ay * ay, bx * bx, by * by);
    lemma_mul_is_distributive_add_other_way(bx * bx, ax * ax, ay * ay);
    lemma_mul_is_distributive_add_other_way(by * by, ax * ax, ay * ay);
}

/// `(x * x) * (y * y) == (x * y) * (x * y)`.
pub proof fn lemma_sq_mul(x: int, y: int)
    by (nonlinear_arith)
    ensures
        (x * x) * (y * y) == (x * y) * (x * y),
{
}

/// An orthonormal matrix keeps every entry within its denominator.
pub proof fn lemma_orthonormal_bounds2(a: Matrix2)
    by (nonlinear_arith)
    requires
        1 <= a.den,
        a.m00 * a.m00 + a.m10 * a.m10 == a.den * a.den,
        a.m01 * a.m01 + a.m11 * a.m11 == a.den * a.den,
    ensures
        -a.den <= a.m00 <= a.den,
        -a.den <= a.m01 <= a.den,
        -a.den <= a.m10 <= a.den,
        -a.den <= a.m11 <= a.den,
{
}

/// A rotation preserves the squared length of every vector, scaled by the
/// squared denominator.
pub proof fn lemma_rotation_preserves_norm2(m: Matrix2, v: Vector2, r: Vector2)
    requires
        m.rotation_form(),
        Matrix2::is_vec_product(m, v, r),
    ensures
        r.x * r.x + r.y * r.y == (v.x * v.x + v.y * v.y) * (m.den * m.den),
{
    let m00 = m.m00 as int;
    let m10 = m.m10 as int;
    let vx = v.x as int;
    let vy = v.y as int;
    assert(r.x == m00 * vx - m10 * vy && r.y == m10 * vx + m00 * vy)
        by (nonlinear_arith)
        requires
            r.x == m.m00 * v.x + m.m01 * v.y,
            r.y == m.m10 * v.x + m.m11 * v.y,
            m.m11 == m.m00 && m.m01 == -m.m10,
            m00 == m.m00 && m10 == m.m10 && vx == v.x && vy == v.y,
    ;
    lemma_sum_of_squares_product(m00, m10, vx, vy);
    lemma_sq_mul(m.den as int, v.den as int);
    lemma_mul_comm(m00 * m00 + m10 * m10, vx * vx + vy * vy);
}


/// An exact 3 by 3 matrix with entries `m_ij / den` (row `i`, column `j`).
#[derive(Clone, Copy, Debug, PartialEq, Eq, Structural)]
pub struct Matrix3 {
    pub m00: i128,
    pub m01: i128,
    pub m02: i128,
    pub m10: i128,
    pub m11: i128,
    pub m12: i128,
    pub m20: i128,
    pub m21: i128,
    pub m22: i128,
    pub den: i128,
}

impl Matrix3 {
    pub open spec fn wf(self) -> bool {
        &&& 1 <= self.den <= DEN_MAX
        &&& self.bounded_by(NUM_MAX as int)
    }

    /// Every entry within `[-b, b]`.
    pub open spec fn bounded_by(self, b: int) -> bool {
        &&& -b <= self.m00 <= b && -b <= self.m01 <= b && -b <= self.m02 <= b
        &&& -b <= self.m10 <= b && -b <= self.m11 <= b && -b <= self.m12 <= b
        &&& -b <= self.m20 <= b && -b <= self.m21 <= b && -b <= self.m22 <= b
    }

    /// A pure scaled-orthogonal matrix: columns and rows orthonormal over
    /// `den`, all exactly.  (The determinant sign is not tracked in three
    /// dimensions; every constructor of this crate produces proper
    /// rotations, but the predicate itself does not exclude an improper
    /// hand-built matrix.)
    pub open spec fn orthonormal(self) -> bool {
        &&& self.m00 * self.m00 + self.m10 * self.m10 + self.m20 * self.m20 == self.den * self.den
        &&& self.m01 * self.m01 + self.m11 * self.m11 + self.m21 * self.m21 == self.den * self.den
        &&& self.m02 * self.m02 + self.m12 * self.m12 + self.m22 * self.m22 == self.den * self.den
        &&& self.m00 * self.m01 + self.m10 * self.m11 + self.m20 * self.m21 == 0
        &&& self.m00 * self.m02 + self.m10 * self.m12 + self.m20 * self.m22 == 0
        &&& self.m01 * self.m02 + self.m11 * self.m12 + self.m21 * self.m22 == 0
        &&& self.m00 * self.m00 + self.m01 * self.m01 + self.m02 * self.m02 == self.den * self.den
        &&& self.m10 * self.m10 + self.m11 * self.m11 + self.m12 * self.m12 == self.den * self.den
        &&& self.m20 * self.m20 + self.m21 * self.m21 + self.m22 * self.m22 == self.den * self.den
        &&& self.m00 * self.m10 + self.m01 * self.m11 + self.m02 * self.m12 == 0
        &&& self.m00 * self.m20 + self.m01 * self.m21 + self.m02 * self.m22 == 0
        &&& self.m10 * self.m20 + self.m11 * self.m21 + self.m12 * self.m22 == 0
    }

    /// `c` holds the exact entries of the matrix product `a * b`.
    pub open spec fn is_product(a: Matrix3, b: Matrix3, c: Matrix3) -> bool {
        &&& c.m00 == a.m00 * b.m00 + a.m01 * b.m10 + a.m02 * b.m20
        &&& c.m01 == a.m00 * b.m01 + a.m01 * b.m11 + a.m02 * b.m21
        &&& c.m02 == a.m00 * b.m02 + a.m01 * b.m12 + a.m02 * b.m22
        &&& c.m10 == a.m10 * b.m00 + a.m11 * b.m10 + a.m12 * b.m20
        &&& c.m11 == a.m10 * b.m01 + a.m11 * b.m11 + a.m12 * b.m21
        &&& c.m12 == a.m10 * b.m02 + a.m11 * b.m12 + a.m12 * b.m22
        &&& c.m20 == a.m20 * b.m00 + a.m21 * b.m10 + a.m22 * b.m20
        &&& c.m21 == a.m20 * b.m01 + a.m21 * b.m11 + a.m22 * b.m21
        &&& c.m22 == a.m20 * b.m02 + a.m21 * b.m12 + a.m22 * b.m22
        &&& c.den == a.den * b.den
    }

    /// `r` holds the exact entries of the product `m * v`.
    pub open spec fn is_vec_product(m: Matrix3, v: Vector3, r: Vector3) -> bool {
        &&& r.x == m.m00 * v.x + m.m01 * v.y + m.m02 * v.z
        &&& r.y == m.m10 * v.x + m.m11 * v.y + m.m12 * v.z
        &&& r.z == m.m20 * v.x + m.m21 * v.y + m.m22 * v.z
        &&& r.den == m.den * v.den
    }

    /// Same matrix value: equal entries after cross multiplying by the
    /// denominators.
    pub open spec fn same_value(self, other: Matrix3) -> bool {
        &&& self.m00 * other.den == other.m00 * self.den
        &&& self.m01 * other.den == other.m01 * self.den
        &&& self.m02 * other.den == other.m02 * self.den
        &&& self.m10 * other.den == other.m10 * self.den
        &&& self.m11 * other.den == other.m11 * self.den
        &&& self.m12 * other.den == other.m12 * self.den
        &&& self.m20 * other.den == other.m20 * self.den
        &&& self.m21 * other.den == other.m21 * self.den
        &&& self.m22 * other.den == other.m22 * self.den
    }

    /// Every entry of `self` within `eps` of the matching entry of `other`.
    pub open spec fn close_to(self, other: Matrix3, eps: Rational) -> bool {
        &&& num_close(self.m00 as int, self.den as int, other.m00 as int, other.den as int,
            eps.num as int, eps.den as int)
        &&& num_close(self.m01 as int, self.den as int, other.m01 as int, other.den as int,
            eps.num as int, eps.den as int)
        &&& num_close(self.m02 as int, self.den as int, other.m02 as int, other.den as int,
            eps.num as int, eps.den as int)
        &&& num_close(self.m10 as int, self.den as int, other.m10 as int, other.den as int,
            eps.num as int, eps.den as int)
        &&& num_close(self.m11 as int, self.den as int, other.m11 as int, other.den as int,
            eps.num as int, eps.den as int)
        &&& num_close(self.m12 as int, self.den as int, other.m12 as int, other.den as int,
            eps.num as int, eps.den as int)
        &&& num_close(self.m20 as int, self.den as int, other.m20 as int, other.den as int,
            eps.num as int, eps.den as int)
        &&& num_close(self.m21 as int, self.den as int, other.m21 as int, other.den as int,
            eps.num as int, eps.den as int)
        &&& num_close(self.m22 as int, self.den as int, other.m22 as int, other.den as int,
            eps.num as int, eps.den as int)
    }

    /// The identity matrix.
    pub fn identity() -> (r: Matrix3)
        ensures
            r == (Matrix3 { m00: 1, m01: 0, m02: 0, m10: 0, m11: 1, m12: 0,
                m20: 0, m21: 0, m22: 1, den: 1 }),
            r.wf() && r.orthonormal(),
    {
        Matrix3 { m00: 1, m01: 0, m02: 0, m10: 0, m11: 1, m12: 0, m20: 0, m21: 0,
            m22: 1, den: 1 }
    }

    /// The rotation by `theta` about the first axis.
    pub fn from_angle_x(theta: Rad) -> (r: Matrix3)
        requires
            theta.wf(),
        ensures
            r.m00 == theta.den && r.m01 == 0 && r.m02 == 0,
            r.m10 == 0 && r.m11 == theta.cos && r.m12 == -theta.sin,
            r.m20 == 0 && r.m21 == theta.sin && r.m22 == theta.cos,
            r.den == theta.den,
            r.wf() && r.orthonormal(),
    {
        proof {
            lemma_axis_rotation(theta.cos as int, theta.sin as int, theta.den as int);
        }
        Matrix3 { m00: theta.den, m01: 0, m02: 0, m10: 0, m11: theta.cos,
            m12: -theta.sin, m20: 0, m21: theta.sin, m22: theta.cos, den: theta.den }
    }

    /// The rotation by `theta` about the second axis.
    pub fn from_angle_y(theta: Rad) -> (r: Matrix3)
        requires
            theta.wf(),
        ensures
            r.m00 == theta.cos && r.m01 == 0 && r.m02 == theta.sin,
            r.m10 == 0 && r.m11 == theta.den && r.m12 == 0,
            r.m20 == -theta.sin && r.m21 == 0 && r.m22 == theta.cos,
            r.den == theta.den,
            r.wf() && r.orthonormal(),
    {
        proof {
            lemma_axis_rotation(theta.cos as int, theta.sin as int, theta.den as int);
        }
        Matrix3 { m00: theta.cos, m01: 0, m02: theta.sin, m10: 0, m11: theta.den,
            m12: 0, m20: -theta.sin, m21: 0, m22: theta.cos, den: theta.den }
    }

    /// The rotation by `theta` about the third axis.
    pub fn from_angle_z(theta: Rad) -> (r: Matrix3)
        requires
            theta.wf(),
        ensures
            r.m00 == theta.cos && r.m01 == -theta.sin && r.m02 == 0,
            r.m10 == theta.sin && r.m11 == theta.cos && r.m12 == 0,
            r.m20 == 0 && r.m21 == 0 && r.m22 == theta.den,
            r.den == theta.den,
            r.wf() && r.orthonormal(),
    {
        proof {
            lemma_axis_rotation(theta.cos as int, theta.sin as int, theta.den as int);
        }
        Matrix3 { m00: theta.cos, m01: -theta.sin, m02: 0, m10: theta.sin,
            m11: theta.cos, m12: 0, m20: 0, m21: 0, m22: theta.den, den: theta.den }
    }

    /// The exact matrix product `self * other`.
    pub fn mul(&self, other: &Matrix3) -> (r: Matrix3)
        requires
            self.wf(),
            other.wf(),
            self.den * other.den <= DEN_MAX,
            self.bounded_by(ARG_MAX as int),
            other.bounded_by(ARG_MAX as int),
        ensures
            Matrix3::is_product(*self, *other, r),
            r.wf(),
    {
        proof {
            lemma_mul_pos(self.den as int, other.den as int);
            lemma_abs_mul(self.m00 as int, other.m00 as int, ARG_MAX as int, ARG_MAX as int);
            lemma_abs_mul(self.m01 as int, other.m10 as int, ARG_MAX as int, ARG_MAX as int);
            lemma_abs_mul(self.m02 as int, other.m20 as int, ARG_MAX as int, ARG_MAX as int);
            lemma_abs_mul(self.m00 as int, other.m01 as int, ARG_MAX as int, ARG_MAX as int);
            lemma_abs_mul(self.m01 as int, other.m11 as int, ARG_MAX as int, ARG_MAX as int);
            lemma_abs_mul(self.m02 as int, other.m21 as int, ARG_MAX as int, ARG_MAX as int);
            lemma_abs_mul(self.m00 as int, other.m02 as int, ARG_MAX as int, ARG_MAX as int);
            lemma_abs_mul(self.m01 as int, other.m12 as int, ARG_MAX as int, ARG_MAX as int);
            lemma_abs_mul(self.m02 as int, other.m22 as int, ARG_MAX as int, ARG_MAX as int);
            lemma_abs_mul(self.m10 as int, other.m00 as int, ARG_MAX as int, ARG_MAX as int);
            lemma_abs_mul(self.m11 as int, other.m10 as int, ARG_MAX as int, ARG_MAX as int);
            lemma_abs_mul(self.m12 as int, other.m20 as int, ARG_MAX as int, ARG_MAX as int);
            lemma_abs_mul(self.m10 as int, other.m01 as int, ARG_MAX as int, ARG_MAX as int);
            lemma_abs_mul(self.m11 as int, other.m11 as int, ARG_MAX as int, ARG_MAX as int);
            lemma_abs_mul(self.m12 as int, other.m21 as int, ARG_MAX as int, ARG_MAX as int);
            lemma_abs_mul(self.m10 as int, other.m02 as int, ARG_MAX as int, ARG_MAX as int);
            lemma_abs_mul(self.m11 as int, other.m12 as int, ARG_MAX as int, ARG_MAX as int);
            lemma_abs_mul(self.m12 as int, other.m22 as int, ARG_MAX as int, ARG_MAX as int);
            lemma_abs_mul(self.m20 as int, other.m00 as int, ARG_MAX as int, ARG_MAX as int);
            lemma_abs_mul(self.m21 as int, other.m10 as int, ARG_MAX as int, ARG_MAX as int);
            lemma_abs_mul(self.m22 as int, other.m20 as int, ARG_MAX as int, ARG_MAX as int);
            lemma_abs_mul(self.m20 as int, other.m01 as int, ARG_MAX as int, ARG_MAX as int);
            lemma_abs_mul(self.m21 as int, other.m11 as int, ARG_MAX as int, ARG_MAX as int);
            lemma_abs_mul(self.m22 as int, other.m21 as int, ARG_MAX as int, ARG_MAX as int);
            lemma_abs_mul(self.m20 as int, other.m02 as int, ARG_MAX as int, ARG_MAX as int);
            lemma_abs_mul(self.m21 as int, other.m12 as int, ARG_MAX as int, ARG_MAX as int);
            lemma_abs_mul(self.m22 as int, other.m22 as int, ARG_MAX as int, ARG_MAX as int);
        }
        Matrix3 {
            m00: self.m00 * other.m00 + self.m01 * other.m10 + self.m02 * other.m20,
            m01: self.m00 * other.m01 + self.m01 * other.m11 + self.m02 * other.m21,
            m02: self.m00 * other.m02 + self.m01 * other.m12 + self.m02 * other.m22,
            m10: self.m10 * other.m00 + self.m11 * other.m10 + self.m12 * other.m20,
            m11: self.m10 * other.m01 + self.m11 * other.m11 + self.m12 * other.m21,
            m12: self.m10 * other.m02 + self.m11 * other.m12 + self.m12 * other.m22,
            m20: self.m20 * other.m00 + self.m21 * other.m10 + self.m22 * other.m20,
            m21: self.m20 * other.m01 + self.m21 * other.m11 + self.m22 * other.m21,
            m22: self.m20 * other.m02 + self.m21 * other.m12 + self.m22 * other.m22,
            den: self.den * other.den,
        }
    }

    /// The exact matrix-vector product `self * v`.
    pub fn mul_vec(&self, v: &Vector3) -> (r: Vector3)
        requires
            self.wf(),
            v.wf(),
            self.den * v.den <= DEN_MAX,
            self.bounded_by(ARG_MAX as int),
            v.max_abs() <= ARG_MAX,
        ensures
            Matrix3::is_vec_product(*self, *v, r),
            r.wf(),
    {
        proof {
            lemma_mul_pos(self.den as int, v.den as int);
            lemma_abs_mul(self.m00 as int, v.x as int, ARG_MAX as int, ARG_MAX as int);
            lemma_abs_mul(self.m01 as int, v.y as int, ARG_MAX as int, ARG_MAX as int);
            lemma_abs_mul(self.m02 as int, v.z as int, ARG_MAX as int, ARG_MAX as int);
            lemma_abs_mul(self.m10 as int, v.x as int, ARG_MAX as int, ARG_MAX as int);
            lemma_abs_mul(self.m11 as int, v.y as int, ARG_MAX as int, ARG_MAX as int);
            lemma_abs_mul(self.m12 as int, v.z as int, ARG_MAX as int, ARG_MAX as int);
            lemma_abs_mul(self.m20 as int, v.x as int, ARG_MAX as int, ARG_MAX as int);
            lemma_abs_mul(self.m21 as int, v.y as int, ARG_MAX as int, ARG_MAX as int);
            lemma_abs_mul(self.m22 as int, v.z as int, ARG_MAX as int, ARG_MAX as int);
        }
        Vector3 {
            x: self.m00 * v.x + self.m01 * v.y + self.m02 * v.z,
            y: self.m10 * v.x + self.m11 * v.y + self.m12 * v.z,
            z: self.m20 * v.x + self.m21 * v.y + self.m22 * v.z,
            den: self.den * v.den,
        }
    }

    /// Whether every entry of `self` is within `eps` of the matching entry
    /// of `other`.
    pub fn approx_eq_eps(&self, other: &Matrix3, eps: &Rational) -> (r: bool)
        requires
            self.wf(),
            other.wf(),
            eps.wf(),
            self.bounded_by(ARG_MAX as int),
            other.bounded_by(ARG_MAX as int),
            0 <= eps.num <= ARG_MAX,
        ensures
            r == self.close_to(*other, *eps),
    {
        num_close_exec(self.m00, self.den, other.m00, other.den, eps.num, eps.den)
            && num_close_exec(self.m01, self.den, other.m01, other.den, eps.num, eps.den)
            && num_close_exec(self.m02, self.den, other.m02, other.den, eps.num, eps.den)
            && num_close_exec(self.m10, self.den, other.m10, other.den, eps.num, eps.den)
            && num_close_exec(self.m11, self.den, other.m11, other.den, eps.num, eps.den)
            && num_close_exec(self.m12, self.den, other.m12, other.den, eps.num, eps.den)
            && num_close_exec(self.m20, self.den, other.m20, other.den, eps.num, eps.den)
            && num_close_exec(self.m21, self.den, other.m21, other.den, eps.num, eps.den)
            && num_close_exec(self.m22, self.den, other.m22, other.den, eps.num, eps.den)
    }
}

/// `(p + q + r)^2`, expanded.
proof fn lemma_triple_sq(p: int, q: int, r: int)
    by (nonlinear_arith)
    ensures
        (p + q + r) * (p + q + r)
            == p * p + q * q + r * r + 2 * (p * q) + 2 * (p * r) + 2 * (q * r),
{
}

/// `(p + q + r) * (s + t + u)`, expanded.
proof fn lemma_triple_prod(p: int, q: int, r: int, s: int, t: int, u: int)
    by (nonlinear_arith)
    ensures
        (p + q + r) * (s + t + u)
            == p * s + p * t + p * u + q * s + q * t + q * u + r * s + r * t + r * u,
{
}

/// `(xu) * (yv) == (xy) * (uv)`.
proof fn lemma_regroup(x: int, y: int, u: int, v: int)
    by (nonlinear_arith)
    ensures
        (x * u) * (y * v) == (x * y) * (u * v),
{
}

/// A product with a zero left factor is zero.
proof fn lemma_mul_zero(s: int, x: int)
    by (nonlinear_arith)
    requires
        s == 0,
    ensures
        s * x == 0,
{
}

/// A product with a zero right factor is zero.
proof fn lemma_mul_zero_right(x: int, s: int)
    by (nonlinear_arith)
    requires
        s == 0,
    ensures
        x * s == 0,
{
}

/// The single-axis rotation layout is orthonormal: the plane block behaves
/// like the two-dimensional rotation and the fixed axis stays fixed.
proof fn lemma_axis_rotation(c: int, s: int, n: int)
    requires
        1 <= n,
        c * c + s * s == n * n,
    ensures
        -n <= c <= n,
        -n <= s <= n,
        (-s) * (-s) == s * s,
        c * (-s) == -(c * s),
        (-s) * c == -(c * s),
        s * c == c * s,
        s * (-s) == -(s * s),
        (-s) * s == -(s * s),
    {
    crate::angle::lemma_circle_bound(c, s, n);
    lemma_neg_sq(s);
    lemma_neg_mul(c, s);
    lemma_neg_mul(s, s);
    lemma_mul_comm(c, s);
}


proof fn lemma_mul3_col_norm0(
    a00: int, a01: int, a02: int, a10: int, a11: int, a12: int, a20: int, a21: int, a22: int, da: int,
    b00: int, b01: int, b02: int, b10: int, b11: int, b12: int, b20: int, b21: int, b22: int, db: int,
)
    requires
        a00 * a00 + a10 * a10 + a20 * a20 == da * da,
        a01 * a01 + a11 * a11 + a21 * a21 == da * da,
        a02 * a02 + a12 * a12 + a22 * a22 == da * da,
        a00 * a01 + a10 * a11 + a20 * a21 == 0,
        a00 * a02 + a10 * a12 + a20 * a22 == 0,
        a01 * a02 + a11 * a12 + a21 * a22 == 0,
        b00 * b00 + b10 * b10 + b20 * b20 == db * db,
    ensures
        (a00 * b00 + a01 * b10 + a02 * b20) * (a00 * b00 + a01 * b10 + a02 * b20) + (a10 * b00 + a11 * b10 + a12 * b20) * (a10 * b00 + a11 * b10 + a12 * b20)
            + (a20 * b00 + a21 * b10 + a22 * b20) * (a20 * b00 + a21 * b10 + a22 * b20) == (da * db) * (da * db),
{
    lemma_triple_sq(a00 * b00, a01 * b10, a02 * b20);
    lemma_triple_sq(a10 * b00, a11 * b10, a12 * b20);
    lemma_triple_sq(a20 * b00, a21 * b10, a22 * b20);
    lemma_sq_mul(a00, b00);
    lemma_sq_mul(a01, b10);
    lemma_sq_mul(a02, b20);
    lemma_sq_mul(a10, b00);
    lemma_sq_mul(a11, b10);
    lemma_sq_mul(a12, b20);
    lemma_sq_mul(a20, b00);
    lemma_sq_mul(a21, b10);
    lemma_sq_mul(a22, b20);
    lemma_regroup(a00, a01, b00, b10);
    lemma_regroup(a00, a02, b00, b20);
    lemma_regroup(a01, a02, b10, b20);
    lemma_regroup(a10, a11, b00, b10);
    lemma_regroup(a10, a12, b00, b20);
    lemma_regroup(a11, a12, b10, b20);
    lemma_regroup(a20, a21, b00, b10);
    lemma_regroup(a20, a22, b00, b20);
    lemma_regroup(a21, a22, b10, b20);
    lemma_mul_is_distributive_add_other_way(b00 * b00,
        a00 * a00 + a10 * a10, a20 * a20);
    lemma_mul_is_distributive_add_other_way(b00 * b00, a00 * a00, a10 * a10);
    lemma_mul_is_distributive_add_other_way(b10 * b10,
        a01 * a01 + a11 * a11, a21 * a21);
    lemma_mul_is_distributive_add_other_way(b10 * b10, a01 * a01, a11 * a11);
    lemma_mul_is_distributive_add_other_way(b20 * b20,
        a02 * a02 + a12 * a12, a22 * a22);
    lemma_mul_is_distributive_add_other_way(b20 * b20, a02 * a02, a12 * a12);
    lemma_mul_is_distributive_add_other_way(b00 * b10,
        a00 * a01 + a10 * a11, a20 * a21);
    lemma_mul_is_distributive_add_other_way(b00 * b10, a00 * a01, a10 * a11);
    lemma_mul_zero(a00 * a01 + a10 * a11 + a20 * a21, b00 * b10);
    lemma_mul_is_distributive_add_other_way(b00 * b20,
        a00 * a02 + a10 * a12, a20 * a22);
    lemma_mul_is_distributive_add_other_way(b00 * b20, a00 * a02, a10 * a12);
    lemma_mul_zero(a00 * a02 + a10 * a12 + a20 * a22, b00 * b20);
    lemma_mul_is_distributive_add_other_way(b10 * b20,
        a01 * a02 + a11 * a12, a21 * a22);
    lemma_mul_is_distributive_add_other_way(b10 * b20, a01 * a02, a11 * a12);
    lemma_mul_zero(a01 * a02 + a11 * a12 + a21 * a22, b10 * b20);
    lemma_mul_is_distributive_add(da * da, b00 * b00, b10 * b10);
    lemma_mul_is_distributive_add(da * da, b00 * b00 + b10 * b10, b20 * b20);
    lemma_sq_mul(da, db);
}

proof fn lemma_mul3_col_norm1(
    a00: int, a01: int, a02: int, a10: int, a11: int, a12: int, a20: int, a21: int, a22: int, da: int,
    b00: int, b01: int, b02: int, b10: int, b11: int, b12: int, b20: int, b21: int, b22: int, db: int,
)
    requires
        a00 * a00 + a10 * a10 + a20 * a20 == da * da,
        a01 * a01 + a11 * a11 + a21 * a21 == da * da,
        a02 * a02 + a12 * a12 + a22 * a22 == da * da,
        a00 * a01 + a10 * a11 + a20 * a21 == 0,
        a00 * a02 + a10 * a12 + a20 * a22 == 0,
        a01 * a02 + a11 * a12 + a21 * a22 == 0,
        b01 * b01 + b11 * b11 + b21 * b21 == db * db,
    ensures
        (a00 * b01 + a01 * b11 + a02 * b21) * (a00 * b01 + a01 * b11 + a02 * b21) + (a10 * b01 + a11 * b11 + a12 * b21) * (a10 * b01 + a11 * b11 + a12 * b21)
            + (a20 * b01 + a21 * b11 + a22 * b21) * (a20 * b01 + a21 * b11 + a22 * b21) == (da * db) * (da * db),
{
    lemma_triple_sq(a00 * b01, a01 * b11, a02 * b21);
    lemma_triple_sq(a10 * b01, a11 * b11, a12 * b21);
    lemma_triple_sq(a20 * b01, a21 * b11, a22 * b21);
    lemma_sq_mul(a00, b01);
    lemma_sq_mul(a01, b11);
    lemma_sq_mul(a02, b21);
    lemma_sq_mul(a10, b01);
    lemma_sq_mul(a11, b11);
    lemma_sq_mul(a12, b21);
    lemma_sq_mul(a20, b01);
    lemma_sq_mul(a21, b11);
    lemma_sq_mul(a22, b21);
    lemma_regroup(a00, a01, b01, b11);
    lemma_regroup(a00, a02, b01, b21);
    lemma_regroup(a01, a02, b11, b21);
    lemma_regroup(a10, a11, b01, b11);
    lemma_regroup(a10, a12, b01, b21);
    lemma_regroup(a11, a12, b11, b21);
    lemma_regroup(a20, a21, b01, b11);
    lemma_regroup(a20, a22, b01, b21);
    lemma_regroup(a21, a22, b11, b21);
    lemma_mul_is_distributive_add_other_way(b01 * b01,
        a00 * a00 + a10 * a10, a20 * a20);
    lemma_mul_is_distributive_add_other_way(b01 * b01, a00 * a00, a10 * a10);
    lemma_mul_is_distributive_add_other_way(b11 * b11,
        a01 * a01 + a11 * a11, a21 * a21);
    lemma_mul_is_distributive_add_other_way(b11 * b11, a01 * a01, a11 * a11);
    lemma_mul_is_distributive_add_other_way(b21 * b21,
        a02 * a02 + a12 * a12, a22 * a22);
    lemma_mul_is_distributive_add_other_way(b21 * b21, a02 * a02, a12 * a12);
    lemma_mul_is_distributive_add_other_way(b01 * b11,
        a00 * a01 + a10 * a11, a20 * a21);
    lemma_mul_is_distributive_add_other_way(b01 * b11, a00 * a01, a10 * a11);
    lemma_mul_zero(a00 * a01 + a10 * a11 + a20 * a21, b01 * b11);
    lemma_mul_is_distributive_add_other_way(b01 * b21,
        a00 * a02 + a10 * a12, a20 * a22);
    lemma_mul_is_distributive_add_other_way(b01 * b21, a00 * a02, a10 * a12);
    lemma_mul_zero(a00 * a02 + a10 * a12 + a20 * a22, b01 * b21);
    lemma_mul_is_distributive_add_other_way(b11 * b21,
        a01 * a02 + a11 * a12, a21 * a22);
    lemma_mul_is_distributive_add_other_way(b11 * b21, a01 * a02, a11 * a12);
    lemma_mul_zero(a01 * a02 + a11 * a12 + a21 * a22, b11 * b21);
    lemma_mul_is_distributive_add(da * da, b01 * b01, b11 * b11);
    lemma_mul_is_distributive_add(da * da, b01 * b01 + b11 * b11, b21 * b21);
    lemma_sq_mul(da, db);
}

proof fn lemma_mul3_col_norm2(
    a00: int, a01: int, a02: int, a10: int, a11: int, a12: int, a20: int, a21: int, a22: int, da: int,
    b00: int, b01: int, b02: int, b10: int, b11: int, b12: int, b20: int, b21: int, b22: int, db: int,
)
    requires
        a00 * a00 + a10 * a10 + a20 * a20 == da * da,
        a01 * a01 + a11 * a11 + a21 * a21 == da * da,
        a02 * a02 + a12 * a12 + a22 * a22 == da * da,
        a00 * a01 + a10 * a11 + a20 * a21 == 0,
        a00 * a02 + a10 * a12 + a20 * a22 == 0,
        a01 * a02 + a11 * a12 + a21 * a22 == 0,
        b02 * b02 + b12 * b12 + b22 * b22 == db * db,
    ensures
        (a00 * b02 + a01 * b12 + a02 * b22) * (a00 * b02 + a01 * b12 + a02 * b22) + (a10 * b02 + a11 * b12 + a12 * b22) * (a10 * b02 + a11 * b12 + a12 * b22)
            + (a20 * b02 + a21 * b12 + a22 * b22) * (a20 * b02 + a21 * b12 + a22 * b22) == (da * db) * (da * db),
{
    lemma_triple_sq(a00 * b02, a01 * b12, a02 * b22);
    lemma_triple_sq(a10 * b02, a11 * b12, a12 * b22);
    lemma_triple_sq(a20 * b02, a21 * b12, a22 * b22);
    lemma_sq_mul(a00, b02);
    lemma_sq_mul(a01, b12);
    lemma_sq_mul(a02, b22);
    lemma_sq_mul(a10, b02);
    lemma_sq_mul(a11, b12);
    lemma_sq_mul(a12, b22);
    lemma_sq_mul(a20, b02);
    lemma_sq_mul(a21, b12);
    lemma_sq_mul(a22, b22);
    lemma_regroup(a00, a01, b02, b12);
    lemma_regroup(a00, a02, b02, b22);
    lemma_regroup(a01, a02, b12, b22);
    lemma_regroup(a10, a11, b02, b12);
    lemma_regroup(a10, a12, b02, b22);
    lemma_regroup(a11, a12, b12, b22);
    lemma_regroup(a20, a21, b02, b12);
    lemma_regroup(a20, a22, b02, b22);
    lemma_regroup(a21, a22, b12, b22);
    lemma_mul_is_distributive_add_other_way(b02 * b02,
        a00 * a00 + a10 * a10, a20 * a20);
    lemma_mul_is_distributive_add_other_way(b02 * b02, a00 * a00, a10 * a10);
    lemma_mul_is_distributive_add_other_way(b12 * b12,
        a01 * a01 + a11 * a11, a21 * a21);
    lemma_mul_is_distributive_add_other_way(b12 * b12, a01 * a01, a11 * a11);
    lemma_mul_is_distributive_add_other_way(b22 * b22,
        a02 * a02 + a12 * a12, a22 * a22);
    lemma_mul_is_distributive_add_other_way(b22 * b22, a02 * a02, a12 * a12);
    lemma_mul_is_distributive_add_other_way(b02 * b12,
        a00 * a01 + a10 * a11, a20 * a21);
    lemma_mul_is_distributive_add_other_way(b02 * b12, a00 * a01, a10 * a11);
    lemma_mul_zero(a00 * a01 + a10 * a11 + a20 * a21, b02 * b12);
    lemma_mul_is_distributive_add_other_way(b02 * b22,
        a00 * a02 + a10 * a12, a20 * a22);
    lemma_mul_is_distributive_add_other_way(b02 * b22, a00 * a02, a10 * a12);
    lemma_mul_zero(a00 * a02 + a10 * a12 + a20 * a22, b02 * b22);
    lemma_mul_is_distributive_add_other_way(b12 * b22,
        a01 * a02 + a11 * a12, a21 * a22);
    lemma_mul_is_distributive_add_other_way(b12 * b22, a01 * a02, a11 * a12);
    lemma_mul_zero(a01 * a02 + a11 * a12 + a21 * a22, b12 * b22);
    lemma_mul_is_distributive_add(da * da, b02 * b02, b12 * b12);
    lemma_mul_is_distributive_add(da * da, b02 * b02 + b12 * b12, b22 * b22);
    lemma_sq_mul(da, db);
}

proof fn lemma_mul3_col_dot01(
    a00: int, a01: int, a02: int, a10: int, a11: int, a12: int, a20: int, a21: int, a22: int, da: int,
    b00: int, b01: int, b02: int, b10: int, b11: int, b12: int, b20: int, b21: int, b22: int, db: int,
)
    requires
        a00 * a00 + a10 * a10 + a20 * a20 == da * da,
        a01 * a01 + a11 * a11 + a21 * a21 == da * da,
        a02 * a02 + a12 * a12 + a22 * a22 == da * da,
        a00 * a01 + a10 * a11 + a20 * a21 == 0,
        a00 * a02 + a10 * a12 + a20 * a22 == 0,
        a01 * a02 + a11 * a12 + a21 * a22 == 0,
        b00 * b01 + b10 * b11 + b20 * b21 == 0,
    ensures
        (a00 * b00 + a01 * b10 + a02 * b20) * (a00 * b01 + a01 * b11 + a02 * b21) + (a10 * b00 + a11 * b10 + a12 * b20) * (a10 * b01 + a11 * b11 + a12 * b21)
            + (a20 * b00 + a21 * b10 + a22 * b20) * (a20 * b01 + a21 * b11 + a22 * b21) == 0,
{
    lemma_triple_prod(a00 * b00, a01 * b10, a02 * b20, a00 * b01, a01 * b11, a02 * b21);
    lemma_triple_prod(a10 * b00, a11 * b10, a12 * b20, a10 * b01, a11 * b11, a12 * b21);
    lemma_triple_prod(a20 * b00, a21 * b10, a22 * b20, a20 * b01, a21 * b11, a22 * b21);
    lemma_regroup(a00, a00, b00, b01);
    lemma_regroup(a00, a01, b00, b11);
    lemma_regroup(a00, a02, b00, b21);
    lemma_regroup(a01, a00, b10, b01);
    lemma_regroup(a01, a01, b10, b11);
    lemma_regroup(a01, a02, b10, b21);
    lemma_regroup(a02, a00, b20, b01);
    lemma_regroup(a02, a01, b20, b11);
    lemma_regroup(a02, a02, b20, b21);
    lemma_regroup(a10, a10, b00, b01);
    lemma_regroup(a10, a11, b00, b11);
    lemma_regroup(a10, a12, b00, b21);
    lemma_regroup(a11, a10, b10, b01);
    lemma_regroup(a11, a11, b10, b11);
    lemma_regroup(a11, a12, b10, b21);
    lemma_regroup(a12, a10, b20, b01);
    lemma_regroup(a12, a11, b20, b11);
    lemma_regroup(a12, a12, b20, b21);
    lemma_regroup(a20, a20, b00, b01);
    lemma_regroup(a20, a21, b00, b11);
    lemma_regroup(a20, a22, b00, b21);
    lemma_regroup(a21, a20, b10, b01);
    lemma_regroup(a21, a21, b10, b11);
    lemma_regroup(a21, a22, b10, b21);
    lemma_regroup(a22, a20, b20, b01);
    lemma_regroup(a22, a21, b20, b11);
    lemma_regroup(a22, a22, b20, b21);
    lemma_mul_is_distributive_add_other_way(b00 * b01,
        a00 * a00 + a10 * a10, a20 * a20);
    lemma_mul_is_distributive_add_other_way(b00 * b01, a00 * a00, a10 * a10);
    lemma_mul_is_distributive_add_other_way(b00 * b11,
        a00 * a01 + a10 * a11, a20 * a21);
    lemma_mul_is_distributive_add_other_way(b00 * b11, a00 * a01, a10 * a11);
    lemma_mul_zero(a00 * a01 + a10 * a11 + a20 * a21, b00 * b11);
    lemma_mul_is_distributive_add_other_way(b00 * b21,
        a00 * a02 + a10 * a12, a20 * a22);
    lemma_mul_is_distributive_add_other_way(b00 * b21, a00 * a02, a10 * a12);
    lemma_mul_zero(a00 * a02 + a10 * a12 + a20 * a22, b00 * b21);
    lemma_mul_is_distributive_add_other_way(b10 * b01,
        a01 * a00 + a11 * a10, a21 * a20);
    lemma_mul_is_distributive_add_other_way(b10 * b01, a01 * a00, a11 * a10);
    lemma_mul_comm(a01, a00);
    lemma_mul_comm(a11, a10);
    lemma_mul_comm(a21, a20);
    lemma_mul_zero(a01 * a00 + a11 * a10 + a21 * a20, b10 * b01);
    lemma_mul_is_distributive_add_other_way(b10 * b11,
        a01 * a01 + a11 * a11, a21 * a21);
    lemma_mul_is_distributive_add_other_way(b10 * b11, a01 * a01, a11 * a11);
    lemma_mul_is_distributive_add_other_way(b10 * b21,
        a01 * a02 + a11 * a12, a21 * a22);
    lemma_mul_is_distributive_add_other_way(b10 * b21, a01 * a02, a11 * a12);
    lemma_mul_zero(a01 * a02 + a11 * a12 + a21 * a22, b10 * b21);
    lemma_mul_is_distributive_add_other_way(b20 * b01,
        a02 * a00 + a12 * a10, a22 * a20);
    lemma_mul_is_distributive_add_other_way(b20 * b01, a02 * a00, a12 * a10);
    lemma_mul_comm(a02, a00);
    lemma_mul_comm(a12, a10);
    lemma_mul_comm(a22, a20);
    lemma_mul_zero(a02 * a00 + a12 * a10 + a22 * a20, b20 * b01);
    lemma_mul_is_distributive_add_other_way(b20 * b11,
        a02 * a01 + a12 * a11, a22 * a21);
    lemma_mul_is_distributive_add_other_way(b20 * b11, a02 * a01, a12 * a11);
    lemma_mul_comm(a02, a01);
    lemma_mul_comm(a12, a11);
    lemma_mul_comm(a22, a21);
    lemma_mul_zero(a02 * a01 + a12 * a11 + a22 * a21, b20 * b11);
    lemma_mul_is_distributive_add_other_way(b20 * b21,
        a02 * a02 + a12 * a12, a22 * a22);
    lemma_mul_is_distributive_add_other_way(b20 * b21, a02 * a02, a12 * a12);
    lemma_mul_is_distributive_add(da * da, b00 * b01, b10 * b11);
    lemma_mul_is_distributive_add(da * da, b00 * b01 + b10 * b11, b20 * b21);
    lemma_mul_zero_right(da * da, b00 * b01 + b10 * b11 + b20 * b21);
}

proof fn lemma_mul3_col_dot02(
    a00: int, a01: int, a02: int, a10: int, a11: int, a12: int, a20: int, a21: int, a22: int, da: int,
    b00: int, b01: int, b02: int, b10: int, b11: int, b12: int, b20: int, b21: int, b22: int, db: int,
)
    requires
        a00 * a00 + a10 * a10 + a20 * a20 == da * da,
        a01 * a01 + a11 * a11 + a21 * a21 == da * da,
        a02 * a02 + a12 * a12 + a22 * a22 == da * da,
        a00 * a01 + a10 * a11 + a20 * a21 == 0,
        a00 * a02 + a10 * a12 + a20 * a22 == 0,
        a01 * a02 + a11 * a12 + a21 * a22 == 0,
        b00 * b02 + b10 * b12 + b20 * b22 == 0,
    ensures
        (a00 * b00 + a01 * b10 + a02 * b20) * (a00 * b02 + a01 * b12 + a02 * b22) + (a10 * b00 + a11 * b10 + a12 * b20) * (a10 * b02 + a11 * b12 + a12 * b22)
            + (a20 * b00 + a21 * b10 + a22 * b20) * (a20 * b02 + a21 * b12 + a22 * b22) == 0,
{
    lemma_triple_prod(a00 * b00, a01 * b10, a02 * b20, a00 * b02, a01 * b12, a02 * b22);
    lemma_triple_prod(a10 * b00, a11 * b10, a12 * b20, a10 * b02, a11 * b12, a12 * b22);
    lemma_triple_prod(a20 * b00, a21 * b10, a22 * b20, a20 * b02, a21 * b12, a22 * b22);
    lemma_regroup(a00, a00, b00, b02);
    lemma_regroup(a00, a01, b00, b12);
    lemma_regroup(a00, a02, b00, b22);
    lemma_regroup(a01, a00, b10, b02);
    lemma_regroup(a01, a01, b10, b12);
    lemma_regroup(a01, a02, b10, b22);
    lemma_regroup(a02, a00, b20, b02);
    lemma_regroup(a02, a01, b20, b12);
    lemma_regroup(a02, a02, b20, b22);
    lemma_regroup(a10, a10, b00, b02);
    lemma_regroup(a10, a11, b00, b12);
    lemma_regroup(a10, a12, b00, b22);
    lemma_regroup(a11, a10, b10, b02);
    lemma_regroup(a11, a11, b10, b12);
    lemma_regroup(a11, a12, b10, b22);
    lemma_regroup(a12, a10, b20, b02);
    lemma_regroup(a12, a11, b20, b12);
    lemma_regroup(a12, a12, b20, b22);
    lemma_regroup(a20, a20, b00, b02);
    lemma_regroup(a20, a21, b00, b12);
    lemma_regroup(a20, a22, b00, b22);
    lemma_regroup(a21, a20, b10, b02);
    lemma_regroup(a21, a21, b10, b12);
    lemma_regroup(a21, a22, b10, b22);
    lemma_regroup(a22, a20, b20, b02);
    lemma_regroup(a22, a21, b20, b12);
    lemma_regroup(a22, a22, b20, b22);
    lemma_mul_is_distributive_add_other_way(b00 * b02,
        a00 * a00 + a10 * a10, a20 * a20);
    lemma_mul_is_distributive_add_other_way(b00 * b02, a00 * a00, a10 * a10);
    lemma_mul_is_distributive_add_other_way(b00 * b12,
        a00 * a01 + a10 * a11, a20 * a21);
    lemma_mul_is_distributive_add_other_way(b00 * b12, a00 * a01, a10 * a11);
    lemma_mul_zero(a00 * a01 + a10 * a11 + a20 * a21, b00 * b12);
    lemma_mul_is_distributive_add_other_way(b00 * b22,
        a00 * a02 + a10 * a12, a20 * a22);
    lemma_mul_is_distributive_add_other_way(b00 * b22, a00 * a02, a10 * a12);
    lemma_mul_zero(a00 * a02 + a10 * a12 + a20 * a22, b00 * b22);
    lemma_mul_is_distributive_add_other_way(b10 * b02,
        a01 * a00 + a11 * a10, a21 * a20);
    lemma_mul_is_distributive_add_other_way(b10 * b02, a01 * a00, a11 * a10);
    lemma_mul_comm(a01, a00);
    lemma_mul_comm(a11, a10);
    lemma_mul_comm(a21, a20);
    lemma_mul_zero(a01 * a00 + a11 * a10 + a21 * a20, b10 * b02);
    lemma_mul_is_distributive_add_other_way(b10 * b12,
        a01 * a01 + a11 * a11, a21 * a21);
    lemma_mul_is_distributive_add_other_way(b10 * b12, a01 * a01, a11 * a11);
    lemma_mul_is_distributive_add_other_way(b10 * b22,
        a01 * a02 + a11 * a12, a21 * a22);
    lemma_mul_is_distributive_add_other_way(b10 * b22, a01 * a02, a11 * a12);
    lemma_mul_zero(a01 * a02 + a11 * a12 + a21 * a22, b10 * b22);
    lemma_mul_is_distributive_add_other_way(b20 * b02,
        a02 * a00 + a12 * a10, a22 * a20);
    lemma_mul_is_distributive_add_other_way(b20 * b02, a02 * a00, a12 * a10);
    lemma_mul_comm(a02, a00);
    lemma_mul_comm(a12, a10);
    lemma_mul_comm(a22, a20);
    lemma_mul_zero(a02 * a00 + a12 * a10 + a22 * a20, b20 * b02);
    lemma_mul_is_distributive_add_other_way(b20 * b12,
        a02 * a01 + a12 * a11, a22 * a21);
    lemma_mul_is_distributive_add_other_way(b20 * b12, a02 * a01, a12 * a11);
    lemma_mul_comm(a02, a01);
    lemma_mul_comm(a12, a11);
    lemma_mul_comm(a22, a21);
    lemma_mul_zero(a02 * a01 + a12 * a11 + a22 * a21, b20 * b12);
    lemma_mul_is_distributive_add_other_way(b20 * b22,
        a02 * a02 + a12 * a12, a22 * a22);
    lemma_mul_is_distributive_add_other_way(b20 * b22, a02 * a02, a12 * a12);
    lemma_mul_is_distributive_add(da * da, b00 * b02, b10 * b12);
    lemma_mul_is_distributive_add(da * da, b00 * b02 + b10 * b12, b20 * b22);
    lemma_mul_zero_right(da * da, b00 * b02 + b10 * b12 + b20 * b22);
}

proof fn lemma_mul3_col_dot12(
    a00: int, a01: int, a02: int, a10: int, a11: int, a12: int, a20: int, a21: int, a22: int, da: int,
    b00: int, b01: int, b02: int, b10: int, b11: int, b12: int, b20: int, b21: int, b22: int, db: int,
)
    requires
        a00 * a00 + a10 * a10 + a20 * a20 == da * da,
        a01 * a01 + a11 * a11 + a21 * a21 == da * da,
        a02 * a02 + a12 * a12 + a22 * a22 == da * da,
        a00 * a01 + a10 * a11 + a20 * a21 == 0,
        a00 * a02 + a10 * a12 + a20 * a22 == 0,
        a01 * a02 + a11 * a12 + a21 * a22 == 0,
        b01 * b02 + b11 * b12 + b21 * b22 == 0,
    ensures
        (a00 * b01 + a01 * b11 + a02 * b21) * (a00 * b02 + a01 * b12 + a02 * b22) + (a10 * b01 + a11 * b11 + a12 * b21) * (a10 * b02 + a11 * b12 + a12 * b22)
            + (a20 * b01 + a21 * b11 + a22 * b21) * (a20 * b02 + a21 * b12 + a22 * b22) == 0,
{
    lemma_triple_prod(a00 * b01, a01 * b11, a02 * b21, a00 * b02, a01 * b12, a02 * b22);
    lemma_triple_prod(a10 * b01, a11 * b11, a12 * b21, a10 * b02, a11 * b12, a12 * b22);
    lemma_triple_prod(a20 * b01, a21 * b11, a22 * b21, a20 * b02, a21 * b12, a22 * b22);
    lemma_regroup(a00, a00, b01, b02);
    lemma_regroup(a00, a01, b01, b12);
    lemma_regroup(a00, a02, b01, b22);
    lemma_regroup(a01, a00, b11, b02);
    lemma_regroup(a01, a01, b11, b12);
    lemma_regroup(a01, a02, b11, b22);
    lemma_regroup(a02, a00, b21, b02);
    lemma_regroup(a02, a01, b21, b12);
    lemma_regroup(a02, a02, b21, b22);
    lemma_regroup(a10, a10, b01, b02);
    lemma_regroup(a10, a11, b01, b12);
    lemma_regroup(a10, a12, b01, b22);
    lemma_regroup(a11, a10, b11, b02);
    lemma_regroup(a11, a11, b11, b12);
    lemma_regroup(a11, a12, b11, b22);
    lemma_regroup(a12, a10, b21, b02);
    lemma_regroup(a12, a11, b21, b12);
    lemma_regroup(a12, a12, b21, b22);
    lemma_regroup(a20, a20, b01, b02);
    lemma_regroup(a20, a21, b01, b12);
    lemma_regroup(a20, a22, b01, b22);
    lemma_regroup(a21, a20, b11, b02);
    lemma_regroup(a21, a21, b11, b12);
    lemma_regroup(a21, a22, b11, b22);
    lemma_regroup(a22, a20, b21, b02);
    lemma_regroup(a22, a21, b21, b12);
    lemma_regroup(a22, a22, b21, b22);
    lemma_mul_is_distributive_add_other_way(b01 * b02,
        a00 * a00 + a10 * a10, a20 * a20);
    lemma_mul_is_distributive_add_other_way(b01 * b02, a00 * a00, a10 * a10);
    lemma_mul_is_distributive_add_other_way(b01 * b12,
        a00 * a01 + a10 * a11, a20 * a21);
    lemma_mul_is_distributive_add_other_way(b01 * b12, a00 * a01, a10 * a11);
    lemma_mul_zero(a00 * a01 + a10 * a11 + a20 * a21, b01 * b12);
    lemma_mul_is_distributive_add_other_way(b01 * b22,
        a00 * a02 + a10 * a12, a20 * a22);
    lemma_mul_is_distributive_add_other_way(b01 * b22, a00 * a02, a10 * a12);
    lemma_mul_zero(a00 * a02 + a10 * a12 + a20 * a22, b01 * b22);
    lemma_mul_is_distributive_add_other_way(b11 * b02,
        a01 * a00 + a11 * a10, a21 * a20);
    lemma_mul_is_distributive_add_other_way(b11 * b02, a01 * a00, a11 * a10);
    lemma_mul_comm(a01, a00);
    lemma_mul_comm(a11, a10);
    lemma_mul_comm(a21, a20);
    lemma_mul_zero(a01 * a00 + a11 * a10 + a21 * a20, b11 * b02);
    lemma_mul_is_distributive_add_other_way(b11 * b12,
        a01 * a01 + a11 * a11, a21 * a21);
    lemma_mul_is_distributive_add_other_way(b11 * b12, a01 * a01, a11 * a11);
    lemma_mul_is_distributive_add_other_way(b11 * b22,
        a01 * a02 + a11 * a12, a21 * a22);
    lemma_mul_is_distributive_add_other_way(b11 * b22, a01 * a02, a11 * a12);
    lemma_mul_zero(a01 * a02 + a11 * a12 + a21 * a22, b11 * b22);
    lemma_mul_is_distributive_add_other_way(b21 * b02,
        a02 * a00 + a12 * a10, a22 * a20);
    lemma_mul_is_distributive_add_other_way(b21 * b02, a02 * a00, a12 * a10);
    lemma_mul_comm(a02, a00);
    lemma_mul_comm(a12, a10);
    lemma_mul_comm(a22, a20);
    lemma_mul_zero(a02 * a00 + a12 * a10 + a22 * a20, b21 * b02);
    lemma_mul_is_distributive_add_other_way(b21 * b12,
        a02 * a01 + a12 * a11, a22 * a21);
    lemma_mul_is_distributive_add_other_way(b21 * b12, a02 * a01, a12 * a11);
    lemma_mul_comm(a02, a01);
    lemma_mul_comm(a12, a11);
    lemma_mul_comm(a22, a21);
    lemma_mul_zero(a02 * a01 + a12 * a11 + a22 * a21, b21 * b12);
    lemma_mul_is_distributive_add_other_way(b21 * b22,
        a02 * a02 + a12 * a12, a22 * a22);
    lemma_mul_is_distributive_add_other_way(b21 * b22, a02 * a02, a12 * a12);
    lemma_mul_is_distributive_add(da * da, b01 * b02, b11 * b12);
    lemma_mul_is_distributive_add(da * da, b01 * b02 + b11 * b12, b21 * b22);
    lemma_mul_zero_right(da * da, b01 * b02 + b11 * b12 + b21 * b22);
}

proof fn lemma_mul3_row_norm0(
    a00: int, a01: int, a02: int, a10: int, a11: int, a12: int, a20: int, a21: int, a22: int, da: int,
    b00: int, b01: int, b02: int, b10: int, b11: int, b12: int, b20: int, b21: int, b22: int, db: int,
)
    requires
        b00 * b00 + b01 * b01 + b02 * b02 == db * db,
        b10 * b10 + b11 * b11 + b12 * b12 == db * db,
        b20 * b20 + b21 * b21 + b22 * b22 == db * db,
        b00 * b10 + b01 * b11 + b02 * b12 == 0,
        b00 * b20 + b01 * b21 + b02 * b22 == 0,
        b10 * b20 + b11 * b21 + b12 * b22 == 0,
        a00 * a00 + a01 * a01 + a02 * a02 == da * da,
    ensures
        (a00 * b00 + a01 * b10 + a02 * b20) * (a00 * b00 + a01 * b10 + a02 * b20) + (a00 * b01 + a01 * b11 + a02 * b21) * (a00 * b01 + a01 * b11 + a02 * b21)
            + (a00 * b02 + a01 * b12 + a02 * b22) * (a00 * b02 + a01 * b12 + a02 * b22) == (da * db) * (da * db),
{
    lemma_triple_sq(a00 * b00, a01 * b10, a02 * b20);
    lemma_triple_sq(a00 * b01, a01 * b11, a02 * b21);
    lemma_triple_sq(a00 * b02, a01 * b12, a02 * b22);
    lemma_sq_mul(a00, b00);
    lemma_sq_mul(a01, b10);
    lemma_sq_mul(a02, b20);
    lemma_sq_mul(a00, b01);
    lemma_sq_mul(a01, b11);
    lemma_sq_mul(a02, b21);
    lemma_sq_mul(a00, b02);
    lemma_sq_mul(a01, b12);
    lemma_sq_mul(a02, b22);
    lemma_regroup(a00, a01, b00, b10);
    lemma_regroup(a00, a02, b00, b20);
    lemma_regroup(a01, a02, b10, b20);
    lemma_regroup(a00, a01, b01, b11);
    lemma_regroup(a00, a02, b01, b21);
    lemma_regroup(a01, a02, b11, b21);
    lemma_regroup(a00, a01, b02, b12);
    lemma_regroup(a00, a02, b02, b22);
    lemma_regroup(a01, a02, b12, b22);
    lemma_mul_is_distributive_add(a00 * a00, b00 * b00, b01 * b01);
    lemma_mul_is_distributive_add(a00 * a00, b00 * b00 + b01 * b01, b02 * b02);
    lemma_mul_is_distributive_add(a01 * a01, b10 * b10, b11 * b11);
    lemma_mul_is_distributive_add(a01 * a01, b10 * b10 + b11 * b11, b12 * b12);
    lemma_mul_is_distributive_add(a02 * a02, b20 * b20, b21 * b21);
    lemma_mul_is_distributive_add(a02 * a02, b20 * b20 + b21 * b21, b22 * b22);
    lemma_mul_is_distributive_add(a00 * a01, b00 * b10, b01 * b11);
    lemma_mul_is_distributive_add(a00 * a01, b00 * b10 + b01 * b11, b02 * b12);
    lemma_mul_zero_right(a00 * a01, b00 * b10 + b01 * b11 + b02 * b12);
    lemma_mul_is_distributive_add(a00 * a02, b00 * b20, b01 * b21);
    lemma_mul_is_distributive_add(a00 * a02, b00 * b20 + b01 * b21, b02 * b22);
    lemma_mul_zero_right(a00 * a02, b00 * b20 + b01 * b21 + b02 * b22);
    lemma_mul_is_distributive_add(a01 * a02, b10 * b20, b11 * b21);
    lemma_mul_is_distributive_add(a01 * a02, b10 * b20 + b11 * b21, b12 * b22);
    lemma_mul_zero_right(a01 * a02, b10 * b20 + b11 * b21 + b12 * b22);
    lemma_mul_is_distributive_add_other_way(db * db,
        a00 * a00 + a01 * a01, a02 * a02);
    lemma_mul_is_distributive_add_other_way(db * db, a00 * a00, a01 * a01);
    lemma_sq_mul(da, db);
    lemma_mul_comm(da * da, db * db);
}

proof fn lemma_mul3_row_norm1(
    a00: int, a01: int, a02: int, a10: int, a11: int, a12: int, a20: int, a21: int, a22: int, da: int,
    b00: int, b01: int, b02: int, b10: int, b11: int, b12: int, b20: int, b21: int, b22: int, db: int,
)
    requires
        b00 * b00 + b01 * b01 + b02 * b02 == db * db,
        b10 * b10 + b11 * b11 + b12 * b12 == db * db,
        b20 * b20 + b21 * b21 + b22 * b22 == db * db,
        b00 * b10 + b01 * b11 + b02 * b12 == 0,
        b00 * b20 + b01 * b21 + b02 * b22 == 0,
        b10 * b20 + b11 * b21 + b12 * b22 == 0,
        a10 * a10 + a11 * a11 + a12 * a12 == da * da,
    ensures
        (a10 * b00 + a11 * b10 + a12 * b20) * (a10 * b00 + a11 * b10 + a12 * b20) + (a10 * b01 + a11 * b11 + a12 * b21) * (a10 * b01 + a11 * b11 + a12 * b21)
            + (a10 * b02 + a11 * b12 + a12 * b22) * (a10 * b02 + a11 * b12 + a12 * b22) == (da * db) * (da * db),
{
    lemma_triple_sq(a10 * b00, a11 * b10, a12 * b20);
    lemma_triple_sq(a10 * b01, a11 * b11, a12 * b21);
    lemma_triple_sq(a10 * b02, a11 * b12, a12 * b22);
    lemma_sq_mul(a10, b00);
    lemma_sq_mul(a11, b10);
    lemma_sq_mul(a12, b20);
    lemma_sq_mul(a10, b01);
    lemma_sq_mul(a11, b11);
    lemma_sq_mul(a12, b21);
    lemma_sq_mul(a10, b02);
    lemma_sq_mul(a11, b12);
    lemma_sq_mul(a12, b22);
    lemma_regroup(a10, a11, b00, b10);
    lemma_regroup(a10, a12, b00, b20);
    lemma_regroup(a11, a12, b10, b20);
    lemma_regroup(a10, a11, b01, b11);
    lemma_regroup(a10, a12, b01, b21);
    lemma_regroup(a11, a12, b11, b21);
    lemma_regroup(a10, a11, b02, b12);
    lemma_regroup(a10, a12, b02, b22);
    lemma_regroup(a11, a12, b12, b22);
    lemma_mul_is_distributive_add(a10 * a10, b00 * b00, b01 * b01);
    lemma_mul_is_distributive_add(a10 * a10, b00 * b00 + b01 * b01, b02 * b02);
    lemma_mul_is_distributive_add(a11 * a11, b10 * b10, b11 * b11);
    lemma_mul_is_distributive_add(a11 * a11, b10 * b10 + b11 * b11, b12 * b12);
    lemma_mul_is_distributive_add(a12 * a12, b20 * b20, b21 * b21);
    lemma_mul_is_distributive_add(a12 * a12, b20 * b20 + b21 * b21, b22 * b22);
    lemma_mul_is_distributive_add(a10 * a11, b00 * b10, b01 * b11);
    lemma_mul_is_distributive_add(a10 * a11, b00 * b10 + b01 * b11, b02 * b12);
    lemma_mul_zero_right(a10 * a11, b00 * b10 + b01 * b11 + b02 * b12);
    lemma_mul_is_distributive_add(a10 * a12, b00 * b20, b01 * b21);
    lemma_mul_is_distributive_add(a10 * a12, b00 * b20 + b01 * b21, b02 * b22);
    lemma_mul_zero_right(a10 * a12, b00 * b20 + b01 * b21 + b02 * b22);
    lemma_mul_is_distributive_add(a11 * a12, b10 * b20, b11 * b21);
    lemma_mul_is_distributive_add(a11 * a12, b10 * b20 + b11 * b21, b12 * b22);
    lemma_mul_zero_right(a11 * a12, b10 * b20 + b11 * b21 + b12 * b22);
    lemma_mul_is_distributive_add_other_way(db * db,
        a10 * a10 + a11 * a11, a12 * a12);
    lemma_mul_is_distributive_add_other_way(db * db, a10 * a10, a11 * a11);
    lemma_sq_mul(da, db);
    lemma_mul_comm(da * da, db * db);
}

proof fn lemma_mul3_row_norm2(
    a00: int, a01: int, a02: int, a10: int, a11: int, a12: int, a20: int, a21: int, a22: int, da: int,
    b00: int, b01: int, b02: int, b10: int, b11: int, b12: int, b20: int, b21: int, b22: int, db: int,
)
    requires
        b00 * b00 + b01 * b01 + b02 * b02 == db * db,
        b10 * b10 + b11 * b11 + b12 * b12 == db * db,
        b20 * b20 + b21 * b21 + b22 * b22 == db * db,
        b00 * b10 + b01 * b11 + b02 * b12 == 0,
        b00 * b20 + b01 * b21 + b02 * b22 == 0,
        b10 * b20 + b11 * b21 + b12 * b22 == 0,
        a20 * a20 + a21 * a21 + a22 * a22 == da * da,
    ensures
        (a20 * b00 + a21 * b10 + a22 * b20) * (a20 * b00 + a21 * b10 + a22 * b20) + (a20 * b01 + a21 * b11 + a22 * b21) * (a20 * b01 + a21 * b11 + a22 * b21)
            + (a20 * b02 + a21 * b12 + a22 * b22) * (a20 * b02 + a21 * b12 + a22 * b22) == (da * db) * (da * db),
{
    lemma_triple_sq(a20 * b00, a21 * b10, a22 * b20);
    lemma_triple_sq(a20 * b01, a21 * b11, a22 * b21);
    lemma_triple_sq(a20 * b02, a21 * b12, a22 * b22);
    lemma_sq_mul(a20, b00);
    lemma_sq_mul(a21, b10);
    lemma_sq_mul(a22, b20);
    lemma_sq_mul(a20, b01);
    lemma_sq_mul(a21, b11);
    lemma_sq_mul(a22, b21);
    lemma_sq_mul(a20, b02);
    lemma_sq_mul(a21, b12);
    lemma_sq_mul(a22, b22);
    lemma_regroup(a20, a21, b00, b10);
    lemma_regroup(a20, a22, b00, b20);
    lemma_regroup(a21, a22, b10, b20);
    lemma_regroup(a20, a21, b01, b11);
    lemma_regroup(a20, a22, b01, b21);
    lemma_regroup(a21, a22, b11, b21);
    lemma_regroup(a20, a21, b02, b12);
    lemma_regroup(a20, a22, b02, b22);
    lemma_regroup(a21, a22, b12, b22);
    lemma_mul_is_distributive_add(a20 * a20, b00 * b00, b01 * b01);
    lemma_mul_is_distributive_add(a20 * a20, b00 * b00 + b01 * b01, b02 * b02);
    lemma_mul_is_distributive_add(a21 * a21, b10 * b10, b11 * b11);
    lemma_mul_is_distributive_add(a21 * a21, b10 * b10 + b11 * b11, b12 * b12);
    lemma_mul_is_distributive_add(a22 * a22, b20 * b20, b21 * b21);
    lemma_mul_is_distributive_add(a22 * a22, b20 * b20 + b21 * b21, b22 * b22);
    lemma_mul_is_distributive_add(a20 * a21, b00 * b10, b01 * b11);
    lemma_mul_is_distributive_add(a20 * a21, b00 * b10 + b01 * b11, b02 * b12);
    lemma_mul_zero_right(a20 * a21, b00 * b10 + b01 * b11 + b02 * b12);
    lemma_mul_is_distributive_add(a20 * a22, b00 * b20, b01 * b21);
    lemma_mul_is_distributive_add(a20 * a22, b00 * b20 + b01 * b21, b02 * b22);
    lemma_mul_zero_right(a20 * a22, b00 * b20 + b01 * b21 + b02 * b22);
    lemma_mul_is_distributive_add(a21 * a22, b10 * b20, b11 * b21);
    lemma_mul_is_distributive_add(a21 * a22, b10 * b20 + b11 * b21, b12 * b22);
    lemma_mul_zero_right(a21 * a22, b10 * b20 + b11 * b21 + b12 * b22);
    lemma_mul_is_distributive_add_other_way(db * db,
        a20 * a20 + a21 * a21, a22 * a22);
    lemma_mul_is_distributive_add_other_way(db * db, a20 * a20, a21 * a21);
    lemma_sq_mul(da, db);
    lemma_mul_comm(da * da, db * db);
}

proof fn lemma_mul3_row_dot01(
    a00: int, a01: int, a02: int, a10: int, a11: int, a12: int, a20: int, a21: int, a22: int, da: int,
    b00: int, b01: int, b02: int, b10: int, b11: int, b12: int, b20: int, b21: int, b22: int, db: int,
)
    requires
        b00 * b00 + b01 * b01 + b02 * b02 == db * db,
        b10 * b10 + b11 * b11 + b12 * b12 == db * db,
        b20 * b20 + b21 * b21 + b22 * b22 == db * db,
        b00 * b10 + b01 * b11 + b02 * b12 == 0,
        b00 * b20 + b01 * b21 + b02 * b22 == 0,
        b10 * b20 + b11 * b21 + b12 * b22 == 0,
        a00 * a10 + a01 * a11 + a02 * a12 == 0,
    ensures
        (a00 * b00 + a01 * b10 + a02 * b20) * (a10 * b00 + a11 * b10 + a12 * b20) + (a00 * b01 + a01 * b11 + a02 * b21) * (a10 * b01 + a11 * b11 + a12 * b21)
            + (a00 * b02 + a01 * b12 + a02 * b22) * (a10 * b02 + a11 * b12 + a12 * b22) == 0,
{
    lemma_triple_prod(a00 * b00, a01 * b10, a02 * b20, a10 * b00, a11 * b10, a12 * b20);
    lemma_triple_prod(a00 * b01, a01 * b11, a02 * b21, a10 * b01, a11 * b11, a12 * b21);
    lemma_triple_prod(a00 * b02, a01 * b12, a02 * b22, a10 * b02, a11 * b12, a12 * b22);
    lemma_regroup(a00, a10, b00, b00);
    lemma_regroup(a00, a11, b00, b10);
    lemma_regroup(a00, a12, b00, b20);
    lemma_regroup(a01, a10, b10, b00);
    lemma_regroup(a01, a11, b10, b10);
    lemma_regroup(a01, a12, b10, b20);
    lemma_regroup(a02, a10, b20, b00);
    lemma_regroup(a02, a11, b20, b10);
    lemma_regroup(a02, a12, b20, b20);
    lemma_regroup(a00, a10, b01, b01);
    lemma_regroup(a00, a11, b01, b11);
    lemma_regroup(a00, a12, b01, b21);
    lemma_regroup(a01, a10, b11, b01);
    lemma_regroup(a01, a11, b11, b11);
    lemma_regroup(a01, a12, b11, b21);
    lemma_regroup(a02, a10, b21, b01);
    lemma_regroup(a02, a11, b21, b11);
    lemma_regroup(a02, a12, b21, b21);
    lemma_regroup(a00, a10, b02, b02);
    lemma_regroup(a00, a11, b02, b12);
    lemma_regroup(a00, a12, b02, b22);
    lemma_regroup(a01, a10, b12, b02);
    lemma_regroup(a01, a11, b12, b12);
    lemma_regroup(a01, a12, b12, b22);
    lemma_regroup(a02, a10, b22, b02);
    lemma_regroup(a02, a11, b22, b12);
    lemma_regroup(a02, a12, b22, b22);
    lemma_mul_is_distributive_add(a00 * a10, b00 * b00, b01 * b01);
    lemma_mul_is_distributive_add(a00 * a10, b00 * b00 + b01 * b01, b02 * b02);
    lemma_mul_is_distributive_add(a00 * a11, b00 * b10, b01 * b11);
    lemma_mul_is_distributive_add(a00 * a11, b00 * b10 + b01 * b11, b02 * b12);
    lemma_mul_zero_right(a00 * a11, b00 * b10 + b01 * b11 + b02 * b12);
    lemma_mul_is_distributive_add(a00 * a12, b00 * b20, b01 * b21);
    lemma_mul_is_distributive_add(a00 * a12, b00 * b20 + b01 * b21, b02 * b22);
    lemma_mul_zero_right(a00 * a12, b00 * b20 + b01 * b21 + b02 * b22);
    lemma_mul_is_distributive_add(a01 * a10, b10 * b00, b11 * b01);
    lemma_mul_is_distributive_add(a01 * a10, b10 * b00 + b11 * b01, b12 * b02);
    lemma_mul_comm(b10, b00);
    lemma_mul_comm(b11, b01);
    lemma_mul_comm(b12, b02);
    lemma_mul_zero_right(a01 * a10, b10 * b00 + b11 * b01 + b12 * b02);
    lemma_mul_is_distributive_add(a01 * a11, b10 * b10, b11 * b11);
    lemma_mul_is_distributive_add(a01 * a11, b10 * b10 + b11 * b11, b12 * b12);
    lemma_mul_is_distributive_add(a01 * a12, b10 * b20, b11 * b21);
    lemma_mul_is_distributive_add(a01 * a12, b10 * b20 + b11 * b21, b12 * b22);
    lemma_mul_zero_right(a01 * a12, b10 * b20 + b11 * b21 + b12 * b22);
    lemma_mul_is_distributive_add(a02 * a10, b20 * b00, b21 * b01);
    lemma_mul_is_distributive_add(a02 * a10, b20 * b00 + b21 * b01, b22 * b02);
    lemma_mul_comm(b20, b00);
    lemma_mul_comm(b21, b01);
    lemma_mul_comm(b22, b02);
    lemma_mul_zero_right(a02 * a10, b20 * b00 + b21 * b01 + b22 * b02);
    lemma_mul_is_distributive_add(a02 * a11, b20 * b10, b21 * b11);
    lemma_mul_is_distributive_add(a02 * a11, b20 * b10 + b21 * b11, b22 * b12);
    lemma_mul_comm(b20, b10);
    lemma_mul_comm(b21, b11);
    lemma_mul_comm(b22, b12);
    lemma_mul_zero_right(a02 * a11, b20 * b10 + b21 * b11 + b22 * b12);
    lemma_mul_is_distributive_add(a02 * a12, b20 * b20, b21 * b21);
    lemma_mul_is_distributive_add(a02 * a12, b20 * b20 + b21 * b21, b22 * b22);
    lemma_mul_is_distributive_add_other_way(db * db,
        a00 * a10 + a01 * a11, a02 * a12);
    lemma_mul_is_distributive_add_other_way(db * db, a00 * a10, a01 * a11);
    lemma_mul_zero(a00 * a10 + a01 * a11 + a02 * a12, db * db);
}

proof fn lemma_mul3_row_dot02(
    a00: int, a01: int, a02: int, a10: int, a11: int, a12: int, a20: int, a21: int, a22: int, da: int,
    b00: int, b01: int, b02: int, b10: int, b11: int, b12: int, b20: int, b21: int, b22: int, db: int,
)
    requires
        b00 * b00 + b01 * b01 + b02 * b02 == db * db,
        b10 * b10 + b11 * b11 + b12 * b12 == db * db,
        b20 * b20 + b21 * b21 + b22 * b22 == db * db,
        b00 * b10 + b01 * b11 + b02 * b12 == 0,
        b00 * b20 + b01 * b21 + b02 * b22 == 0,
        b10 * b20 + b11 * b21 + b12 * b22 == 0,
        a00 * a20 + a01 * a21 + a02 * a22 == 0,
    ensures
        (a00 * b00 + a01 * b10 + a02 * b20) * (a20 * b00 + a21 * b10 + a22 * b20) + (a00 * b01 + a01 * b11 + a02 * b21) * (a20 * b01 + a21 * b11 + a22 * b21)
            + (a00 * b02 + a01 * b12 + a02 * b22) * (a20 * b02 + a21 * b12 + a22 * b22) == 0,
{
    lemma_triple_prod(a00 * b00, a01 * b10, a02 * b20, a20 * b00, a21 * b10, a22 * b20);
    lemma_triple_prod(a00 * b01, a01 * b11, a02 * b21, a20 * b01, a21 * b11, a22 * b21);
    lemma_triple_prod(a00 * b02, a01 * b12, a02 * b22, a20 * b02, a21 * b12, a22 * b22);
    lemma_regroup(a00, a20, b00, b00);
    lemma_regroup(a00, a21, b00, b10);
    lemma_regroup(a00, a22, b00, b20);
    lemma_regroup(a01, a20, b10, b00);
    lemma_regroup(a01, a21, b10, b10);
    lemma_regroup(a01, a22, b10, b20);
    lemma_regroup(a02, a20, b20, b00);
    lemma_regroup(a02, a21, b20, b10);
    lemma_regroup(a02, a22, b20, b20);
    lemma_regroup(a00, a20, b01, b01);
    lemma_regroup(a00, a21, b01, b11);
    lemma_regroup(a00, a22, b01, b21);
    lemma_regroup(a01, a20, b11, b01);
    lemma_regroup(a01, a21, b11, b11);
    lemma_regroup(a01, a22, b11, b21);
    lemma_regroup(a02, a20, b21, b01);
    lemma_regroup(a02, a21, b21, b11);
    lemma_regroup(a02, a22, b21, b21);
    lemma_regroup(a00, a20, b02, b02);
    lemma_regroup(a00, a21, b02, b12);
    lemma_regroup(a00, a22, b02, b22);
    lemma_regroup(a01, a20, b12, b02);
    lemma_regroup(a01, a21, b12, b12);
    lemma_regroup(a01, a22, b12, b22);
    lemma_regroup(a02, a20, b22, b02);
    lemma_regroup(a02, a21, b22, b12);
    lemma_regroup(a02, a22, b22, b22);
    lemma_mul_is_distributive_add(a00 * a20, b00 * b00, b01 * b01);
    lemma_mul_is_distributive_add(a00 * a20, b00 * b00 + b01 * b01, b02 * b02);
    lemma_mul_is_distributive_add(a00 * a21, b00 * b10, b01 * b11);
    lemma_mul_is_distributive_add(a00 * a21, b00 * b10 + b01 * b11, b02 * b12);
    lemma_mul_zero_right(a00 * a21, b00 * b10 + b01 * b11 + b02 * b12);
    lemma_mul_is_distributive_add(a00 * a22, b00 * b20, b01 * b21);
    lemma_mul_is_distributive_add(a00 * a22, b00 * b20 + b01 * b21, b02 * b22);
    lemma_mul_zero_right(a00 * a22, b00 * b20 + b01 * b21 + b02 * b22);
    lemma_mul_is_distributive_add(a01 * a20, b10 * b00, b11 * b01);
    lemma_mul_is_distributive_add(a01 * a20, b10 * b00 + b11 * b01, b12 * b02);
    lemma_mul_comm(b10, b00);
    lemma_mul_comm(b11, b01);
    lemma_mul_comm(b12, b02);
    lemma_mul_zero_right(a01 * a20, b10 * b00 + b11 * b01 + b12 * b02);
    lemma_mul_is_distributive_add(a01 * a21, b10 * b10, b11 * b11);
    lemma_mul_is_distributive_add(a01 * a21, b10 * b10 + b11 * b11, b12 * b12);
    lemma_mul_is_distributive_add(a01 * a22, b10 * b20, b11 * b21);
    lemma_mul_is_distributive_add(a01 * a22, b10 * b20 + b11 * b21, b12 * b22);
    lemma_mul_zero_right(a01 * a22, b10 * b20 + b11 * b21 + b12 * b22);
    lemma_mul_is_distributive_add(a02 * a20, b20 * b00, b21 * b01);
    lemma_mul_is_distributive_add(a02 * a20, b20 * b00 + b21 * b01, b22 * b02);
    lemma_mul_comm(b20, b00);
    lemma_mul_comm(b21, b01);
    lemma_mul_comm(b22, b02);
    lemma_mul_zero_right(a02 * a20, b20 * b00 + b21 * b01 + b22 * b02);
    lemma_mul_is_distributive_add(a02 * a21, b20 * b10, b21 * b11);
    lemma_mul_is_distributive_add(a02 * a21, b20 * b10 + b21 * b11, b22 * b12);
    lemma_mul_comm(b20, b10);
    lemma_mul_comm(b21, b11);
    lemma_mul_comm(b22, b12);
    lemma_mul_zero_right(a02 * a21, b20 * b10 + b21 * b11 + b22 * b12);
    lemma_mul_is_distributive_add(a02 * a22, b20 * b20, b21 * b21);
    lemma_mul_is_distributive_add(a02 * a22, b20 * b20 + b21 * b21, b22 * b22);
    lemma_mul_is_distributive_add_other_way(db * db,
        a00 * a20 + a01 * a21, a02 * a22);
    lemma_mul_is_distributive_add_other_way(db * db, a00 * a20, a01 * a21);
    lemma_mul_zero(a00 * a20 + a01 * a21 + a02 * a22, db * db);
}

proof fn lemma_mul3_row_dot12(
    a00: int, a01: int, a02: int, a10: int, a11: int, a12: int, a20: int, a21: int, a22: int, da: int,
    b00: int, b01: int, b02: int, b10: int, b11: int, b12: int, b20: int, b21: int, b22: int, db: int,
)
    requires
        b00 * b00 + b01 * b01 + b02 * b02 == db * db,
        b10 * b10 + b11 * b11 + b12 * b12 == db * db,
        b20 * b20 + b21 * b21 + b22 * b22 == db * db,
        b00 * b10 + b01 * b11 + b02 * b12 == 0,
        b00 * b20 + b01 * b21 + b02 * b22 == 0,
        b10 * b20 + b11 * b21 + b12 * b22 == 0,
        a10 * a20 + a11 * a21 + a12 * a22 == 0,
    ensures
        (a10 * b00 + a11 * b10 + a12 * b20) * (a20 * b00 + a21 * b10 + a22 * b20) + (a10 * b01 + a11 * b11 + a12 * b21) * (a20 * b01 + a21 * b11 + a22 * b21)
            + (a10 * b02 + a11 * b12 + a12 * b22) * (a20 * b02 + a21 * b12 + a22 * b22) == 0,
{
    lemma_triple_prod(a10 * b00, a11 * b10, a12 * b20, a20 * b00, a21 * b10, a22 * b20);
    lemma_triple_prod(a10 * b01, a11 * b11, a12 * b21, a20 * b01, a21 * b11, a22 * b21);
    lemma_triple_prod(a10 * b02, a11 * b12, a12 * b22, a20 * b02, a21 * b12, a22 * b22);
    lemma_regroup(a10, a20, b00, b00);
    lemma_regroup(a10, a21, b00, b10);
    lemma_regroup(a10, a22, b00, b20);
    lemma_regroup(a11, a20, b10, b00);
    lemma_regroup(a11, a21, b10, b10);
    lemma_regroup(a11, a22, b10, b20);
    lemma_regroup(a12, a20, b20, b00);
    lemma_regroup(a12, a21, b20, b10);
    lemma_regroup(a12, a22, b20, b20);
    lemma_regroup(a10, a20, b01, b01);
    lemma_regroup(a10, a21, b01, b11);
    lemma_regroup(a10, a22, b01, b21);
    lemma_regroup(a11, a20, b11, b01);
    lemma_regroup(a11, a21, b11, b11);
    lemma_regroup(a11, a22, b11, b21);
    lemma_regroup(a12, a20, b21, b01);
    lemma_regroup(a12, a21, b21, b11);
    lemma_regroup(a12, a22, b21, b21);
    lemma_regroup(a10, a20, b02, b02);
    lemma_regroup(a10, a21, b02, b12);
    lemma_regroup(a10, a22, b02, b22);
    lemma_regroup(a11, a20, b12, b02);
    lemma_regroup(a11, a21, b12, b12);
    lemma_regroup(a11, a22, b12, b22);
    lemma_regroup(a12, a20, b22, b02);
    lemma_regroup(a12, a21, b22, b12);
    lemma_regroup(a12, a22, b22, b22);
    lemma_mul_is_distributive_add(a10 * a20, b00 * b00, b01 * b01);
    lemma_mul_is_distributive_add(a10 * a20, b00 * b00 + b01 * b01, b02 * b02);
    lemma_mul_is_distributive_add(a10 * a21, b00 * b10, b01 * b11);
    lemma_mul_is_distributive_add(a10 * a21, b00 * b10 + b01 * b11, b02 * b12);
    lemma_mul_zero_right(a10 * a21, b00 * b10 + b01 * b11 + b02 * b12);
    lemma_mul_is_distributive_add(a10 * a22, b00 * b20, b01 * b21);
    lemma_mul_is_distributive_add(a10 * a22, b00 * b20 + b01 * b21, b02 * b22);
    lemma_mul_zero_right(a10 * a22, b00 * b20 + b01 * b21 + b02 * b22);
    lemma_mul_is_distributive_add(a11 * a20, b10 * b00, b11 * b01);
    lemma_mul_is_distributive_add(a11 * a20, b10 * b00 + b11 * b01, b12 * b02);
    lemma_mul_comm(b10, b00);
    lemma_mul_comm(b11, b01);
    lemma_mul_comm(b12, b02);
    lemma_mul_zero_right(a11 * a20, b10 * b00 + b11 * b01 + b12 * b02);
    lemma_mul_is_distributive_add(a11 * a21, b10 * b10, b11 * b11);
    lemma_mul_is_distributive_add(a11 * a21, b10 * b10 + b11 * b11, b12 * b12);
    lemma_mul_is_distributive_add(a11 * a22, b10 * b20, b11 * b21);
    lemma_mul_is_distributive_add(a11 * a22, b10 * b20 + b11 * b21, b12 * b22);
    lemma_mul_zero_right(a11 * a22, b10 * b20 + b11 * b21 + b12 * b22);
    lemma_mul_is_distributive_add(a12 * a20, b20 * b00, b21 * b01);
    lemma_mul_is_distributive_add(a12 * a20, b20 * b00 + b21 * b01, b22 * b02);
    lemma_mul_comm(b20, b00);
    lemma_mul_comm(b21, b01);
    lemma_mul_comm(b22, b02);
    lemma_mul_zero_right(a12 * a20, b20 * b00 + b21 * b01 + b22 * b02);
    lemma_mul_is_distributive_add(a12 * a21, b20 * b10, b21 * b11);
    lemma_mul_is_distributive_add(a12 * a21, b20 * b10 + b21 * b11, b22 * b12);
    lemma_mul_comm(b20, b10);
    lemma_mul_comm(b21, b11);
    lemma_mul_comm(b22, b12);
    lemma_mul_zero_right(a12 * a21, b20 * b10 + b21 * b11 + b22 * b12);
    lemma_mul_is_distributive_add(a12 * a22, b20 * b20, b21 * b21);
    lemma_mul_is_distributive_add(a12 * a22, b20 * b20 + b21 * b21, b22 * b22);
    lemma_mul_is_distributive_add_other_way(db * db,
        a10 * a20 + a11 * a21, a12 * a22);
    lemma_mul_is_distributive_add_other_way(db * db, a10 * a20, a11 * a21);
    lemma_mul_zero(a10 * a20 + a11 * a21 + a12 * a22, db * db);
}

proof fn lemma_norm3_core(
    a00: int, a01: int, a02: int, a10: int, a11: int, a12: int, a20: int, a21: int, a22: int, da: int, v0: int, v1: int, v2: int,
)
    requires
        a00 * a00 + a10 * a10 + a20 * a20 == da * da,
        a01 * a01 + a11 * a11 + a21 * a21 == da * da,
        a02 * a02 + a12 * a12 + a22 * a22 == da * da,
        a00 * a01 + a10 * a11 + a20 * a21 == 0,
        a00 * a02 + a10 * a12 + a20 * a22 == 0,
        a01 * a02 + a11 * a12 + a21 * a22 == 0,
    ensures
        (a00 * v0 + a01 * v1 + a02 * v2) * (a00 * v0 + a01 * v1 + a02 * v2) + (a10 * v0 + a11 * v1 + a12 * v2) * (a10 * v0 + a11 * v1 + a12 * v2) + (a20 * v0 + a21 * v1 + a22 * v2) * (a20 * v0 + a21 * v1 + a22 * v2)
            == (v0 * v0 + v1 * v1 + v2 * v2) * (da * da),
{
    lemma_triple_sq(a00 * v0, a01 * v1, a02 * v2);
    lemma_triple_sq(a10 * v0, a11 * v1, a12 * v2);
    lemma_triple_sq(a20 * v0, a21 * v1, a22 * v2);
    lemma_sq_mul(a00, v0);
    lemma_sq_mul(a01, v1);
    lemma_sq_mul(a02, v2);
    lemma_sq_mul(a10, v0);
    lemma_sq_mul(a11, v1);
    lemma_sq_mul(a12, v2);
    lemma_sq_mul(a20, v0);
    lemma_sq_mul(a21, v1);
    lemma_sq_mul(a22, v2);
    lemma_regroup(a00, a01, v0, v1);
    lemma_regroup(a00, a02, v0, v2);
    lemma_regroup(a01, a02, v1, v2);
    lemma_regroup(a10, a11, v0, v1);
    lemma_regroup(a10, a12, v0, v2);
    lemma_regroup(a11, a12, v1, v2);
    lemma_regroup(a20, a21, v0, v1);
    lemma_regroup(a20, a22, v0, v2);
    lemma_regroup(a21, a22, v1, v2);
    lemma_mul_is_distributive_add_other_way(v0 * v0,
        a00 * a00 + a10 * a10, a20 * a20);
    lemma_mul_is_distributive_add_other_way(v0 * v0, a00 * a00, a10 * a10);
    lemma_mul_is_distributive_add_other_way(v1 * v1,
        a01 * a01 + a11 * a11, a21 * a21);
    lemma_mul_is_distributive_add_other_way(v1 * v1, a01 * a01, a11 * a11);
    lemma_mul_is_distributive_add_other_way(v2 * v2,
        a02 * a02 + a12 * a12, a22 * a22);
    lemma_mul_is_distributive_add_other_way(v2 * v2, a02 * a02, a12 * a12);
    lemma_mul_is_distributive_add_other_way(v0 * v1,
        a00 * a01 + a10 * a11, a20 * a21);
    lemma_mul_is_distributive_add_other_way(v0 * v1, a00 * a01, a10 * a11);
    lemma_mul_zero(a00 * a01 + a10 * a11 + a20 * a21, v0 * v1);
    lemma_mul_is_distributive_add_other_way(v0 * v2,
        a00 * a02 + a10 * a12, a20 * a22);
    lemma_mul_is_distributive_add_other_way(v0 * v2, a00 * a02, a10 * a12);
    lemma_mul_zero(a00 * a02 + a10 * a12 + a20 * a22, v0 * v2);
    lemma_mul_is_distributive_add_other_way(v1 * v2,
        a01 * a02 + a11 * a12, a21 * a22);
    lemma_mul_is_distributive_add_other_way(v1 * v2, a01 * a02, a11 * a12);
    lemma_mul_zero(a01 * a02 + a11 * a12 + a21 * a22, v1 * v2);
    lemma_mul_is_distributive_add(da * da, v0 * v0, v1 * v1);
    lemma_mul_is_distributive_add(da * da, v0 * v0 + v1 * v1, v2 * v2);
    lemma_mul_comm(da * da, v0 * v0 + v1 * v1 + v2 * v2);
}


/// Multiplying two orthonormal matrices gives an orthonormal matrix.
pub proof fn lemma_product_orthonormal3(a: Matrix3, b: Matrix3, c: Matrix3)
    requires
        a.orthonormal(),
        b.orthonormal(),
        Matrix3::is_product(a, b, c),
        1 <= a.den,
        1 <= b.den,
    ensures
        c.orthonormal(),
        1 <= c.den,
{
    lemma_mul_pos(a.den as int, b.den as int);
    lemma_mul3_col_norm0(
        a.m00 as int, a.m01 as int, a.m02 as int, a.m10 as int, a.m11 as int, a.m12 as int, a.m20 as int, a.m21 as int, a.m22 as int, a.den as int,
        b.m00 as int, b.m01 as int, b.m02 as int, b.m10 as int, b.m11 as int, b.m12 as int, b.m20 as int, b.m21 as int, b.m22 as int, b.den as int,
    );
    lemma_mul3_col_norm1(
        a.m00 as int, a.m01 as int, a.m02 as int, a.m10 as int, a.m11 as int, a.m12 as int, a.m20 as int, a.m21 as int, a.m22 as int, a.den as int,
        b.m00 as int, b.m01 as int, b.m02 as int, b.m10 as int, b.m11 as int, b.m12 as int, b.m20 as int, b.m21 as int, b.m22 as int, b.den as int,
    );
    lemma_mul3_col_norm2(
        a.m00 as int, a.m01 as int, a.m02 as int, a.m10 as int, a.m11 as int, a.m12 as int, a.m20 as int, a.m21 as int, a.m22 as int, a.den as int,
        b.m00 as int, b.m01 as int, b.m02 as int, b.m10 as int, b.m11 as int, b.m12 as int, b.m20 as int, b.m21 as int, b.m22 as int, b.den as int,
    );
    lemma_mul3_col_dot01(
        a.m00 as int, a.m01 as int, a.m02 as int, a.m10 as int, a.m11 as int, a.m12 as int, a.m20 as int, a.m21 as int, a.m22 as int, a.den as int,
        b.m00 as int, b.m01 as int, b.m02 as int, b.m10 as int, b.m11 as int, b.m12 as int, b.m20 as int, b.m21 as int, b.m22 as int, b.den as int,
    );
    lemma_mul3_col_dot02(
        a.m00 as int, a.m01 as int, a.m02 as int, a.m10 as int, a.m11 as int, a.m12 as int, a.m20 as int, a.m21 as int, a.m22 as int, a.den as int,
        b.m00 as int, b.m01 as int, b.m02 as int, b.m10 as int, b.m11 as int, b.m12 as int, b.m20 as int, b.m21 as int, b.m22 as int, b.den as int,
    );
    lemma_mul3_col_dot12(
        a.m00 as int, a.m01 as int, a.m02 as int, a.m10 as int, a.m11 as int, a.m12 as int, a.m20 as int, a.m21 as int, a.m22 as int, a.den as int,
        b.m00 as int, b.m01 as int, b.m02 as int, b.m10 as int, b.m11 as int, b.m12 as int, b.m20 as int, b.m21 as int, b.m22 as int, b.den as int,
    );
    lemma_mul3_row_norm0(
        a.m00 as int, a.m01 as int, a.m02 as int, a.m10 as int, a.m11 as int, a.m12 as int, a.m20 as int, a.m21 as int, a.m22 as int, a.den as int,
        b.m00 as int, b.m01 as int, b.m02 as int, b.m10 as int, b.m11 as int, b.m12 as int, b.m20 as int, b.m21 as int, b.m22 as int, b.den as int,
    );
    lemma_mul3_row_norm1(
        a.m00 as int, a.m01 as int, a.m02 as int, a.m10 as int, a.m11 as int, a.m12 as int, a.m20 as int, a.m21 as int, a.m22 as int, a.den as int,
        b.m00 as int, b.m01 as int, b.m02 as int, b.m10 as int, b.m11 as int, b.m12 as int, b.m20 as int, b.m21 as int, b.m22 as int, b.den as int,
    );
    lemma_mul3_row_norm2(
        a.m00 as int, a.m01 as int, a.m02 as int, a.m10 as int, a.m11 as int, a.m12 as int, a.m20 as int, a.m21 as int, a.m22 as int, a.den as int,
        b.m00 as int, b.m01 as int, b.m02 as int, b.m10 as int, b.m11 as int, b.m12 as int, b.m20 as int, b.m21 as int, b.m22 as int, b.den as int,
    );
    lemma_mul3_row_dot01(
        a.m00 as int, a.m01 as int, a.m02 as int, a.m10 as int, a.m11 as int, a.m12 as int, a.m20 as int, a.m21 as int, a.m22 as int, a.den as int,
        b.m00 as int, b.m01 as int, b.m02 as int, b.m10 as int, b.m11 as int, b.m12 as int, b.m20 as int, b.m21 as int, b.m22 as int, b.den as int,
    );
    lemma_mul3_row_dot02(
        a.m00 as int, a.m01 as int, a.m02 as int, a.m10 as int, a.m11 as int, a.m12 as int, a.m20 as int, a.m21 as int, a.m22 as int, a.den as int,
        b.m00 as int, b.m01 as int, b.m02 as int, b.m10 as int, b.m11 as int, b.m12 as int, b.m20 as int, b.m21 as int, b.m22 as int, b.den as int,
    );
    lemma_mul3_row_dot12(
        a.m00 as int, a.m01 as int, a.m02 as int, a.m10 as int, a.m11 as int, a.m12 as int, a.m20 as int, a.m21 as int, a.m22 as int, a.den as int,
        b.m00 as int, b.m01 as int, b.m02 as int, b.m10 as int, b.m11 as int, b.m12 as int, b.m20 as int, b.m21 as int, b.m22 as int, b.den as int,
    );
}

/// An orthonormal matrix keeps every entry within its denominator.
pub proof fn lemma_orthonormal_bounds3(a: Matrix3)
    requires
        1 <= a.den,
        a.orthonormal(),
    ensures
        a.bounded_by(a.den as int),
{
    assert(-a.den <= a.m00 <= a.den && -a.den <= a.m10 <= a.den
        && -a.den <= a.m20 <= a.den) by (nonlinear_arith)
        requires
            1 <= a.den,
            a.m00 * a.m00 + a.m10 * a.m10 + a.m20 * a.m20 == a.den * a.den,
    ;
    assert(-a.den <= a.m01 <= a.den && -a.den <= a.m11 <= a.den
        && -a.den <= a.m21 <= a.den) by (nonlinear_arith)
        requires
            1 <= a.den,
            a.m01 * a.m01 + a.m11 * a.m11 + a.m21 * a.m21 == a.den * a.den,
    ;
    assert(-a.den <= a.m02 <= a.den && -a.den <= a.m12 <= a.den
        && -a.den <= a.m22 <= a.den) by (nonlinear_arith)
        requires
            1 <= a.den,
            a.m02 * a.m02 + a.m12 * a.m12 + a.m22 * a.m22 == a.den * a.den,
    ;
}

/// A rotation preserves the squared length of every vector, scaled by the
/// squared denominator.
pub proof fn lemma_rotation_preserves_norm3(m: Matrix3, v: Vector3, r: Vector3)
    requires
        m.orthonormal(),
        Matrix3::is_vec_product(m, v, r),
    ensures
        r.x * r.x + r.y * r.y + r.z * r.z
            == (v.x * v.x + v.y * v.y + v.z * v.z) * (m.den * m.den),
{
    lemma_norm3_core(
        m.m00 as int, m.m01 as int, m.m02 as int, m.m10 as int, m.m11 as int, m.m12 as int, m.m20 as int, m.m21 as int, m.m22 as int, m.den as int,
        v.x as int, v.y as int, v.z as int,
    );
}

} // verus!
