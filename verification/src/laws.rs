//! The rotation laws, stated and proved once and for all.
//!
//! Each law is a public proof function over the contracts of the operations
//! in [`crate::rotation`]: the identity rotation is neutral on both sides,
//! composing a rotation with its inverse gives the identity at value level,
//! and every well-formed rotation keeps its columns orthonormal.

use vstd::prelude::*;

use crate::matrix::Matrix2;
use crate::matrix::Matrix3;
use crate::rotation::Basis2;
use crate::rotation::Basis3;

verus! {

/// Identity law: concatenation with the identity rotation, on either side,
/// returns the same rotation exactly.
pub proof fn lemma_identity_law(r: Basis2, one: Basis2, left: Basis2, right: Basis2)
    requires
        r.wf(),
        one.mat == (Matrix2 { m00: 1, m01: 0, m10: 0, m11: 1, den: 1 }),
        Matrix2::is_product(r.mat, one.mat, left.mat),
        Matrix2::is_product(one.mat, r.mat, right.mat),
    ensures
        left.mat == r.mat,
        right.mat == r.mat,
{
}

/// Inverse law: a rotation concatenated with its inverse is the identity at
/// value level, in either order.
pub proof fn lemma_inverse_law(r: Basis2, inv: Basis2, c: Basis2)
    requires
        r.wf(),
        1 <= inv.mat.den,
        r.mat.m00 * inv.mat.m00 + r.mat.m01 * inv.mat.m10 == r.mat.den * inv.mat.den,
        r.mat.m10 * inv.mat.m01 + r.mat.m11 * inv.mat.m11 == r.mat.den * inv.mat.den,
        r.mat.m00 * inv.mat.m01 + r.mat.m01 * inv.mat.m11 == 0,
        r.mat.m10 * inv.mat.m00 + r.mat.m11 * inv.mat.m10 == 0,
        Matrix2::is_product(r.mat, inv.mat, c.mat),
    ensures
        c.mat.same_value(Matrix2 { m00: 1, m01: 0, m10: 0, m11: 1, den: 1 }),
{
}

/// Orthogonality invariant: every well-formed rotation has unit,
/// perpendicular columns and a positive determinant, exactly.
pub proof fn lemma_orthogonality_invariant(r: Basis2)
    requires
        r.wf(),
    ensures
        r.mat.orthonormal(),
{
    crate::matrix::lemma_rotation_form_orthonormal(r.mat);
}

/// Identity law in three dimensions: concatenation with the identity
/// rotation, on either side, returns the same rotation exactly.
pub proof fn lemma_identity_law3(r: Basis3, one: Basis3, left: Basis3, right: Basis3)
    requires
        r.wf(),
        one.mat == (Matrix3 { m00: 1, m01: 0, m02: 0, m10: 0, m11: 1, m12: 0,
            m20: 0, m21: 0, m22: 1, den: 1 }),
        Matrix3::is_product(r.mat, one.mat, left.mat),
        Matrix3::is_product(one.mat, r.mat, right.mat),
    ensures
        left.mat == r.mat,
        right.mat == r.mat,
{
}

/// Inverse law in three dimensions: a rotation concatenated with its
/// transpose inverse is the identity at value level, in either order.
pub proof fn lemma_inverse_law3(r: Basis3, inv: Basis3, c: Basis3, c2: Basis3)
    requires
        r.wf(),
        inv.mat.den == r.mat.den,
        inv.mat.m00 == r.mat.m00 && inv.mat.m01 == r.mat.m10 && inv.mat.m02 == r.mat.m20,
        inv.mat.m10 == r.mat.m01 && inv.mat.m11 == r.mat.m11 && inv.mat.m12 == r.mat.m21,
        inv.mat.m20 == r.mat.m02 && inv.mat.m21 == r.mat.m12 && inv.mat.m22 == r.mat.m22,
        Matrix3::is_product(r.mat, inv.mat, c.mat),
        Matrix3::is_product(inv.mat, r.mat, c2.mat),
    ensures
        c.mat.same_value(Matrix3 { m00: 1, m01: 0, m02: 0, m10: 0, m11: 1, m12: 0,
            m20: 0, m21: 0, m22: 1, den: 1 }),
        c2.mat.same_value(Matrix3 { m00: 1, m01: 0, m02: 0, m10: 0, m11: 1, m12: 0,
            m20: 0, m21: 0, m22: 1, den: 1 }),
{
}

/// Orthogonality invariant in three dimensions: every well-formed rotation
/// has unit, mutually perpendicular columns and rows, exactly.
pub proof fn lemma_orthogonality_invariant3(r: Basis3)
    requires
        r.wf(),
    ensures
        r.mat.orthonormal(),
{
}

} // verus!
