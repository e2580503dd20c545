//! Exact rotations for two- and three-dimensional geometry.
//!
//! A rotation is a transformation that fixes the origin, preserves lengths,
//! composes, and can be undone.  This crate represents every quantity as an
//! exact rational number: integer numerators over one positive integer
//! denominator.  A rotation is an integer matrix `m` together with a
//! denominator `den`, constrained so that `m` transposed times `m` equals
//! `den * den` times the identity: the columns and rows of `m / den` are
//! orthonormal and the matrix is a pure rotation (in two dimensions the
//! determinant is additionally pinned positive).  Because the arithmetic is
//! exact, the rotation laws (identity, inverse, preservation of length,
//! Euler order, quaternion-to-matrix orthogonality) hold exactly and are
//! proved, not merely tested.
//!
//! Angles enter through [`angle::Rad`], which carries an exact point on the
//! unit circle (cosine and sine numerators over a shared denominator).
//! Angles whose sine or cosine is irrational are approximated by a nearby
//! exact point; see `Rad::from_half_tangent`.
//!
//! A unit [`quaternion::Quaternion`] converts to a rotation exactly.  The
//! conversion from a rotation matrix back to a quaternion needs a square
//! root, which exact rational arithmetic does not have, so it is absent by
//! design; the same holds for constructors that would normalise an
//! arbitrary direction.

pub mod angle;
pub mod laws;
pub mod matrix;
pub mod point;
pub mod quaternion;
pub mod rotation;
pub mod scalar;
pub mod vector;
