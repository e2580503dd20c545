//! Exact angles in radians.
//!
//! A [`Rad`] does not store the radian measure itself (most measures have no
//! exact finite representation); it stores the point the angle names on the
//! unit circle: cosine and sine numerators over one denominator, with
//! `cos^2 + sin^2 = den^2` holding exactly.  Every angle whose cosine and
//! sine are rational is representable; any other angle is approximated by a
//! nearby representable one, for instance through
//! [`Rad::from_half_tangent`].

use vstd::prelude::*;

use crate::scalar::lemma_abs_mul;
use crate::scalar::DEN_MAX;

verus! {

/// An angle, carried as its exact cosine and sine: `cos / den` and
/// `sin / den` with `cos^2 + sin^2 = den^2`.
#[derive(Clone, Copy, Debug, PartialEq, Eq, Structural)]
pub struct Rad {
    pub cos: i128,
    pub sin: i128,
    pub den: i128,
}

impl Rad {
    /// The stored pair lies exactly on the circle of radius `den`.
    pub open spec fn wf(self) -> bool {
        &&& 1 <= self.den <= DEN_MAX
        &&& self.cos * self.cos + self.sin * self.sin == self.den * self.den
    }

    /// The angle zero.
    pub fn zero() -> (r: Rad)
        ensures
            r.cos == 1 && r.sin == 0 && r.den == 1,
            r.wf(),
    {
        Rad { cos: 1, sin: 0, den: 1 }
    }

    /// Builds an angle from a cosine and sine pair; rejects a pair that does
    /// not lie exactly on the circle of radius `den`, or a `den` out of range.
    pub fn new(cos: i128, sin: i128, den: i128) -> (r: Option<Rad>)
        ensures
            r is Some <==> (1 <= den <= DEN_MAX && cos * cos + sin * sin == den * den),
            r matches Some(a) ==> a.cos == cos && a.sin == sin && a.den == den && a.wf(),
    {
        if !(1 <= den && den <= DEN_MAX) {
            return None;
        }
        if -den <= cos && cos <= den && -den <= sin && sin <= den {
            proof {
                lemma_abs_mul(cos as int, cos as int, DEN_MAX as int, DEN_MAX as int);
                lemma_abs_mul(sin as int, sin as int, DEN_MAX as int, DEN_MAX as int);
                lemma_abs_mul(den as int, den as int, DEN_MAX as int, DEN_MAX as int);
            }
            if cos * cos + sin * sin == den * den {
                Some(Rad { cos, sin, den })
            } else {
                None
            }
        } else {
            proof {
                if cos * cos + sin * sin == den * den {
                    lemma_circle_bound(cos as int, sin as int, den as int);
                }
            }
            None
        }
    }

    /// The angle whose half-angle tangent is `p / q`: cosine
    /// `(q^2 - p^2) / (q^2 + p^2)` and sine `2pq / (q^2 + p^2)`.  Covers
    /// every representable angle strictly between the half turns, and is the
    /// usual way to pick an exact angle near a real one.
    pub fn from_half_tangent(p: i128, q: i128) -> (r: Rad)
        requires
            1 <= q,
            q * q + p * p <= DEN_MAX,
        ensures
            r.cos == q * q - p * p,
            r.sin == 2 * (p * q),
            r.den == q * q + p * p,
            r.wf(),
    {
        proof {
            lemma_half_tangent_bounds(p as int, q as int, DEN_MAX as int);
            lemma_abs_mul(p as int, q as int, DEN_MAX as int, DEN_MAX as int);
            lemma_abs_mul(p as int, p as int, DEN_MAX as int, DEN_MAX as int);
            lemma_abs_mul(q as int, q as int, DEN_MAX as int, DEN_MAX as int);
            lemma_half_tangent_on_circle(p as int, q as int);
        }
        Rad { cos: q * q - p * p, sin: 2 * (p * q), den: q * q + p * p }
    }

    /// The opposite angle: same cosine, negated sine.
    pub fn neg(&self) -> (r: Rad)
        requires
            self.wf(),
        ensures
            r.cos == self.cos && r.sin == -self.sin && r.den == self.den,
            r.wf(),
    {
        proof {
            lemma_circle_bound(self.cos as int, self.sin as int, self.den as int);
            assert((-self.sin) * (-self.sin) == self.sin * self.sin) by (nonlinear_arith);
        }
        Rad { cos: self.cos, sin: -self.sin, den: self.den }
    }
}

/// A point on the circle of radius `den` has both coordinates within `den`.
pub proof fn lemma_circle_bound(cos: int, sin: int, den: int)
    by (nonlinear_arith)
    requires
        1 <= den,
        cos * cos + sin * sin == den * den,
    ensures
        -den <= cos <= den,
        -den <= sin <= den,
{
}

/// Bounds forced by `q^2 + p^2 <= m` with `1 <= q`.
pub proof fn lemma_half_tangent_bounds(p: int, q: int, m: int)
    by (nonlinear_arith)
    requires
        1 <= q,
        q * q + p * p <= m,
        1 <= m,
    ensures
        -m <= p <= m,
        1 <= q <= m,
        1 <= q * q + p * p,
{
}

/// The half-tangent substitution lands exactly on the circle:
/// `(q^2 - p^2)^2 + (2pq)^2 == (q^2 + p^2)^2`.
pub proof fn lemma_half_tangent_on_circle(p: int, q: int)
    by (nonlinear_arith)
    ensures
        (q * q - p * p) * (q * q - p * p) + (2 * (p * q)) * (2 * (p * q))
            == (q * q + p * p) * (q * q + p * p),
{
}

} // verus!
