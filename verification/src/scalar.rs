//! Exact rational scalars.
//!
//! A [`Rational`] is the value `num / den` with `den` positive.  Arithmetic
//! on rationals is exact, so equality of scalars is decidable and every
//! contract in this crate can state the value of a result precisely.
//! Approximate equality, which the floating-point world needs everywhere,
//! survives here as an honest comparison against a caller-supplied
//! tolerance: `|a - b| <= eps`, decided exactly.

use vstd::prelude::*;

verus! {

/// Largest denominator any well-formed value may carry (2^40).  Operations
/// that multiply denominators require the product to stay under this bound.
pub const DEN_MAX: i128 = 0x100_0000_0000;

/// Storage bound for numerators of well-formed values (2^84).
pub const NUM_MAX: i128 = 0x10_0000_0000_0000_0000_0000;

/// Bound on numerators that enter a product of two numerators (2^40);
/// keeps every intermediate product comfortably inside `i128`.
pub const ARG_MAX: i128 = 0x100_0000_0000;

/// `|na/da - nb/db| <= en/ed`, stated exactly over the integers; the
/// denominators are positive wherever this is used.
pub open spec fn num_close(na: int, da: int, nb: int, db: int, en: int, ed: int) -> bool {
    -(en * da * db) <= (na * db - nb * da) * ed <= en * da * db
}

/// An exact rational scalar: the value `num / den`.
#[derive(Clone, Copy, Debug, PartialEq, Eq, Structural)]
pub struct Rational {
    pub num: i128,
    pub den: i128,
}

impl Rational {
    /// Denominator positive and bounded, numerator bounded.
    pub open spec fn wf(self) -> bool {
        &&& 1 <= self.den <= DEN_MAX
        &&& -NUM_MAX <= self.num <= NUM_MAX
    }

    /// Both fractions name the same rational value (cross multiplication).
    pub open spec fn same_value(self, other: Rational) -> bool {
        self.num * other.den == other.num * self.den
    }

    /// `|self - other| <= eps`, stated exactly over the integers:
    /// `|a.num * b.den - b.num * a.den| * eps.den <= eps.num * a.den * b.den`.
    pub open spec fn close_to(self, other: Rational, eps: Rational) -> bool {
        num_close(self.num as int, self.den as int, other.num as int, other.den as int,
            eps.num as int, eps.den as int)
    }

    /// Builds `num / den`; rejects a denominator or numerator out of range.
    pub fn new(num: i128, den: i128) -> (r: Option<Rational>)
        ensures
            r is Some <==> (1 <= den <= DEN_MAX && -NUM_MAX <= num <= NUM_MAX),
            r matches Some(q) ==> q.num == num && q.den == den && q.wf(),
    {
        if 1 <= den && den <= DEN_MAX && -NUM_MAX <= num && num <= NUM_MAX {
            Some(Rational { num, den })
        } else {
            None
        }
    }

    /// The scalar zero.
    pub fn zero() -> (r: Rational)
        ensures
            r.num == 0 && r.den == 1,
            r.wf(),
    {
        Rational { num: 0, den: 1 }
    }

    /// Whether `self` and `other` are the same rational value.
    pub fn same(&self, other: &Rational) -> (r: bool)
        requires
            self.wf(),
            other.wf(),
            -ARG_MAX <= self.num <= ARG_MAX,
            -ARG_MAX <= other.num <= ARG_MAX,
        ensures
            r == self.same_value(*other),
    {
        proof {
            lemma_abs_mul(self.num as int, other.den as int, ARG_MAX as int, DEN_MAX as int);
            lemma_abs_mul(other.num as int, self.den as int, ARG_MAX as int, DEN_MAX as int);
        }
        self.num * other.den == other.num * self.den
    }

    /// Whether `self` is within `eps` of `other`.
    pub fn approx_eq_eps(&self, other: &Rational, eps: &Rational) -> (r: bool)
        requires
            self.wf(),
            other.wf(),
            eps.wf(),
            -ARG_MAX <= self.num <= ARG_MAX,
            -ARG_MAX <= other.num <= ARG_MAX,
            0 <= eps.num <= ARG_MAX,
        ensures
            r == self.close_to(*other, *eps),
    {
        num_close_exec(self.num, self.den, other.num, other.den, eps.num, eps.den)
    }
}

/// Decides [`num_close`] at run time; the bounds keep every product inside
/// `i128`.
pub fn num_close_exec(na: i128, da: i128, nb: i128, db: i128, en: i128, ed: i128) -> (r: bool)
    requires
        1 <= da <= DEN_MAX,
        1 <= db <= DEN_MAX,
        1 <= ed <= DEN_MAX,
        -ARG_MAX <= na <= ARG_MAX,
        -ARG_MAX <= nb <= ARG_MAX,
        0 <= en <= ARG_MAX,
    ensures
        r == num_close(na as int, da as int, nb as int, db as int, en as int, ed as int),
{
    proof {
        lemma_abs_mul(na as int, db as int, ARG_MAX as int, DEN_MAX as int);
        lemma_abs_mul(nb as int, da as int, ARG_MAX as int, DEN_MAX as int);
        lemma_abs_mul(
            na * db - nb * da,
            ed as int,
            2 * (ARG_MAX * DEN_MAX),
            DEN_MAX as int,
        );
        lemma_abs_mul(en as int, da as int, ARG_MAX as int, DEN_MAX as int);
        lemma_abs_mul(en * da, db as int, ARG_MAX * DEN_MAX, DEN_MAX as int);
    }
    let diff: i128 = na * db - nb * da;
    let bound: i128 = en * da * db;
    -bound <= diff * ed && diff * ed <= bound
}

/// The product of two positive integers is positive.
pub proof fn lemma_mul_pos(a: int, b: int)
    by (nonlinear_arith)
    requires
        1 <= a,
        1 <= b,
    ensures
        1 <= a * b,
{
}

/// `|x| <= a` and `|y| <= b` bound the product: `|x * y| <= a * b`.
pub proof fn lemma_abs_mul(x: int, y: int, a: int, b: int)
    by (nonlinear_arith)
    requires
        -a <= x <= a,
        -b <= y <= b,
        0 <= a,
        0 <= b,
    ensures
        -(a * b) <= x * y <= a * b,
{
}

} // verus!
