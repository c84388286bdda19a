//! The arithmetic that a render needs.
//!
//! This library adds and multiplies no numbers. Whoever renders hands it an
//! arithmetic that does, and a source of random numbers with it. Nothing is
//! assumed of either: what the library computes, it states in terms of what
//! the arithmetic returned.

use crate::scalar::Scalar;
use crate::vec3::Accepted;
use crate::vec3::Vec3;
use vstd::prelude::*;

verus! {

/// The operations on numbers that a render needs. They are meant to be
/// those of binary64 numbers, each result rounded to the nearest number;
/// the library holds for every other arithmetic too.
pub trait Arithmetic {
    /// `a + b`.
    fn sum(&self, a: Scalar, b: Scalar) -> Scalar;

    /// `a - b`.
    fn difference(&self, a: Scalar, b: Scalar) -> Scalar;

    /// `a * b`.
    fn product(&self, a: Scalar, b: Scalar) -> Scalar;

    /// `a / b`.
    fn quotient(&self, a: Scalar, b: Scalar) -> Scalar;

    /// `a` to the power of two.
    fn square(&self, a: Scalar) -> Scalar;

    /// The square root of `a`.
    fn square_root(&self, a: Scalar) -> Scalar;

    /// The cosine of the angle `a`, in radians.
    fn cosine(&self, a: Scalar) -> Scalar;

    /// The sine of the angle `a`, in radians.
    fn sine(&self, a: Scalar) -> Scalar;

    /// The number nearest to the count `n`.
    fn number(&self, n: usize) -> Scalar;

    /// A random number, at least nought and less than one, each as likely
    /// as the other.
    fn random(&self) -> Scalar;

    /// A random point inside the sphere of radius one about the origin,
    /// each as likely as the other. The library draws such points itself,
    /// attempt by attempt, see [`Vec3::random_in_unit_sphere`], and asks
    /// here only after `usize::MAX` attempts in a row have given nothing:
    /// no number of attempts is sure to be enough, and going on for ever
    /// is left to the arithmetic. It goes on with
    /// [`Vec3::accepted_attempt`], which alone gives such points.
    fn random_in_unit_sphere(&self) -> Accepted<Self> where Self: Sized;
}

/// Whether the arithmetic may give `r` for `a + b`.
pub open spec fn is_sum<A: Arithmetic>(arith: &A, a: Scalar, b: Scalar, r: Scalar) -> bool {
    call_ensures(A::sum, (arith, a, b), r)
}

/// Whether the arithmetic may give `r` for `a - b`.
pub open spec fn is_difference<A: Arithmetic>(arith: &A, a: Scalar, b: Scalar, r: Scalar) -> bool {
    call_ensures(A::difference, (arith, a, b), r)
}

/// Whether the arithmetic may give `r` for `a * b`.
pub open spec fn is_product<A: Arithmetic>(arith: &A, a: Scalar, b: Scalar, r: Scalar) -> bool {
    call_ensures(A::product, (arith, a, b), r)
}

/// Whether the arithmetic may give `r` for `a / b`.
pub open spec fn is_quotient<A: Arithmetic>(arith: &A, a: Scalar, b: Scalar, r: Scalar) -> bool {
    call_ensures(A::quotient, (arith, a, b), r)
}

/// Whether the arithmetic may give `r` for `a` to the power of two.
pub open spec fn is_square<A: Arithmetic>(arith: &A, a: Scalar, r: Scalar) -> bool {
    call_ensures(A::square, (arith, a), r)
}

/// Whether the arithmetic may give `r` for the square root of `a`.
pub open spec fn is_square_root<A: Arithmetic>(arith: &A, a: Scalar, r: Scalar) -> bool {
    call_ensures(A::square_root, (arith, a), r)
}

/// Whether the arithmetic may give `r` for the cosine of `a`.
pub open spec fn is_cosine<A: Arithmetic>(arith: &A, a: Scalar, r: Scalar) -> bool {
    call_ensures(A::cosine, (arith, a), r)
}

/// Whether the arithmetic may give `r` for the sine of `a`.
pub open spec fn is_sine<A: Arithmetic>(arith: &A, a: Scalar, r: Scalar) -> bool {
    call_ensures(A::sine, (arith, a), r)
}

/// Whether the arithmetic may give `r` for the count `n`.
pub open spec fn is_number<A: Arithmetic>(arith: &A, n: usize, r: Scalar) -> bool {
    call_ensures(A::number, (arith, n), r)
}

/// Whether the arithmetic may draw `r`.
pub open spec fn is_random<A: Arithmetic>(arith: &A, r: Scalar) -> bool {
    call_ensures(A::random, (arith,), r)
}

/// Whether `r` may be drawn between `min` and `max`: `min` plus a random
/// share of what lies between the two.
pub open spec fn is_random_between<A: Arithmetic>(
    arith: &A,
    min: Scalar,
    max: Scalar,
    r: Scalar,
) -> bool {
    exists|span: Scalar, share: Scalar, part: Scalar|
        is_difference(arith, max, min, span) && is_random(arith, share) && #[trigger] is_product(
            arith,
            span,
            share,
            part,
        ) && is_sum(arith, min, part, r)
}

/// A random number that is at least `min` and less than `max`.
pub fn random_between<A: Arithmetic>(min: Scalar, max: Scalar, arith: &A) -> (r: Scalar)
    ensures
        is_random_between(arith, min, max, r),
{
    let span = arith.difference(max, min);
    let share = arith.random();
    let part = arith.product(span, share);
    let r = arith.sum(min, part);
    assert(is_product(arith, span, share, part));
    r
}

} // verus!
