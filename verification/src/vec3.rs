//! Triples of numbers: points, directions and linear colours.

use crate::arithmetic::is_cosine;
use crate::arithmetic::is_difference;
use crate::arithmetic::is_product;
use crate::arithmetic::is_quotient;
use crate::arithmetic::is_random;
use crate::arithmetic::is_random_between;
use crate::arithmetic::is_sine;
use crate::arithmetic::is_square;
use crate::arithmetic::is_square_root;
use crate::arithmetic::is_sum;
use crate::arithmetic::random_between;
use crate::arithmetic::Arithmetic;
use crate::scalar::Scalar;
use crate::scalar::FULL_TURN_BITS;
use crate::scalar::MINUS_ONE_BITS;
use crate::scalar::ONE_BITS;
use crate::scalar::TINY_BITS;
use crate::scalar::TWO_BITS;
use vstd::prelude::*;

verus! {

/// Three numbers, used alike as a point, a direction and a linear colour.
#[derive(Clone, Copy, Debug)]
pub struct Vec3 {
    pub x: Scalar,
    pub y: Scalar,
    pub z: Scalar,
}

/// A point that an attempt at a random point inside the unit sphere has
/// given, see [`Vec3::accepted_attempt`]. There is no other way to one.
pub struct Accepted<A: Arithmetic> {
    point: Vec3,
    by: Ghost<A>,
}

/// A place in space.
pub type Point = Vec3;

/// A linear colour: red, green and blue.
pub type Color = Vec3;

impl Vec3 {
    /// Whether every component is a number.
    pub open spec fn numbers(self) -> bool {
        !self.x.nan() && !self.y.nan() && !self.z.nan()
    }

    /// The component at an index: 0, 1 or 2.
    pub open spec fn component(self, i: int) -> Scalar {
        if i == 0 {
            self.x
        } else if i == 1 {
            self.y
        } else {
            self.z
        }
    }

    /// Equality component by component, as the numbers compare: a triple
    /// that holds a NaN equals nothing.
    pub open spec fn same(self, other: Vec3) -> bool {
        self.x.same(other.x) && self.y.same(other.y) && self.z.same(other.z)
    }

    /// The triple with every sign flipped.
    pub open spec fn negated(self) -> Vec3 {
        Vec3 { x: self.x.negated(), y: self.y.negated(), z: self.z.negated() }
    }

    /// Whether every component is closer to zero than one hundred-millionth.
    pub open spec fn vanishes(self) -> bool {
        let tiny = Scalar { bits: TINY_BITS };
        self.x.absolute().lt(tiny) && self.y.absolute().lt(tiny) && self.z.absolute().lt(tiny)
    }

    /// Whether a triple of the given squared length lies inside the sphere
    /// of radius one: the squared length is less than one.
    pub open spec fn fits_unit_sphere(len_squared: Scalar) -> bool {
        len_squared.lt(Scalar { bits: ONE_BITS })
    }

    /// Whether `r` may be `u + v`, component by component.
    pub open spec fn is_plus<A: Arithmetic>(arith: &A, u: Vec3, v: Vec3, r: Vec3) -> bool {
        is_sum(arith, u.x, v.x, r.x) && is_sum(arith, u.y, v.y, r.y) && is_sum(arith, u.z, v.z, r.z)
    }

    /// Whether `r` may be `u + k`, the number applied to every component.
    pub open spec fn is_plus_scalar<A: Arithmetic>(arith: &A, u: Vec3, k: Scalar, r: Vec3) -> bool {
        is_sum(arith, u.x, k, r.x) && is_sum(arith, u.y, k, r.y) && is_sum(arith, u.z, k, r.z)
    }

    /// Whether `r` may be `k + v`, the number applied to every component.
    pub open spec fn is_scalar_plus<A: Arithmetic>(arith: &A, k: Scalar, v: Vec3, r: Vec3) -> bool {
        is_sum(arith, k, v.x, r.x) && is_sum(arith, k, v.y, r.y) && is_sum(arith, k, v.z, r.z)
    }

    /// Whether `r` may be `u - v`, component by component.
    pub open spec fn is_minus<A: Arithmetic>(arith: &A, u: Vec3, v: Vec3, r: Vec3) -> bool {
        is_difference(arith, u.x, v.x, r.x) && is_difference(arith, u.y, v.y, r.y) && is_difference(arith, u.z, v.z, r.z)
    }

    /// Whether `r` may be `u - k`, the number applied to every component.
    pub open spec fn is_minus_scalar<A: Arithmetic>(arith: &A, u: Vec3, k: Scalar, r: Vec3) -> bool {
        is_difference(arith, u.x, k, r.x) && is_difference(arith, u.y, k, r.y) && is_difference(arith, u.z, k, r.z)
    }

    /// Whether `r` may be `k - v`, the number applied to every component.
    pub open spec fn is_scalar_minus<A: Arithmetic>(arith: &A, k: Scalar, v: Vec3, r: Vec3) -> bool {
        is_difference(arith, k, v.x, r.x) && is_difference(arith, k, v.y, r.y) && is_difference(arith, k, v.z, r.z)
    }

    /// Whether `r` may be `u * v`, component by component.
    pub open spec fn is_times<A: Arithmetic>(arith: &A, u: Vec3, v: Vec3, r: Vec3) -> bool {
        is_product(arith, u.x, v.x, r.x) && is_product(arith, u.y, v.y, r.y) && is_product(arith, u.z, v.z, r.z)
    }

    /// Whether `r` may be `u * k`, the number applied to every component.
    pub open spec fn is_times_scalar<A: Arithmetic>(arith: &A, u: Vec3, k: Scalar, r: Vec3) -> bool {
        is_product(arith, u.x, k, r.x) && is_product(arith, u.y, k, r.y) && is_product(arith, u.z, k, r.z)
    }

    /// Whether `r` may be `k * v`, the number applied to every component.
    pub open spec fn is_scalar_times<A: Arithmetic>(arith: &A, k: Scalar, v: Vec3, r: Vec3) -> bool {
        is_product(arith, k, v.x, r.x) && is_product(arith, k, v.y, r.y) && is_product(arith, k, v.z, r.z)
    }

    /// Whether `r` may be `u / v`, component by component.
    pub open spec fn is_over<A: Arithmetic>(arith: &A, u: Vec3, v: Vec3, r: Vec3) -> bool {
        is_quotient(arith, u.x, v.x, r.x) && is_quotient(arith, u.y, v.y, r.y) && is_quotient(arith, u.z, v.z, r.z)
    }

    /// Whether `r` may be `u / k`, the number applied to every component.
    pub open spec fn is_over_scalar<A: Arithmetic>(arith: &A, u: Vec3, k: Scalar, r: Vec3) -> bool {
        is_quotient(arith, u.x, k, r.x) && is_quotient(arith, u.y, k, r.y) && is_quotient(arith, u.z, k, r.z)
    }

    /// Whether `r` may be `k / v`, the number applied to every component.
    pub open spec fn is_scalar_over<A: Arithmetic>(arith: &A, k: Scalar, v: Vec3, r: Vec3) -> bool {
        is_quotient(arith, k, v.x, r.x) && is_quotient(arith, k, v.y, r.y) && is_quotient(arith, k, v.z, r.z)
    }

    /// Whether `r` may be the inner product of `u` and `v`: the sum of the
    /// products of their components.
    pub open spec fn is_dot<A: Arithmetic>(arith: &A, u: Vec3, v: Vec3, r: Scalar) -> bool {
        exists|px: Scalar, py: Scalar, pz: Scalar, s: Scalar|
            is_product(arith, u.x, v.x, px) && is_product(arith, u.y, v.y, py) && is_product(
                arith,
                u.z,
                v.z,
                pz,
            ) && #[trigger] is_sum(arith, px, py, s) && #[trigger] is_sum(arith, s, pz, r)
    }

    /// Whether `r` may be `a * b - c * d`, one component of an outer
    /// product.
    pub open spec fn is_minor<A: Arithmetic>(
        arith: &A,
        a: Scalar,
        b: Scalar,
        c: Scalar,
        d: Scalar,
        r: Scalar,
    ) -> bool {
        exists|p: Scalar, q: Scalar|
            is_product(arith, a, b, p) && is_product(arith, c, d, q) && #[trigger] is_difference(
                arith,
                p,
                q,
                r,
            )
    }

    /// Whether `r` may be the outer product of `u` and `v`, by the rule of
    /// the right hand.
    pub open spec fn is_cross<A: Arithmetic>(arith: &A, u: Vec3, v: Vec3, r: Vec3) -> bool {
        Vec3::is_minor(arith, u.y, v.z, u.z, v.y, r.x) && Vec3::is_minor(
            arith,
            u.z,
            v.x,
            u.x,
            v.z,
            r.y,
        ) && Vec3::is_minor(arith, u.x, v.y, u.y, v.x, r.z)
    }

    /// Whether `r` may be the squared length of `v`: the sum of the squares
    /// of its components.
    pub open spec fn is_len_squared<A: Arithmetic>(arith: &A, v: Vec3, r: Scalar) -> bool {
        exists|sx: Scalar, sy: Scalar, sz: Scalar, s: Scalar|
            is_square(arith, v.x, sx) && is_square(arith, v.y, sy) && is_square(arith, v.z, sz)
                && #[trigger] is_sum(arith, sx, sy, s) && #[trigger] is_sum(arith, s, sz, r)
    }

    /// Whether `r` may be the length of `v`: the square root of its squared
    /// length.
    pub open spec fn is_len<A: Arithmetic>(arith: &A, v: Vec3, r: Scalar) -> bool {
        exists|squared: Scalar| #[trigger]
            Vec3::is_len_squared(arith, v, squared) && is_square_root(arith, squared, r)
    }

    /// Whether `r` may be `v` scaled to the length one: `v` over its length.
    pub open spec fn is_unit_vector<A: Arithmetic>(arith: &A, v: Vec3, r: Vec3) -> bool {
        exists|len: Scalar| #[trigger]
            Vec3::is_len(arith, v, len) && Vec3::is_over_scalar(arith, v, len, r)
    }

    /// Whether `r` may be `v` mirrored at a surface with the normal `n`:
    /// `v - 2 * dot(v, n) * n`.
    pub open spec fn is_reflection<A: Arithmetic>(arith: &A, v: Vec3, n: Vec3, r: Vec3) -> bool {
        exists|along: Scalar, twice: Scalar, back: Vec3| #[trigger]
            Vec3::is_dot(arith, v, n, along) && #[trigger] is_product(
                arith,
                Scalar { bits: TWO_BITS },
                along,
                twice,
            ) && #[trigger] Vec3::is_scalar_times(arith, twice, n, back) && Vec3::is_minus(
                arith,
                v,
                back,
                r,
            )
    }

    /// Whether `r` may be drawn with each component at least nought and
    /// less than one.
    pub open spec fn is_random<A: Arithmetic>(arith: &A, r: Vec3) -> bool {
        is_random(arith, r.x) && is_random(arith, r.y) && is_random(arith, r.z)
    }

    /// Whether `r` may be drawn with each component between `min` and `max`.
    pub open spec fn is_random_range<A: Arithmetic>(
        arith: &A,
        min: Scalar,
        max: Scalar,
        r: Vec3,
    ) -> bool {
        is_random_between(arith, min, max, r.x) && is_random_between(arith, min, max, r.y)
            && is_random_between(arith, min, max, r.z)
    }

    /// Whether `r` may come of one attempt at a point inside the unit
    /// sphere: a triple drawn from the cube from minus one to one, if its
    /// squared length is less than one.
    pub open spec fn is_sphere_attempt<A: Arithmetic>(arith: &A, r: Option<Vec3>) -> bool {
        exists|drawn: Vec3, squared: Scalar| #[trigger]
            Vec3::is_random_range(
                arith,
                Scalar { bits: MINUS_ONE_BITS },
                Scalar { bits: ONE_BITS },
                drawn,
            ) && #[trigger] Vec3::is_len_squared(arith, drawn, squared) && r == (
            if Vec3::fits_unit_sphere(squared) {
                Some(drawn)
            } else {
                None
            })
    }

    /// Whether `r` may be drawn as a random point inside the unit sphere:
    /// an attempt of the arithmetic gave it; or, after attempts that gave
    /// nothing, as many as a machine can count, an attempt of an arithmetic
    /// of the same kind gave it.
    pub open spec fn is_random_in_unit_sphere<A: Arithmetic>(arith: &A, r: Vec3) -> bool {
        Vec3::is_sphere_attempt(arith, Some(r)) || (Vec3::is_sphere_attempt(
            arith,
            None::<Vec3>,
        ) && exists|by: A| Vec3::is_sphere_attempt(&by, Some(r)))
    }

    /// Whether `c` may be the radius of the circle in which the unit sphere
    /// meets the plane at the height `z`: the square root of `1 - z * z`.
    pub open spec fn is_circle_radius<A: Arithmetic>(arith: &A, z: Scalar, c: Scalar) -> bool {
        exists|zz: Scalar, rest: Scalar|
            is_product(arith, z, z, zz) && #[trigger] is_difference(
                arith,
                Scalar { bits: ONE_BITS },
                zz,
                rest,
            ) && is_square_root(arith, rest, c)
    }

    /// Whether `(x, y)` may be the point at the angle `a` on the circle of
    /// radius `c` about the origin: `(c cos a, c sin a)`.
    pub open spec fn is_on_circle<A: Arithmetic>(
        arith: &A,
        a: Scalar,
        c: Scalar,
        x: Scalar,
        y: Scalar,
    ) -> bool {
        exists|cos: Scalar, sin: Scalar|
            #![trigger is_product(arith, c, cos, x), is_product(arith, c, sin, y)]
            is_cosine(arith, a, cos) && is_sine(arith, a, sin) && is_product(arith, c, cos, x)
                && is_product(arith, c, sin, y)
    }

    /// Whether `r` may be drawn as a vector of length one: with an angle
    /// `a` about the third axis between nought and a full turn, and a
    /// height `z` between minus one and one, it is `(c cos a, c sin a, z)`,
    /// where `c` is the square root of `1 - z * z`.
    pub open spec fn is_random_unit_vec<A: Arithmetic>(arith: &A, r: Vec3) -> bool {
        exists|a: Scalar, c: Scalar|
            is_random_between(arith, Scalar { bits: 0 }, Scalar { bits: FULL_TURN_BITS }, a)
                && is_random_between(
                arith,
                Scalar { bits: MINUS_ONE_BITS },
                Scalar { bits: ONE_BITS },
                r.z,
            ) && Vec3::is_circle_radius(arith, r.z, c) && #[trigger] Vec3::is_on_circle(
                arith,
                a,
                c,
                r.x,
                r.y,
            )
    }

    pub fn new(x: Scalar, y: Scalar, z: Scalar) -> (r: Vec3)
        ensures
            r == (Vec3 { x, y, z }),
    {
        Vec3 { x, y, z }
    }

    pub fn x(&self) -> (r: Scalar)
        ensures
            r == self.x,
    {
        self.x
    }

    pub fn y(&self) -> (r: Scalar)
        ensures
            r == self.y,
    {
        self.y
    }

    pub fn z(&self) -> (r: Scalar)
        ensures
            r == self.z,
    {
        self.z
    }

    /// The component at an index. There are three.
    pub fn index(&self, i: usize) -> (r: Scalar)
        requires
            i < 3,
        ensures
            r == self.component(i as int),
    {
        if i == 0 {
            self.x
        } else if i == 1 {
            self.y
        } else {
            self.z
        }
    }

    /// Replaces the component at an index. There are three.
    pub fn set_index(&mut self, i: usize, value: Scalar)
        requires
            i < 3,
        ensures
            final(self).component(i as int) == value,
            forall|j: int| 0 <= j < 3 && j != i ==> final(self).component(j) == old(self).component(j),
    {
        if i == 0 {
            self.x = value;
        } else if i == 1 {
            self.y = value;
        } else {
            self.z = value;
        }
    }

    pub fn is_same(&self, other: &Vec3) -> (r: bool)
        ensures
            r == self.same(*other),
    {
        self.x.is_same(&other.x) && self.y.is_same(&other.y) && self.z.is_same(&other.z)
    }

    /// The opposite triple.
    pub fn neg(&self) -> (r: Vec3)
        ensures
            r == self.negated(),
    {
        Vec3 { x: self.x.neg(), y: self.y.neg(), z: self.z.neg() }
    }

    /// Whether the triple is too short to give a direction.
    pub fn near_zero(&self) -> (r: bool)
        ensures
            r == self.vanishes(),
    {
        let tiny = Scalar::tiny();
        self.x.abs().is_lt(&tiny) && self.y.abs().is_lt(&tiny) && self.z.abs().is_lt(&tiny)
    }

    /// `self + rhs`, component by component.
    pub fn plus<A: Arithmetic>(self, rhs: Vec3, arith: &A) -> (r: Vec3)
        ensures
            Vec3::is_plus(arith, self, rhs, r),
    {
        Vec3 {
            x: arith.sum(self.x, rhs.x),
            y: arith.sum(self.y, rhs.y),
            z: arith.sum(self.z, rhs.z),
        }
    }

    /// `self + rhs`, the number applied to every component.
    pub fn plus_scalar<A: Arithmetic>(self, rhs: Scalar, arith: &A) -> (r: Vec3)
        ensures
            Vec3::is_plus_scalar(arith, self, rhs, r),
    {
        Vec3 {
            x: arith.sum(self.x, rhs),
            y: arith.sum(self.y, rhs),
            z: arith.sum(self.z, rhs),
        }
    }

    /// `lhs + rhs`, the number applied to every component.
    pub fn scalar_plus<A: Arithmetic>(lhs: Scalar, rhs: Vec3, arith: &A) -> (r: Vec3)
        ensures
            Vec3::is_scalar_plus(arith, lhs, rhs, r),
    {
        Vec3 {
            x: arith.sum(lhs, rhs.x),
            y: arith.sum(lhs, rhs.y),
            z: arith.sum(lhs, rhs.z),
        }
    }

    /// `self += rhs`, component by component.
    pub fn plus_assign<A: Arithmetic>(&mut self, rhs: Vec3, arith: &A)
        ensures
            Vec3::is_plus(arith, *old(self), rhs, *final(self)),
    {
        self.x = arith.sum(self.x, rhs.x);
        self.y = arith.sum(self.y, rhs.y);
        self.z = arith.sum(self.z, rhs.z);
    }

    /// `self += rhs`, the number applied to every component.
    pub fn plus_assign_scalar<A: Arithmetic>(&mut self, rhs: Scalar, arith: &A)
        ensures
            Vec3::is_plus_scalar(arith, *old(self), rhs, *final(self)),
    {
        self.x = arith.sum(self.x, rhs);
        self.y = arith.sum(self.y, rhs);
        self.z = arith.sum(self.z, rhs);
    }

    /// `self - rhs`, component by component.
    pub fn minus<A: Arithmetic>(self, rhs: Vec3, arith: &A) -> (r: Vec3)
        ensures
            Vec3::is_minus(arith, self, rhs, r),
    {
        Vec3 {
            x: arith.difference(self.x, rhs.x),
            y: arith.difference(self.y, rhs.y),
            z: arith.difference(self.z, rhs.z),
        }
    }

    /// `self - rhs`, the number applied to every component.
    pub fn minus_scalar<A: Arithmetic>(self, rhs: Scalar, arith: &A) -> (r: Vec3)
        ensures
            Vec3::is_minus_scalar(arith, self, rhs, r),
    {
        Vec3 {
            x: arith.difference(self.x, rhs),
            y: arith.difference(self.y, rhs),
            z: arith.difference(self.z, rhs),
        }
    }

    /// `lhs - rhs`, the number applied to every component.
    pub fn scalar_minus<A: Arithmetic>(lhs: Scalar, rhs: Vec3, arith: &A) -> (r: Vec3)
        ensures
            Vec3::is_scalar_minus(arith, lhs, rhs, r),
    {
        Vec3 {
            x: arith.difference(lhs, rhs.x),
            y: arith.difference(lhs, rhs.y),
            z: arith.difference(lhs, rhs.z),
        }
    }

    /// `self -= rhs`, component by component.
    pub fn minus_assign<A: Arithmetic>(&mut self, rhs: Vec3, arith: &A)
        ensures
            Vec3::is_minus(arith, *old(self), rhs, *final(self)),
    {
        self.x = arith.difference(self.x, rhs.x);
        self.y = arith.difference(self.y, rhs.y);
        self.z = arith.difference(self.z, rhs.z);
    }

    /// `self -= rhs`, the number applied to every component.
    pub fn minus_assign_scalar<A: Arithmetic>(&mut self, rhs: Scalar, arith: &A)
        ensures
            Vec3::is_minus_scalar(arith, *old(self), rhs, *final(self)),
    {
        self.x = arith.difference(self.x, rhs);
        self.y = arith.difference(self.y, rhs);
        self.z = arith.difference(self.z, rhs);
    }

    /// `self * rhs`, component by component.
    pub fn times<A: Arithmetic>(self, rhs: Vec3, arith: &A) -> (r: Vec3)
        ensures
            Vec3::is_times(arith, self, rhs, r),
    {
        Vec3 {
            x: arith.product(self.x, rhs.x),
            y: arith.product(self.y, rhs.y),
            z: arith.product(self.z, rhs.z),
        }
    }

    /// `self * rhs`, the number applied to every component.
    pub fn times_scalar<A: Arithmetic>(self, rhs: Scalar, arith: &A) -> (r: Vec3)
        ensures
            Vec3::is_times_scalar(arith, self, rhs, r),
    {
        Vec3 {
            x: arith.product(self.x, rhs),
            y: arith.product(self.y, rhs),
            z: arith.product(self.z, rhs),
        }
    }

    /// `lhs * rhs`, the number applied to every component.
    pub fn scalar_times<A: Arithmetic>(lhs: Scalar, rhs: Vec3, arith: &A) -> (r: Vec3)
        ensures
            Vec3::is_scalar_times(arith, lhs, rhs, r),
    {
        Vec3 {
            x: arith.product(lhs, rhs.x),
            y: arith.product(lhs, rhs.y),
            z: arith.product(lhs, rhs.z),
        }
    }

    /// `self *= rhs`, component by component.
    pub fn times_assign<A: Arithmetic>(&mut self, rhs: Vec3, arith: &A)
        ensures
            Vec3::is_times(arith, *old(self), rhs, *final(self)),
    {
        self.x = arith.product(self.x, rhs.x);
        self.y = arith.product(self.y, rhs.y);
        self.z = arith.product(self.z, rhs.z);
    }

    /// `self *= rhs`, the number applied to every component.
    pub fn times_assign_scalar<A: Arithmetic>(&mut self, rhs: Scalar, arith: &A)
        ensures
            Vec3::is_times_scalar(arith, *old(self), rhs, *final(self)),
    {
        self.x = arith.product(self.x, rhs);
        self.y = arith.product(self.y, rhs);
        self.z = arith.product(self.z, rhs);
    }

    /// `self / rhs`, component by component.
    pub fn over<A: Arithmetic>(self, rhs: Vec3, arith: &A) -> (r: Vec3)
        ensures
            Vec3::is_over(arith, self, rhs, r),
    {
        Vec3 {
            x: arith.quotient(self.x, rhs.x),
            y: arith.quotient(self.y, rhs.y),
            z: arith.quotient(self.z, rhs.z),
        }
    }

    /// `self / rhs`, the number applied to every component.
    pub fn over_scalar<A: Arithmetic>(self, rhs: Scalar, arith: &A) -> (r: Vec3)
        ensures
            Vec3::is_over_scalar(arith, self, rhs, r),
    {
        Vec3 {
            x: arith.quotient(self.x, rhs),
            y: arith.quotient(self.y, rhs),
            z: arith.quotient(self.z, rhs),
        }
    }

    /// `lhs / rhs`, the number applied to every component.
    pub fn scalar_over<A: Arithmetic>(lhs: Scalar, rhs: Vec3, arith: &A) -> (r: Vec3)
        ensures
            Vec3::is_scalar_over(arith, lhs, rhs, r),
    {
        Vec3 {
            x: arith.quotient(lhs, rhs.x),
            y: arith.quotient(lhs, rhs.y),
            z: arith.quotient(lhs, rhs.z),
        }
    }

    /// `self /= rhs`, component by component.
    pub fn over_assign<A: Arithmetic>(&mut self, rhs: Vec3, arith: &A)
        ensures
            Vec3::is_over(arith, *old(self), rhs, *final(self)),
    {
        self.x = arith.quotient(self.x, rhs.x);
        self.y = arith.quotient(self.y, rhs.y);
        self.z = arith.quotient(self.z, rhs.z);
    }

    /// `self /= rhs`, the number applied to every component.
    pub fn over_assign_scalar<A: Arithmetic>(&mut self, rhs: Scalar, arith: &A)
        ensures
            Vec3::is_over_scalar(arith, *old(self), rhs, *final(self)),
    {
        self.x = arith.quotient(self.x, rhs);
        self.y = arith.quotient(self.y, rhs);
        self.z = arith.quotient(self.z, rhs);
    }

    /// The inner product of `u` and `v`.
    pub fn dot<A: Arithmetic>(u: &Vec3, v: &Vec3, arith: &A) -> (r: Scalar)
        ensures
            Vec3::is_dot(arith, *u, *v, r),
    {
        let px = arith.product(u.x, v.x);
        let py = arith.product(u.y, v.y);
        let pz = arith.product(u.z, v.z);
        let s = arith.sum(px, py);
        let r = arith.sum(s, pz);
        assert(is_sum(arith, px, py, s) && is_sum(arith, s, pz, r));
        r
    }

    /// One component of an outer product: `a * b - c * d`.
    fn minor<A: Arithmetic>(a: Scalar, b: Scalar, c: Scalar, d: Scalar, arith: &A) -> (r: Scalar)
        ensures
            Vec3::is_minor(arith, a, b, c, d, r),
    {
        let p = arith.product(a, b);
        let q = arith.product(c, d);
        let r = arith.difference(p, q);
        assert(is_difference(arith, p, q, r));
        r
    }

    /// The outer product of `u` and `v`, by the rule of the right hand.
    pub fn cross<A: Arithmetic>(u: &Vec3, v: &Vec3, arith: &A) -> (r: Vec3)
        ensures
            Vec3::is_cross(arith, *u, *v, r),
    {
        Vec3 {
            x: Vec3::minor(u.y, v.z, u.z, v.y, arith),
            y: Vec3::minor(u.z, v.x, u.x, v.z, arith),
            z: Vec3::minor(u.x, v.y, u.y, v.x, arith),
        }
    }

    /// The squared length.
    pub fn len_squared<A: Arithmetic>(&self, arith: &A) -> (r: Scalar)
        ensures
            Vec3::is_len_squared(arith, *self, r),
    {
        let sx = arith.square(self.x);
        let sy = arith.square(self.y);
        let sz = arith.square(self.z);
        let s = arith.sum(sx, sy);
        let r = arith.sum(s, sz);
        assert(is_sum(arith, sx, sy, s) && is_sum(arith, s, sz, r));
        r
    }

    /// The length.
    pub fn len<A: Arithmetic>(&self, arith: &A) -> (r: Scalar)
        ensures
            Vec3::is_len(arith, *self, r),
    {
        let squared = self.len_squared(arith);
        arith.square_root(squared)
    }

    /// The triple scaled to the length one. A triple of length nought has no
    /// direction: what comes of it is what the arithmetic makes of a
    /// division by nought.
    pub fn unit_vector<A: Arithmetic>(&self, arith: &A) -> (r: Vec3)
        ensures
            Vec3::is_unit_vector(arith, *self, r),
    {
        let len = self.len(arith);
        self.over_scalar(len, arith)
    }

    /// The direction `self` mirrored at a surface with the normal `n`.
    pub fn reflect<A: Arithmetic>(&self, n: &Vec3, arith: &A) -> (r: Vec3)
        ensures
            Vec3::is_reflection(arith, *self, *n, r),
    {
        let along = Vec3::dot(self, n, arith);
        let twice = arith.product(Scalar::two(), along);
        let back = Vec3::scalar_times(twice, *n, arith);
        let r = self.minus(back, arith);
        assert(is_product(arith, Scalar { bits: TWO_BITS }, along, twice));
        assert(Vec3::is_scalar_times(arith, twice, *n, back));
        r
    }

    /// A random triple, each component at least nought and less than one.
    pub fn random<A: Arithmetic>(arith: &A) -> (r: Vec3)
        ensures
            Vec3::is_random(arith, r),
    {
        let x = arith.random();
        let y = arith.random();
        let z = arith.random();
        Vec3 { x, y, z }
    }

    /// A random triple, each component at least `min` and less than `max`.
    pub fn random_range<A: Arithmetic>(min: Scalar, max: Scalar, arith: &A) -> (r: Vec3)
        ensures
            Vec3::is_random_range(arith, min, max, r),
    {
        let x = random_between(min, max, arith);
        let y = random_between(min, max, arith);
        let z = random_between(min, max, arith);
        Vec3 { x, y, z }
    }

    /// One attempt at a random point inside the unit sphere: a triple from
    /// the cube about the sphere, or nothing where it lies on the sphere or
    /// outside. About every second attempt gives a point.
    pub fn sphere_attempt<A: Arithmetic>(arith: &A) -> (r: Option<Vec3>)
        ensures
            Vec3::is_sphere_attempt(arith, r),
    {
        let drawn = Vec3::random_range(Scalar::minus_one(), Scalar::one(), arith);
        let squared = drawn.len_squared(arith);
        assert(Vec3::is_random_range(
            arith,
            Scalar { bits: MINUS_ONE_BITS },
            Scalar { bits: ONE_BITS },
            drawn,
        ));
        if Vec3::inside_unit_sphere(&squared) {
            Some(drawn)
        } else {
            None
        }
    }

    /// One attempt at a random point inside the unit sphere, for those who
    /// go on drawing where the library has given up: the point, if the
    /// attempt gave one, as one that an attempt has given.
    pub fn accepted_attempt<A: Arithmetic>(arith: &A) -> (r: Option<Accepted<A>>)
        ensures
            Vec3::is_sphere_attempt(arith, plain(r)),
    {
        match Vec3::sphere_attempt(arith) {
            Some(point) => Some(Accepted { point, by: Ghost(*arith) }),
            None => None,
        }
    }

    /// A random point inside the unit sphere: triples are drawn from the
    /// cube about the sphere until one lies inside. About every second does,
    /// so that a few attempts are enough; should `usize::MAX` attempts in a
    /// row give nothing, the arithmetic goes on drawing. Whoever ends the
    /// drawing, the point is one that an attempt has given.
    pub fn random_in_unit_sphere<A: Arithmetic>(arith: &A) -> (r: Vec3)
        ensures
            Vec3::is_random_in_unit_sphere(arith, r),
            exists|by: A| Vec3::is_sphere_attempt(&by, Some(r)),
    {
        let mut attempts: usize = 0;
        while attempts < usize::MAX
            invariant
                attempts > 0 ==> Vec3::is_sphere_attempt(arith, None::<Vec3>),
            decreases usize::MAX - attempts,
        {
            match Vec3::sphere_attempt(arith) {
                Some(p) => {
                    assert(Vec3::is_sphere_attempt(arith, Some(p)));
                    return p;
                },
                None => {},
            }
            attempts = attempts + 1;
        }
        arith.random_in_unit_sphere().point()
    }

    /// A random vector of length one, each direction as likely as the
    /// other.
    pub fn random_unit_vec<A: Arithmetic>(arith: &A) -> (r: Vec3)
        ensures
            Vec3::is_random_unit_vec(arith, r),
    {
        let a = random_between(Scalar::zero(), Scalar::full_turn(), arith);
        let z = random_between(Scalar::minus_one(), Scalar::one(), arith);
        let zz = arith.product(z, z);
        let rest = arith.difference(Scalar::one(), zz);
        let c = arith.square_root(rest);
        let cos = arith.cosine(a);
        let sin = arith.sine(a);
        let x = arith.product(c, cos);
        let y = arith.product(c, sin);
        assert(is_difference(arith, Scalar { bits: ONE_BITS }, zz, rest));
        assert(is_product(arith, c, cos, x) && is_product(arith, c, sin, y));
        let r = Vec3 { x, y, z };
        assert(Vec3::is_circle_radius(arith, r.z, c));
        assert(Vec3::is_on_circle(arith, a, c, r.x, r.y));
        r
    }

    /// Whether a triple that was drawn from the cube around the origin is
    /// kept as a point of the unit sphere's inside; `len_squared` is its
    /// squared length. A triple on the surface or outside is drawn again.
    pub fn inside_unit_sphere(len_squared: &Scalar) -> (r: bool)
        ensures
            r == Self::fits_unit_sphere(*len_squared),
    {
        len_squared.is_lt(&Scalar::one())
    }

    pub fn white() -> (r: Vec3)
        ensures
            r.x.bits == ONE_BITS && r.y.bits == ONE_BITS && r.z.bits == ONE_BITS,
    {
        Vec3 { x: Scalar::one(), y: Scalar::one(), z: Scalar::one() }
    }

    pub fn red() -> (r: Vec3)
        ensures
            r.x.bits == ONE_BITS && r.y.bits == 0 && r.z.bits == 0,
    {
        Vec3 { x: Scalar::one(), y: Scalar::zero(), z: Scalar::zero() }
    }

    pub fn green() -> (r: Vec3)
        ensures
            r.x.bits == 0 && r.y.bits == ONE_BITS && r.z.bits == 0,
    {
        Vec3 { x: Scalar::zero(), y: Scalar::one(), z: Scalar::zero() }
    }

    pub fn blue() -> (r: Vec3)
        ensures
            r.x.bits == 0 && r.y.bits == 0 && r.z.bits == ONE_BITS,
    {
        Vec3 { x: Scalar::zero(), y: Scalar::zero(), z: Scalar::one() }
    }

    pub fn black() -> (r: Vec3)
        ensures
            r.x.bits == 0 && r.y.bits == 0 && r.z.bits == 0,
    {
        Vec3 { x: Scalar::zero(), y: Scalar::zero(), z: Scalar::zero() }
    }
}

impl<A: Arithmetic> Accepted<A> {
    /// An attempt of the arithmetic that drew the point has given it.
    #[verifier::type_invariant]
    spec fn accepted(self) -> bool {
        Vec3::is_sphere_attempt(&self.by@, Some(self.point))
    }

    /// The point.
    pub closed spec fn point_of(self) -> Vec3 {
        self.point
    }

    /// The point. An attempt of an arithmetic of this kind has given it.
    pub fn point(&self) -> (r: Vec3)
        ensures
            r == self.point_of(),
            exists|by: A| Vec3::is_sphere_attempt(&by, Some(r)),
    {
        proof {
            use_type_invariant(self);
            assert(Vec3::is_sphere_attempt(&self.by@, Some(self.point)));
        }
        self.point
    }
}

/// What an attempt has given, as a plain point.
pub open spec fn plain<A: Arithmetic>(attempt: Option<Accepted<A>>) -> Option<Vec3> {
    match attempt {
        Some(accepted) => Some(accepted.point_of()),
        None => None,
    }
}

impl Default for Vec3 {
    /// The origin, which is also black.
    fn default() -> (r: Vec3)
        ensures
            r.x.bits == 0 && r.y.bits == 0 && r.z.bits == 0,
    {
        Vec3 { x: Scalar::zero(), y: Scalar::zero(), z: Scalar::zero() }
    }
}

/// Where the sum of two numbers does not depend on their order, neither
/// does the sum of two vectors of numbers.
pub proof fn plus_commutes_where_the_sum_does<A: Arithmetic>(arith: &A, v: Vec3, w: Vec3, r: Vec3)
    requires
        forall|a: Scalar, b: Scalar, c: Scalar|
            !a.nan() && !b.nan() && #[trigger] is_sum(arith, a, b, c) ==> is_sum(arith, b, a, c),
        v.numbers(),
        w.numbers(),
        Vec3::is_plus(arith, v, w, r),
    ensures
        Vec3::is_plus(arith, w, v, r),
{
}

/// Where the product of two numbers does not depend on their order, a
/// number times a vector of numbers is that vector times the number.
pub proof fn scaling_commutes_where_the_product_does<A: Arithmetic>(
    arith: &A,
    k: Scalar,
    v: Vec3,
    r: Vec3,
)
    requires
        forall|a: Scalar, b: Scalar, c: Scalar|
            !a.nan() && !b.nan() && #[trigger] is_product(arith, a, b, c) ==> is_product(
                arith,
                b,
                a,
                c,
            ),
        !k.nan(),
        v.numbers(),
    ensures
        Vec3::is_scalar_times(arith, k, v, r) <==> Vec3::is_times_scalar(arith, v, k, r),
{
}

/// Where the square of a number is its product with itself, the inner
/// product of a vector with itself is its squared length.
pub proof fn dot_with_itself_is_len_squared_where_a_square_is_a_product<A: Arithmetic>(
    arith: &A,
    v: Vec3,
    r: Scalar,
)
    requires
        forall|a: Scalar, c: Scalar| #[trigger] is_square(arith, a, c) <==> is_product(arith, a, a, c),
    ensures
        Vec3::is_dot(arith, v, v, r) <==> Vec3::is_len_squared(arith, v, r),
{
    if Vec3::is_dot(arith, v, v, r) {
        let (px, py, pz, s) = choose|px: Scalar, py: Scalar, pz: Scalar, s: Scalar|
            is_product(arith, v.x, v.x, px) && is_product(arith, v.y, v.y, py) && is_product(
                arith,
                v.z,
                v.z,
                pz,
            ) && #[trigger] is_sum(arith, px, py, s) && #[trigger] is_sum(arith, s, pz, r);
        assert(is_square(arith, v.x, px) && is_square(arith, v.y, py) && is_square(arith, v.z, pz));
        assert(is_sum(arith, px, py, s) && is_sum(arith, s, pz, r));
    }
    if Vec3::is_len_squared(arith, v, r) {
        let (sx, sy, sz, s) = choose|sx: Scalar, sy: Scalar, sz: Scalar, s: Scalar|
            is_square(arith, v.x, sx) && is_square(arith, v.y, sy) && is_square(arith, v.z, sz)
                && #[trigger] is_sum(arith, sx, sy, s) && #[trigger] is_sum(arith, s, sz, r);
        assert(is_product(arith, v.x, v.x, sx) && is_product(arith, v.y, v.y, sy) && is_product(
            arith,
            v.z,
            v.z,
            sz,
        ));
        assert(is_sum(arith, sx, sy, s) && is_sum(arith, s, sz, r));
    }
}

/// Where the product of two numbers is one number whatever their order, and
/// a finite number less itself is nought, the outer product with itself of a
/// vector of numbers whose components have finite products is the vector of
/// noughts.
pub proof fn cross_with_itself_vanishes_where_equal_numbers_cancel<A: Arithmetic>(
    arith: &A,
    v: Vec3,
    r: Vec3,
)
    requires
        forall|a: Scalar, b: Scalar, p: Scalar, q: Scalar|
            !a.nan() && !b.nan() && #[trigger] is_product(arith, a, b, p) && #[trigger] is_product(
                arith,
                b,
                a,
                q,
            ) ==> p == q,
        forall|p: Scalar, d: Scalar|
            p.finite() && #[trigger] is_difference(arith, p, p, d) ==> d.bits == 0,
        v.numbers(),
        forall|i: int, j: int, p: Scalar|
            0 <= i < 3 && 0 <= j < 3 && #[trigger] is_product(
                arith,
                v.component(i),
                v.component(j),
                p,
            ) ==> p.finite(),
        Vec3::is_cross(arith, v, v, r),
    ensures
        r.x.bits == 0 && r.y.bits == 0 && r.z.bits == 0,
{
    assert(v.component(0) == v.x && v.component(1) == v.y && v.component(2) == v.z);
}

/// Where the product of two numbers is one number whatever their order, and
/// a difference changes its sign with the order of its numbers, the outer
/// product of two vectors of numbers changes its sign with their order,
/// component by component: both are no numbers, or one is the opposite of
/// the other.
pub proof fn cross_turns_with_its_order_where_the_difference_does<A: Arithmetic>(
    arith: &A,
    v: Vec3,
    w: Vec3,
    r: Vec3,
    s: Vec3,
)
    requires
        forall|a: Scalar, b: Scalar, p: Scalar, q: Scalar|
            !a.nan() && !b.nan() && #[trigger] is_product(arith, a, b, p) && #[trigger] is_product(
                arith,
                b,
                a,
                q,
            ) ==> p == q,
        forall|p: Scalar, q: Scalar, d: Scalar, e: Scalar| #[trigger]
            is_difference(arith, p, q, d) && #[trigger] is_difference(arith, q, p, e) ==> (d.nan()
                && e.nan()) || d.same(e.negated()),
        v.numbers(),
        w.numbers(),
        Vec3::is_cross(arith, v, w, r),
        Vec3::is_cross(arith, w, v, s),
    ensures
        (r.x.nan() && s.x.nan()) || r.x.same(s.x.negated()),
        (r.y.nan() && s.y.nan()) || r.y.same(s.y.negated()),
        (r.z.nan() && s.z.nan()) || r.z.same(s.z.negated()),
{
}

} // verus!
