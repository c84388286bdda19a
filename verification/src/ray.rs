//! Rays: half-lines from an origin along a direction.

use crate::arithmetic::Arithmetic;
use crate::scalar::Scalar;
use crate::vec3::Point;
use crate::vec3::Vec3;
use vstd::prelude::*;

verus! {

/// A ray that goes from its origin to infinity in its direction. The
/// direction need not have length one.
#[derive(Debug, Clone, Copy)]
pub struct Ray {
    pub origin: Point,
    pub direction: Point,
}

/// Why a place on a ray could not be given. [`Ray::point_at`] gives every
/// time its place and so never answers with it.
#[derive(Debug, Clone, Copy, PartialEq, Eq, Structural)]
pub enum RayError {
    /// The place would lie behind the origin.
    InvalidDirection,
}

impl Ray {
    /// Whether `r` may be the place of the ray's line at the time `t`: the
    /// origin plus `t` times the direction.
    pub open spec fn is_at<A: Arithmetic>(arith: &A, ray: Ray, t: Scalar, r: Point) -> bool {
        exists|way: Vec3| #[trigger]
            Vec3::is_scalar_times(arith, t, ray.direction, way) && Vec3::is_plus(
                arith,
                ray.origin,
                way,
                r,
            )
    }

    pub fn new(origin: Point, direction: Point) -> (r: Ray)
        ensures
            r == (Ray { origin, direction }),
    {
        Ray { origin, direction }
    }

    pub fn origin(&self) -> (r: &Point)
        ensures
            *r == self.origin,
    {
        &self.origin
    }

    pub fn direction(&self) -> (r: &Point)
        ensures
            *r == self.direction,
    {
        &self.direction
    }

    /// The place of the ray at the time `t`, which may be negative.
    pub fn at<A: Arithmetic>(&self, t: Scalar, arith: &A) -> (r: Point)
        ensures
            Ray::is_at(arith, *self, t, r),
    {
        let way = Vec3::scalar_times(t, self.direction, arith);
        self.origin.plus(way, arith)
    }

    /// The place that the ray reaches at the given time, which behaves like
    /// time in the motion of a body: the origin plus `time` times the
    /// direction. Every time has its place, a negative one behind the
    /// origin.
    pub fn point_at<A: Arithmetic>(&self, time: Scalar, arith: &A) -> (r: Result<Point, RayError>)
        ensures
            r matches Ok(p) && Ray::is_at(arith, *self, time, p),
    {
        Ok(self.at(time, arith))
    }
}

impl Default for Ray {
    /// The ray without extent: origin and direction are both zero.
    fn default() -> (r: Ray)
        ensures
            r.origin.x.bits == 0 && r.origin.y.bits == 0 && r.origin.z.bits == 0,
            r.direction.x.bits == 0 && r.direction.y.bits == 0 && r.direction.z.bits == 0,
    {
        Ray { origin: Point::default(), direction: Point::default() }
    }
}

} // verus!
