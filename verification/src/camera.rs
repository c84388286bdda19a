//! The camera: from a place in the picture to a ray into the scene.
//!
//! The camera looks along the third axis, towards its negative end, at a
//! window that stands one unit before it. The window is two units high and
//! as wide as the picture's proportions ask.

use crate::arithmetic::is_product;
use crate::arithmetic::Arithmetic;
use crate::ray::Ray;
use crate::scalar::Scalar;
use crate::scalar::ONE_BITS;
use crate::scalar::TWO_BITS;
use crate::vec3::Point;
use crate::vec3::Vec3;
use vstd::prelude::*;

verus! {

/// A camera: where it stands, the lower left corner of its window, and the
/// window's extent to the right and upwards.
#[derive(Debug, Clone, Copy)]
pub struct Camera {
    pub origin: Point,
    pub lower_left_corner: Point,
    pub horizontal: Point,
    pub vertical: Point,
}

/// The way from the camera to its window: one unit along the third axis.
pub open spec fn focal() -> Vec3 {
    Vec3 { x: Scalar { bits: 0 }, y: Scalar { bits: 0 }, z: Scalar { bits: ONE_BITS } }
}

impl Camera {
    /// Whether `corner` may be the lower left corner of the window of a
    /// camera at `origin`: the origin less half of the window's extent to
    /// the right, less half of its extent upwards, less the way to the
    /// window.
    pub open spec fn is_corner<A: Arithmetic>(
        arith: &A,
        origin: Point,
        horizontal: Vec3,
        vertical: Vec3,
        corner: Point,
    ) -> bool {
        exists|half_horizontal: Vec3, half_vertical: Vec3, left: Vec3, low: Vec3|
            #![trigger Vec3::is_minus(arith, origin, half_horizontal, left), Vec3::is_minus(arith, left, half_vertical, low)]
            Vec3::is_over_scalar(arith, horizontal, Scalar { bits: TWO_BITS }, half_horizontal)
                && Vec3::is_over_scalar(arith, vertical, Scalar { bits: TWO_BITS }, half_vertical)
                && Vec3::is_minus(arith, origin, half_horizontal, left) && Vec3::is_minus(
                arith,
                left,
                half_vertical,
                low,
            ) && Vec3::is_minus(arith, low, focal(), corner)
    }

    /// Whether `camera` may be the camera at `origin` for a picture whose
    /// width is `aspect_ratio` times its height: its window is two units
    /// high and `aspect_ratio` times two units wide.
    pub open spec fn is_camera<A: Arithmetic>(
        arith: &A,
        origin: Point,
        aspect_ratio: Scalar,
        camera: Camera,
    ) -> bool {
        &&& camera.origin == origin
        &&& is_product(arith, aspect_ratio, Scalar { bits: TWO_BITS }, camera.horizontal.x)
        &&& camera.horizontal.y == (Scalar { bits: 0 })
        &&& camera.horizontal.z == (Scalar { bits: 0 })
        &&& camera.vertical == (Vec3 {
            x: Scalar { bits: 0 },
            y: Scalar { bits: TWO_BITS },
            z: Scalar { bits: 0 },
        })
        &&& Camera::is_corner(
            arith,
            origin,
            camera.horizontal,
            camera.vertical,
            camera.lower_left_corner,
        )
    }

    /// Whether `r` may be the direction from the camera to the place
    /// `(u, v)` of its window, where `(0, 0)` is the lower left corner and
    /// `(1, 1)` the upper right: the corner plus `u` times the extent to the
    /// right plus `v` times the extent upwards, less the origin.
    pub open spec fn is_direction<A: Arithmetic>(
        arith: &A,
        camera: Camera,
        u: Scalar,
        v: Scalar,
        r: Point,
    ) -> bool {
        exists|across: Vec3, up: Vec3, right: Vec3, place: Vec3|
            #![trigger Vec3::is_plus(arith, camera.lower_left_corner, across, right), Vec3::is_plus(arith, right, up, place)]
            Vec3::is_scalar_times(arith, u, camera.horizontal, across) && Vec3::is_scalar_times(
                arith,
                v,
                camera.vertical,
                up,
            ) && Vec3::is_plus(arith, camera.lower_left_corner, across, right) && Vec3::is_plus(
                arith,
                right,
                up,
                place,
            ) && Vec3::is_minus(arith, place, camera.origin, r)
    }

    /// The camera at `origin` for a picture whose width is `aspect_ratio`
    /// times its height.
    pub fn new<A: Arithmetic>(origin: Point, aspect_ratio: Scalar, arith: &A) -> (camera: Camera)
        ensures
            Camera::is_camera(arith, origin, aspect_ratio, camera),
    {
        let viewport_height = Scalar::two();
        let viewport_width = arith.product(aspect_ratio, viewport_height);
        let focal_length = Scalar::one();
        let horizontal = Point::new(viewport_width, Scalar::zero(), Scalar::zero());
        let vertical = Point::new(Scalar::zero(), viewport_height, Scalar::zero());
        let half_horizontal = horizontal.over_scalar(Scalar::two(), arith);
        let half_vertical = vertical.over_scalar(Scalar::two(), arith);
        let focal_way = Point::new(Scalar::zero(), Scalar::zero(), focal_length);
        let left = origin.minus(half_horizontal, arith);
        let low = left.minus(half_vertical, arith);
        let lower_left_corner = low.minus(focal_way, arith);
        proof {
            assert(focal_way == focal());
            assert(Vec3::is_minus(arith, origin, half_horizontal, left));
            assert(Vec3::is_minus(arith, left, half_vertical, low));
            assert(Camera::is_corner(arith, origin, horizontal, vertical, lower_left_corner));
        }
        Camera { origin, horizontal, vertical, lower_left_corner }
    }

    /// The direction from the camera to the place `(u, v)` of its window.
    pub fn get_direction<A: Arithmetic>(&self, u: Scalar, v: Scalar, arith: &A) -> (r: Point)
        ensures
            Camera::is_direction(arith, *self, u, v, r),
    {
        let across = Vec3::scalar_times(u, self.horizontal, arith);
        let up = Vec3::scalar_times(v, self.vertical, arith);
        let right = self.lower_left_corner.plus(across, arith);
        let place = right.plus(up, arith);
        let r = place.minus(self.origin, arith);
        proof {
            assert(Vec3::is_plus(arith, self.lower_left_corner, across, right));
            assert(Vec3::is_plus(arith, right, up, place));
        }
        r
    }

    /// The ray from the camera through the place `(u, v)` of its window.
    pub fn get_ray<A: Arithmetic>(&self, u: Scalar, v: Scalar, arith: &A) -> (r: Ray)
        ensures
            r.origin == self.origin,
            Camera::is_direction(arith, *self, u, v, r.direction),
    {
        let direction = self.get_direction(u, v, arith);
        Ray::new(self.origin, direction)
    }
}

} // verus!
