//! What is known of the place where a ray struck a surface.

use crate::arithmetic::Arithmetic;
use crate::material::Material;
use crate::ray::Ray;
use crate::scalar::Scalar;
use crate::vec3::Point;
use crate::vec3::Vec3;
use vstd::prelude::*;

verus! {

/// The place where a ray struck a surface.
#[derive(Debug, Clone, Copy)]
pub struct HitRecord {
    /// Where the surface was struck.
    pub position: Point,
    /// The normal of the surface there, turned against the ray.
    pub normal: Point,
    /// The material of the surface.
    pub material: Material,
    /// The time at which the ray arrived.
    pub t: Scalar,
    /// Whether the ray came from outside.
    pub front_face: bool,
}

/// Whether a ray whose direction has the given inner product with the
/// outward normal comes from outside: the product is negative.
pub open spec fn from_outside(facing: Scalar) -> bool {
    facing.lt(Scalar { bits: 0 })
}

/// The normal turned against a ray whose direction has the given inner
/// product with it: the outward normal for a ray from outside, else its
/// opposite.
pub open spec fn turned(facing: Scalar, outward_normal: Point) -> Point {
    if from_outside(facing) {
        outward_normal
    } else {
        outward_normal.negated()
    }
}

impl HitRecord {
    /// Records from which side the surface was struck, and turns the normal
    /// against the ray: where the inner product of the ray's direction and
    /// the outward normal is negative, the ray came from outside and the
    /// outward normal is kept; else the normal is negated.
    pub fn set_front_face<A: Arithmetic>(&mut self, ray: &Ray, outward_normal: &Point, arith: &A)
        ensures
            exists|facing: Scalar| #[trigger]
                Vec3::is_dot(arith, ray.direction, *outward_normal, facing)
                    && final(self).front_face == from_outside(facing) && final(self).normal
                    == turned(facing, *outward_normal),
            final(self).normal == *outward_normal || final(self).normal
                == outward_normal.negated(),
            final(self).position == old(self).position,
            final(self).material == old(self).material,
            final(self).t == old(self).t,
    {
        let facing = Vec3::dot(ray.direction(), outward_normal, arith);
        self.front_face = facing.is_lt(&Scalar::zero());
        self.normal = if self.front_face {
            *outward_normal
        } else {
            outward_normal.neg()
        };
    }
}

} // verus!
