//! What a ray can strike.

use crate::arithmetic::Arithmetic;
use crate::hit_record::HitRecord;
use crate::hittable_list::HittableList;
use crate::ray::Ray;
use crate::scalar::Scalar;
use crate::sphere::Sphere;
use vstd::prelude::*;

verus! {

/// An object that a ray can hit: a sphere, or a scene of spheres.
pub trait Hittable {
    /// Where the ray strikes the object within the open interval from
    /// `t_min` to `t_max`, if it does. The bounds themselves are no hits.
    fn hit<A: Arithmetic>(&self, r: &Ray, t_min: Scalar, t_max: Scalar, arith: &A) -> (rec: Option<
        HitRecord,
    >)
        ensures
            rec matches Some(h) ==> h.t.strictly_between(t_min, t_max),
    ;
}

impl Hittable for Sphere {
    fn hit<A: Arithmetic>(&self, r: &Ray, t_min: Scalar, t_max: Scalar, arith: &A) -> (rec: Option<
        HitRecord,
    >)
        ensures
            Sphere::is_hit(arith, *self, *r, t_min, t_max, rec),
    {
        Sphere::hit(self, r, t_min, t_max, arith)
    }
}

impl Hittable for HittableList {
    fn hit<A: Arithmetic>(&self, r: &Ray, t_min: Scalar, t_max: Scalar, arith: &A) -> (rec: Option<
        HitRecord,
    >)
        ensures
            HittableList::is_hit(arith, self@, *r, t_min, t_max, rec),
    {
        HittableList::hit(self, r, t_min, t_max, arith)
    }
}

} // verus!
