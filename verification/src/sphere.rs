//! Spheres, and where a ray strikes one.
//!
//! A point of the ray at the time `t` lies on the sphere where
//! `|origin + t * direction - center|^2 = radius^2`, a quadratic equation
//! in `t`. With `oc = origin - center`, `a = |direction|^2`,
//! `half_b = oc . direction` and `c = |oc|^2 - radius^2` its discriminant is
//! `half_b^2 - a * c`, and its solutions are
//! `(-half_b - root) / a` and `(-half_b + root) / a`, where `root` is the
//! square root of the discriminant.

use crate::arithmetic::is_difference;
use crate::arithmetic::is_product;
use crate::arithmetic::is_quotient;
use crate::arithmetic::is_square;
use crate::arithmetic::is_square_root;
use crate::arithmetic::Arithmetic;
use crate::hit_record::from_outside;
use crate::hit_record::turned;
use crate::hit_record::HitRecord;
use crate::material::Material;
use crate::ray::Ray;
use crate::scalar::Scalar;
use crate::vec3::Point;
use crate::vec3::Vec3;
use vstd::prelude::*;

verus! {

/// The points at the distance `radius` from `center`, with the material of
/// their surface.
#[derive(Debug, Clone, Copy)]
pub struct Sphere {
    pub center: Point,
    pub radius: Scalar,
    pub material: Material,
}

/// The quadratic equation of one ray and one sphere, solved: its
/// discriminant, and the two times at which the ray's line meets the sphere,
/// the one with the root subtracted first.
#[derive(Debug, Clone, Copy)]
pub struct Roots {
    pub discriminant: Scalar,
    pub near: Scalar,
    pub far: Scalar,
}

impl Roots {
    /// Whether the line misses the sphere: the discriminant is negative.
    pub open spec fn misses(self) -> bool {
        self.discriminant.lt(Scalar { bits: 0 })
    }

    /// Whether the two times stand in their order: the far one is not
    /// before the near one.
    pub open spec fn ordered(self) -> bool {
        !self.far.lt(self.near)
    }

    /// The time of the hit within the open interval from `t_min` to `t_max`:
    /// the near time where it lies in the interval, else the far time where
    /// that one does; none where the line misses the sphere.
    pub open spec fn chosen(self, t_min: Scalar, t_max: Scalar) -> Option<Scalar> {
        if self.misses() {
            None
        } else if self.near.strictly_between(t_min, t_max) {
            Some(self.near)
        } else if self.far.strictly_between(t_min, t_max) {
            Some(self.far)
        } else {
            None
        }
    }

    pub fn new(discriminant: Scalar, near: Scalar, far: Scalar) -> (r: Roots)
        ensures
            r == (Roots { discriminant, near, far }),
    {
        Roots { discriminant, near, far }
    }

    /// Whether the two times stand in their order.
    pub fn is_ordered(&self) -> (r: bool)
        ensures
            r == self.ordered(),
    {
        !self.far.is_lt(&self.near)
    }

    /// The time at which the ray strikes the sphere within the open interval
    /// from `t_min` to `t_max`, if it does. The bounds themselves are no
    /// hits, so that a ray which starts on a surface does not strike it
    /// again at once.
    pub fn hit(&self, t_min: &Scalar, t_max: &Scalar) -> (r: Option<Scalar>)
        ensures
            r == self.chosen(*t_min, *t_max),
            self.misses() ==> r is None,
            r matches Some(t) ==> t.strictly_between(*t_min, *t_max) && (t == self.near || t
                == self.far),
    {
        if self.discriminant.is_lt(&Scalar::zero()) {
            None
        } else if self.near.is_strictly_between(t_min, t_max) {
            Some(self.near)
        } else if self.far.is_strictly_between(t_min, t_max) {
            Some(self.far)
        } else {
            None
        }
    }
}

impl Sphere {
    /// Whether `c` may be the constant of the equation: `|oc|^2 - radius^2`.
    pub open spec fn is_constant<A: Arithmetic>(
        arith: &A,
        oc: Vec3,
        radius: Scalar,
        c: Scalar,
    ) -> bool {
        exists|distance: Scalar, reach: Scalar| #[trigger]
            Vec3::is_len_squared(arith, oc, distance) && #[trigger] is_square(arith, radius, reach)
                && is_difference(arith, distance, reach, c)
    }

    /// Whether `d` may be the discriminant of the equation with the given
    /// coefficients: `half_b^2 - a * c`.
    pub open spec fn is_discriminant<A: Arithmetic>(
        arith: &A,
        half_b: Scalar,
        a: Scalar,
        c: Scalar,
        d: Scalar,
    ) -> bool {
        exists|square: Scalar, rest: Scalar| #[trigger]
            is_square(arith, half_b, square) && #[trigger] is_product(arith, a, c, rest)
                && is_difference(arith, square, rest, d)
    }

    /// Whether `t` may be a solution of the equation: `(-half_b - root) / a`,
    /// where `root` is the square root of the discriminant with either sign.
    pub open spec fn is_time<A: Arithmetic>(
        arith: &A,
        half_b: Scalar,
        root: Scalar,
        a: Scalar,
        t: Scalar,
    ) -> bool {
        exists|above: Scalar| #[trigger]
            is_difference(arith, half_b.negated(), root, above) && is_quotient(arith, above, a, t)
    }

    /// Whether `roots` may be what solving the equation of the ray and the
    /// sphere gives.
    pub open spec fn is_solution<A: Arithmetic>(
        arith: &A,
        sphere: Sphere,
        ray: Ray,
        roots: Roots,
    ) -> bool {
        exists|oc: Vec3, a: Scalar, half_b: Scalar, c: Scalar, root: Scalar|
            #![trigger Vec3::is_dot(arith, oc, ray.direction, half_b), Sphere::is_discriminant(arith, half_b, a, c, roots.discriminant), is_square_root(arith, roots.discriminant, root)]
            Vec3::is_minus(arith, ray.origin, sphere.center, oc) && Vec3::is_len_squared(
                arith,
                ray.direction,
                a,
            ) && Vec3::is_dot(arith, oc, ray.direction, half_b) && Sphere::is_constant(
                arith,
                oc,
                sphere.radius,
                c,
            ) && Sphere::is_discriminant(arith, half_b, a, c, roots.discriminant) && is_square_root(
                arith,
                roots.discriminant,
                root,
            ) && Sphere::is_time(arith, half_b, root, a, roots.near) && Sphere::is_time(
                arith,
                half_b,
                root.negated(),
                a,
                roots.far,
            )
    }

    /// Whether `normal` may be the sphere's normal at a point of its
    /// surface: the point less the centre, over the radius. It points
    /// outward and has the length one.
    pub open spec fn is_outward_normal<A: Arithmetic>(
        arith: &A,
        sphere: Sphere,
        position: Point,
        normal: Point,
    ) -> bool {
        exists|offset: Vec3| #[trigger]
            Vec3::is_minus(arith, position, sphere.center, offset) && Vec3::is_over_scalar(
                arith,
                offset,
                sphere.radius,
                normal,
            )
    }

    /// Whether `rec` may be what is recorded of the ray's hit of the sphere
    /// at the time `t`: the time, the place of the ray at that time, the
    /// sphere's material, whether the ray came from outside, and the normal
    /// turned against the ray.
    pub open spec fn is_record<A: Arithmetic>(
        arith: &A,
        sphere: Sphere,
        ray: Ray,
        t: Scalar,
        rec: HitRecord,
    ) -> bool {
        exists|outward: Point, facing: Scalar|
            #![trigger Sphere::is_outward_normal(arith, sphere, rec.position, outward), Vec3::is_dot(arith, ray.direction, outward, facing)]
            Ray::is_at(arith, ray, t, rec.position) && Sphere::is_outward_normal(
                arith,
                sphere,
                rec.position,
                outward,
            ) && Vec3::is_dot(arith, ray.direction, outward, facing) && rec.front_face
                == from_outside(facing) && rec.normal == turned(facing, outward) && rec.t == t
                && rec.material == sphere.material
    }

    /// Whether `result` is what a ray may find of a sphere within the open
    /// interval from `t_min` to `t_max`: nothing where no solution of their
    /// equation is a hit, else the record of the hit at the chosen time.
    pub open spec fn is_hit<A: Arithmetic>(
        arith: &A,
        sphere: Sphere,
        ray: Ray,
        t_min: Scalar,
        t_max: Scalar,
        result: Option<HitRecord>,
    ) -> bool {
        exists|roots: Roots| #[trigger]
            Sphere::is_solution(arith, sphere, ray, roots) && match roots.chosen(t_min, t_max) {
                None => result is None,
                Some(t) => result matches Some(rec) && Sphere::is_record(
                    arith,
                    sphere,
                    ray,
                    t,
                    rec,
                ),
            }
    }

    pub fn new(center: Point, radius: Scalar, material: Material) -> (r: Sphere)
        ensures
            r == (Sphere { center, radius, material }),
    {
        Sphere { center, radius, material }
    }

    /// One solution of the equation: `(-half_b - root) / a`.
    fn time<A: Arithmetic>(half_b: Scalar, root: Scalar, a: Scalar, arith: &A) -> (t: Scalar)
        ensures
            Sphere::is_time(arith, half_b, root, a, t),
    {
        let above = arith.difference(half_b.neg(), root);
        let t = arith.quotient(above, a);
        assert(is_difference(arith, half_b.negated(), root, above));
        t
    }

    /// Solves the equation of the ray and this sphere.
    pub fn solve<A: Arithmetic>(&self, r: &Ray, arith: &A) -> (roots: Roots)
        ensures
            Sphere::is_solution(arith, *self, *r, roots),
    {
        let oc = r.origin.minus(self.center, arith);
        let a = r.direction.len_squared(arith);
        let half_b = Vec3::dot(&oc, &r.direction, arith);
        let distance = oc.len_squared(arith);
        let reach = arith.square(self.radius);
        let c = arith.difference(distance, reach);
        let square = arith.square(half_b);
        let rest = arith.product(a, c);
        let discriminant = arith.difference(square, rest);
        let root = arith.square_root(discriminant);
        let near = Sphere::time(half_b, root, a, arith);
        let far = Sphere::time(half_b, root.neg(), a, arith);
        let roots = Roots { discriminant, near, far };
        proof {
            assert(Vec3::is_len_squared(arith, oc, distance) && is_square(
                arith,
                self.radius,
                reach,
            ));
            assert(Sphere::is_constant(arith, oc, self.radius, c));
            assert(is_square(arith, half_b, square) && is_product(arith, a, c, rest));
            assert(Sphere::is_discriminant(arith, half_b, a, c, roots.discriminant));
            assert(Vec3::is_dot(arith, oc, r.direction, half_b));
            assert(is_square_root(arith, roots.discriminant, root));
        }
        roots
    }

    /// Records the hit of this sphere by the ray at the time `t`.
    pub fn record<A: Arithmetic>(&self, r: &Ray, t: Scalar, arith: &A) -> (rec: HitRecord)
        ensures
            Sphere::is_record(arith, *self, *r, t, rec),
            rec.t == t,
            rec.material == self.material,
    {
        let position = r.at(t, arith);
        let offset = position.minus(self.center, arith);
        let outward_normal = offset.over_scalar(self.radius, arith);
        let mut rec = HitRecord {
            position,
            normal: Vec3::default(),
            material: self.material,
            t,
            front_face: false,
        };
        rec.set_front_face(r, &outward_normal, arith);
        proof {
            assert(Vec3::is_minus(arith, position, self.center, offset));
            assert(Sphere::is_outward_normal(arith, *self, rec.position, outward_normal));
            let facing = choose|facing: Scalar| #[trigger]
                Vec3::is_dot(arith, r.direction, outward_normal, facing) && rec.front_face
                    == from_outside(facing) && rec.normal == turned(facing, outward_normal);
            assert(Vec3::is_dot(arith, r.direction, outward_normal, facing));
        }
        rec
    }

    /// Where the ray strikes this sphere within the open interval from
    /// `t_min` to `t_max`, if it does: the nearer of the two places where
    /// its line meets the sphere, or the farther one where the nearer is not
    /// in the interval.
    pub fn hit<A: Arithmetic>(&self, r: &Ray, t_min: Scalar, t_max: Scalar, arith: &A) -> (rec:
        Option<HitRecord>)
        ensures
            Sphere::is_hit(arith, *self, *r, t_min, t_max, rec),
            rec matches Some(h) ==> h.t.strictly_between(t_min, t_max) && h.material
                == self.material,
    {
        let roots = self.solve(r, arith);
        match roots.hit(&t_min, &t_max) {
            Some(t) => Some(self.record(r, t, arith)),
            None => None,
        }
    }
}

/// A ray whose equation with a sphere has a negative discriminant, however
/// it is solved, finds nothing of that sphere, whatever the interval.
pub proof fn a_negative_discriminant_is_a_miss<A: Arithmetic>(
    arith: &A,
    sphere: Sphere,
    ray: Ray,
    t_min: Scalar,
    t_max: Scalar,
    result: Option<HitRecord>,
)
    requires
        forall|roots: Roots| #[trigger]
            Sphere::is_solution(arith, sphere, ray, roots) ==> roots.misses(),
        Sphere::is_hit(arith, sphere, ray, t_min, t_max, result),
    ensures
        result is None,
{
}

} // verus!
