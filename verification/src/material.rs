//! Surfaces and what they do to a ray that strikes them.

use crate::arithmetic::is_product;
use crate::arithmetic::Arithmetic;
use crate::hit_record::HitRecord;
use crate::ray::Ray;
use crate::scalar::Scalar;
use crate::scalar::ONE_BITS;
use crate::vec3::Color;
use crate::vec3::Point;
use crate::vec3::Vec3;
use vstd::prelude::*;

verus! {

/// A ray that left a surface, and the share of each colour that it keeps.
#[derive(Debug, Clone, Copy)]
pub struct MaterialResult {
    pub attenuation: Color,
    pub scattered: Ray,
}

/// A matt surface, which sends light on in every direction.
#[derive(Debug, Clone, Copy)]
pub struct Lambertian {
    pub albedo: Color,
}

/// A polished surface, which mirrors light, the less sharply the greater its
/// fuzziness.
#[derive(Debug, Clone, Copy)]
pub struct Metal {
    pub albedo: Color,
    pub fuzziness: Scalar,
}

/// The kinds of surface.
#[derive(Debug, Clone, Copy)]
pub enum Material {
    Lambertian(Lambertian),
    Metal(Metal),
}

impl Lambertian {
    /// The direction in which a ray leaves: the proposed one, unless that
    /// is too short to give a direction; then the normal.
    pub open spec fn direction_taken(rec: HitRecord, proposed: Point) -> Point {
        if proposed.vanishes() {
            rec.normal
        } else {
            proposed
        }
    }

    /// Whether `result` is what a matt surface with the given share of
    /// colour may make of a ray: it sends the ray on, from the place that
    /// was struck, along the normal plus a random vector of length one, or
    /// along the normal where the two cancel.
    pub open spec fn scatters<A: Arithmetic>(
        arith: &A,
        albedo: Color,
        rec: HitRecord,
        result: Option<MaterialResult>,
    ) -> bool {
        exists|random: Vec3, proposed: Point| #[trigger]
            Vec3::is_random_unit_vec(arith, random) && #[trigger] Vec3::is_plus(
                arith,
                rec.normal,
                random,
                proposed,
            ) && result == Some(
                MaterialResult {
                    attenuation: albedo,
                    scattered: Ray {
                        origin: rec.position,
                        direction: Lambertian::direction_taken(rec, proposed),
                    },
                },
            )
    }

    pub fn new(albedo: Color) -> (r: Lambertian)
        ensures
            r.albedo == albedo,
    {
        Lambertian { albedo }
    }

    /// Sends the ray on from the place that was struck, in a random
    /// direction about the normal. A matt surface absorbs no ray: what it
    /// does not send on in one colour, it sends on in another.
    pub fn scatter<A: Arithmetic>(&self, r_in: &Ray, rec: &HitRecord, arith: &A) -> (r: Option<
        MaterialResult,
    >)
        ensures
            Lambertian::scatters(arith, self.albedo, *rec, r),
            r matches Some(m) && m.attenuation == self.albedo && m.scattered.origin
                == rec.position,
    {
        let random = Vec3::random_unit_vec(arith);
        let proposed = rec.normal.plus(random, arith);
        assert(Vec3::is_plus(arith, rec.normal, random, proposed));
        let direction = if proposed.near_zero() {
            rec.normal
        } else {
            proposed
        };
        Some(MaterialResult { attenuation: self.albedo, scattered: Ray::new(rec.position, direction) })
    }
}

impl Metal {
    /// Whether the fuzziness lies between zero and one, both included.
    pub open spec fn well_formed(self) -> bool {
        (Scalar { bits: 0 }).le(self.fuzziness) && self.fuzziness.le(Scalar { bits: ONE_BITS })
    }

    /// Whether a ray that leaves with the given inner product of its
    /// direction and the normal points away from the surface.
    pub open spec fn leaves(facing: Scalar) -> bool {
        (Scalar { bits: 0 }).lt(facing)
    }

    /// Whether `direction` may be the direction in which a mirror of the
    /// given fuzziness sends on a ray: the direction of the ray, scaled to
    /// the length one and mirrored at the surface, plus a random point
    /// inside the unit sphere times the fuzziness.
    pub open spec fn blurs<A: Arithmetic>(
        arith: &A,
        fuzziness: Scalar,
        r_in: Ray,
        rec: HitRecord,
        direction: Point,
    ) -> bool {
        exists|unit: Vec3, reflected: Vec3, random: Vec3, blur: Vec3| #[trigger]
            Vec3::is_unit_vector(arith, r_in.direction, unit) && #[trigger] Vec3::is_reflection(
                arith,
                unit,
                rec.normal,
                reflected,
            ) && Vec3::is_random_in_unit_sphere(arith, random)
                && #[trigger] Vec3::is_scalar_times(arith, fuzziness, random, blur) && Vec3::is_plus(
                arith,
                reflected,
                blur,
                direction,
            )
    }

    /// Whether `result` is what a mirror may make of a ray: it sends the
    /// ray on, from the place that was struck, where the blurred direction
    /// points away from the surface, and absorbs it else.
    pub open spec fn scatters<A: Arithmetic>(
        arith: &A,
        mirror: Metal,
        r_in: Ray,
        rec: HitRecord,
        result: Option<MaterialResult>,
    ) -> bool {
        exists|direction: Point, facing: Scalar| #[trigger]
            Metal::blurs(arith, mirror.fuzziness, r_in, rec, direction) && #[trigger] Vec3::is_dot(
                arith,
                direction,
                rec.normal,
                facing,
            ) && result == (if Metal::leaves(facing) {
                Some(
                    MaterialResult {
                        attenuation: mirror.albedo,
                        scattered: Ray { origin: rec.position, direction },
                    },
                )
            } else {
                None
            })
    }

    pub fn new(albedo: Color, fuzziness: Scalar) -> (r: Metal)
        ensures
            r.albedo == albedo,
            r.fuzziness == fuzziness,
    {
        Metal { albedo, fuzziness }
    }

    /// Whether the fuzziness lies between zero and one, both included.
    pub fn is_well_formed(&self) -> (r: bool)
        ensures
            r == self.well_formed(),
    {
        Scalar::zero().is_le(&self.fuzziness) && self.fuzziness.is_le(&Scalar::one())
    }

    /// Mirrors the ray at the place that was struck, or absorbs it. The
    /// mirrored direction is blurred by the fuzziness; with none the mirror
    /// is perfect. The ray leaves only where its direction has a positive
    /// inner product with the normal: a blur that turns it into the surface
    /// absorbs it.
    pub fn scatter<A: Arithmetic>(&self, r_in: &Ray, rec: &HitRecord, arith: &A) -> (r: Option<
        MaterialResult,
    >)
        ensures
            Metal::scatters(arith, *self, *r_in, *rec, r),
            r matches Some(m) ==> m.attenuation == self.albedo && m.scattered.origin
                == rec.position,
    {
        let unit = r_in.direction.unit_vector(arith);
        let reflected = unit.reflect(&rec.normal, arith);
        let random = Vec3::random_in_unit_sphere(arith);
        let blur = Vec3::scalar_times(self.fuzziness, random, arith);
        let direction = reflected.plus(blur, arith);
        let facing = Vec3::dot(&direction, &rec.normal, arith);
        proof {
            assert(Vec3::is_reflection(arith, unit, rec.normal, reflected));
            assert(Vec3::is_scalar_times(arith, self.fuzziness, random, blur));
            assert(Metal::blurs(arith, self.fuzziness, *r_in, *rec, direction));
            assert(Vec3::is_dot(arith, direction, rec.normal, facing));
        }
        if facing.is_gt(&Scalar::zero()) {
            Some(MaterialResult { attenuation: self.albedo, scattered: Ray::new(rec.position, direction) })
        } else {
            None
        }
    }
}

impl Material {
    /// The share of each colour that the surface sends on.
    pub open spec fn albedo_of(self) -> Color {
        match self {
            Material::Lambertian(m) => m.albedo,
            Material::Metal(m) => m.albedo,
        }
    }

    /// Whether `result` is what a surface of this material may make of a
    /// ray that struck it.
    pub open spec fn scatters<A: Arithmetic>(
        arith: &A,
        material: Material,
        r_in: Ray,
        rec: HitRecord,
        result: Option<MaterialResult>,
    ) -> bool {
        match material {
            Material::Lambertian(matt) => Lambertian::scatters(arith, matt.albedo, rec, result),
            Material::Metal(mirror) => Metal::scatters(arith, mirror, r_in, rec, result),
        }
    }

    /// The share of each colour that the surface sends on.
    pub fn albedo(&self) -> (r: Color)
        ensures
            r == self.albedo_of(),
    {
        match self {
            Material::Lambertian(m) => m.albedo,
            Material::Metal(m) => m.albedo,
        }
    }

    /// Sends on or absorbs a ray that struck a surface of this material.
    pub fn scatter<A: Arithmetic>(&self, r_in: &Ray, rec: &HitRecord, arith: &A) -> (r: Option<
        MaterialResult,
    >)
        ensures
            Material::scatters(arith, *self, *r_in, *rec, r),
            self is Lambertian ==> r is Some,
            r matches Some(m) ==> m.attenuation == self.albedo_of() && m.scattered.origin
                == rec.position,
    {
        match self {
            Material::Lambertian(matt) => matt.scatter(r_in, rec, arith),
            Material::Metal(mirror) => mirror.scatter(r_in, rec, arith),
        }
    }
}

} // verus!
