//! The colour that a ray brings back.
//!
//! A ray that strikes a surface may go on as another ray, and that one as a
//! third. How long this lasts is decided here: every ray that goes on has
//! one collision fewer to spend, and a ray with none left is black.

use crate::arithmetic::is_difference;
use crate::arithmetic::is_number;
use crate::arithmetic::is_product;
use crate::arithmetic::is_quotient;
use crate::arithmetic::is_random;
use crate::arithmetic::is_sum;
use crate::arithmetic::Arithmetic;
use crate::camera::Camera;
use crate::config::Config;
use crate::hit_record::HitRecord;
use crate::hittable_list::nearest_of;
use crate::hittable_list::HittableList;
use crate::material::Material;
use crate::material::MaterialResult;
use crate::ray::Ray;
use crate::scalar::Scalar;
use crate::scalar::EPSILON_BITS;
use crate::scalar::HALF_BITS;
use crate::scalar::INFINITY_BITS;
use crate::scalar::ONE_BITS;
use crate::sphere::Roots;
use crate::sphere::Sphere;
use crate::vec3::Color;
use crate::vec3::Vec3;
use vstd::prelude::*;

verus! {

/// The pattern of the number seven tenths, the green of the sky overhead.
pub const SKY_GREEN_BITS: u64 = 0x3FE6_6666_6666_6666;

/// What became of a ray in the scene.
#[derive(Debug, Clone, Copy)]
pub enum Encounter {
    /// It struck nothing.
    Escaped,
    /// It struck a surface that sent nothing on.
    Absorbed,
    /// It struck a surface that sent a ray on.
    Scattered(MaterialResult),
}

/// What the colour of a ray is.
#[derive(Debug, Clone, Copy)]
pub enum Shade {
    /// No light.
    Black,
    /// The colour of the sky in the ray's direction.
    Sky,
    /// The colour of the ray that went on, found with the collisions that
    /// are left, each component weakened by the attenuation.
    Attenuated { attenuation: Color, scattered: Ray, allowed_collisions: usize },
}

/// The colour of a ray that may still collide `allowed_collisions` times and
/// met the given fate.
pub open spec fn shade_of(allowed_collisions: usize, encounter: Encounter) -> Shade {
    if allowed_collisions == 0 {
        Shade::Black
    } else {
        match encounter {
            Encounter::Escaped => Shade::Sky,
            Encounter::Absorbed => Shade::Black,
            Encounter::Scattered(m) => Shade::Attenuated {
                attenuation: m.attenuation,
                scattered: m.scattered,
                allowed_collisions: (allowed_collisions - 1) as usize,
            },
        }
    }
}

/// How many rays go on, one from the other, where the first may collide
/// `allowed_collisions` times and the ray after `from` others meets the fate
/// `fates(from)`.
pub open spec fn rays_sent_on(
    allowed_collisions: usize,
    fates: spec_fn(nat) -> Encounter,
    from: nat,
) -> nat
    decreases allowed_collisions,
{
    match shade_of(allowed_collisions, fates(from)) {
        Shade::Attenuated { allowed_collisions: rest, .. } => 1 + rays_sent_on(
            rest,
            fates,
            from + 1,
        ),
        _ => 0,
    }
}

/// Whether the scene is asked at all: a ray without collisions left is black
/// whatever is in its way.
pub fn is_spent(allowed_collisions: usize) -> (r: bool)
    ensures
        r == (allowed_collisions == 0),
        r ==> forall|e: Encounter| shade_of(allowed_collisions, e) == Shade::Black,
{
    allowed_collisions == 0
}

/// The open interval of times in which a ray is tested against the scene:
/// from the machine epsilon, which keeps a ray from striking at once the
/// surface that it has just left, to infinity.
pub fn search_interval() -> (r: (Scalar, Scalar))
    ensures
        r.0.bits == EPSILON_BITS,
        r.1.bits == INFINITY_BITS,
{
    (Scalar::epsilon(), Scalar::infinity())
}

/// What became of a ray, from what the scene and the surface answered.
/// `struck` says whether the ray struck a surface, `sent_on` what that
/// surface made of it.
pub fn encounter(struck: bool, sent_on: Option<MaterialResult>) -> (r: Encounter)
    ensures
        !struck ==> r == Encounter::Escaped,
        struck && sent_on is None ==> r == Encounter::Absorbed,
        struck && sent_on is Some ==> r == Encounter::Scattered(sent_on->0),
{
    if !struck {
        Encounter::Escaped
    } else {
        match sent_on {
            Some(m) => Encounter::Scattered(m),
            None => Encounter::Absorbed,
        }
    }
}

/// What the colour of a ray that may still collide `allowed_collisions`
/// times is made of: black where none is left; the sky where it struck
/// nothing; black where it was absorbed; else the attenuated colour of the
/// ray that went on, which has one collision fewer.
pub fn shade(allowed_collisions: usize, encounter: Encounter) -> (r: Shade)
    ensures
        r == shade_of(allowed_collisions, encounter),
{
    if allowed_collisions == 0 {
        Shade::Black
    } else {
        match encounter {
            Encounter::Escaped => Shade::Sky,
            Encounter::Absorbed => Shade::Black,
            Encounter::Scattered(m) => Shade::Attenuated {
                attenuation: m.attenuation,
                scattered: m.scattered,
                allowed_collisions: allowed_collisions - 1,
            },
        }
    }
}

/// No light.
pub open spec fn black() -> Color {
    Vec3 { x: Scalar { bits: 0 }, y: Scalar { bits: 0 }, z: Scalar { bits: 0 } }
}

/// The colour of the horizon: white.
pub open spec fn horizon() -> Color {
    Vec3 { x: Scalar { bits: ONE_BITS }, y: Scalar { bits: ONE_BITS }, z: Scalar { bits: ONE_BITS } }
}

/// The colour of the sky overhead: a light blue, `(0.5, 0.7, 1.0)`.
pub open spec fn overhead() -> Color {
    Vec3 {
        x: Scalar { bits: HALF_BITS },
        y: Scalar { bits: SKY_GREEN_BITS },
        z: Scalar { bits: ONE_BITS },
    }
}

/// Whether `t` may be the height of a ray's direction on the scale from
/// nought to one: with `y` the second component of the direction scaled to
/// the length one, it is `0.5 * (y + 1)`.
pub open spec fn is_height<A: Arithmetic>(arith: &A, ray: Ray, t: Scalar) -> bool {
    exists|unit: Vec3, lifted: Scalar| #[trigger]
        Vec3::is_unit_vector(arith, ray.direction, unit) && #[trigger] is_sum(
            arith,
            unit.y,
            Scalar { bits: ONE_BITS },
            lifted,
        ) && is_product(arith, Scalar { bits: HALF_BITS }, lifted, t)
}

/// Whether `r` may be the colour of the sky in the direction of a ray: with
/// `t` the height of the direction, `(1 - t)` times the colour of the
/// horizon plus `t` times the colour overhead.
pub open spec fn is_sky<A: Arithmetic>(arith: &A, ray: Ray, r: Color) -> bool {
    exists|t: Scalar, rest: Scalar, low: Color, high: Color|
        #![trigger is_difference(arith, Scalar { bits: ONE_BITS }, t, rest), Vec3::is_plus(arith, low, high, r)]
        is_height(arith, ray, t) && is_difference(arith, Scalar { bits: ONE_BITS }, t, rest)
            && Vec3::is_scalar_times(arith, rest, horizon(), low) && Vec3::is_scalar_times(
            arith,
            t,
            overhead(),
            high,
        ) && Vec3::is_plus(arith, low, high, r)
}

/// The colour of the sky in the direction of a ray: white at the horizon,
/// and the bluer the higher the ray points.
pub fn sky<A: Arithmetic>(ray: &Ray, arith: &A) -> (r: Color)
    ensures
        is_sky(arith, *ray, r),
{
    let unit = ray.direction.unit_vector(arith);
    let lifted = arith.sum(unit.y, Scalar::one());
    let t = arith.product(Scalar::half(), lifted);
    let rest = arith.difference(Scalar::one(), t);
    let start_value = Color::white();
    let end_value = Color::new(Scalar::half(), Scalar::from_bits(SKY_GREEN_BITS), Scalar::one());
    let low = Vec3::scalar_times(rest, start_value, arith);
    let high = Vec3::scalar_times(t, end_value, arith);
    let r = low.plus(high, arith);
    proof {
        assert(start_value == horizon());
        assert(end_value == overhead());
        assert(is_sum(arith, unit.y, Scalar { bits: ONE_BITS }, lifted));
        assert(is_height(arith, *ray, t));
        assert(is_difference(arith, Scalar { bits: ONE_BITS }, t, rest));
        assert(Vec3::is_plus(arith, low, high, r));
    }
    r
}

/// Whether `result` is a colour that a ray may bring back from a scene when
/// it may still collide `allowed_collisions` times. A ray without collisions
/// left brings back black. Else the scene is asked what the ray strikes
/// after the machine epsilon: where that is nothing, the ray brings back the
/// sky; where the surface absorbs it, black; and where the surface sends a
/// ray on, what that ray brings back with one collision fewer, each channel
/// times the attenuation.
pub open spec fn is_color<A: Arithmetic>(
    arith: &A,
    objects: Seq<Sphere>,
    ray: Ray,
    allowed_collisions: usize,
    result: Color,
) -> bool
    decreases allowed_collisions,
{
    if allowed_collisions == 0 {
        result == black()
    } else {
        exists|hit: Option<HitRecord>| #[trigger]
            HittableList::is_hit(
                arith,
                objects,
                ray,
                Scalar { bits: EPSILON_BITS },
                Scalar { bits: INFINITY_BITS },
                hit,
            ) && match hit {
                None => is_sky(arith, ray, result),
                Some(rec) => exists|sent_on: Option<MaterialResult>| #[trigger]
                    Material::scatters(arith, rec.material, ray, rec, sent_on) && match sent_on {
                        None => result == black(),
                        Some(m) => exists|inner: Color|
                            is_color(
                                arith,
                                objects,
                                m.scattered,
                                (allowed_collisions - 1) as usize,
                                inner,
                            ) && #[trigger] Vec3::is_times(arith, m.attenuation, inner, result),
                    },
            }
    }
}

impl Ray {
    /// The colour that the ray brings back from the scene, where it may
    /// still collide `allowed_collisions` times. The scene is asked for what
    /// the ray strikes after the machine epsilon, so that a ray does not
    /// strike at once the surface that it has just left. Every ray that is
    /// sent on has one collision fewer, so that the colour is found however
    /// the surfaces of the scene mirror each other.
    pub fn color<A: Arithmetic>(&self, world: &HittableList, allowed_collisions: usize, arith: &A) -> (result:
        Color)
        ensures
            is_color(arith, world@, *self, allowed_collisions, result),
            allowed_collisions == 0 ==> result == black(),
        decreases allowed_collisions,
    {
        if is_spent(allowed_collisions) {
            return Color::black();
        }
        let (t_min, t_max) = search_interval();
        let hit = world.hit(self, t_min, t_max, arith);
        let sent_on = match hit {
            Some(rec) => rec.material.scatter(self, &rec, arith),
            None => None,
        };
        let result = match shade(allowed_collisions, encounter(hit.is_some(), sent_on)) {
            Shade::Black => Color::black(),
            Shade::Sky => sky(self, arith),
            Shade::Attenuated { attenuation, scattered, allowed_collisions: rest } => {
                let inner = scattered.color(world, rest, arith);
                let weakened = attenuation.times(inner, arith);
                proof {
                    assert(is_color(arith, world@, scattered, rest, inner));
                    assert(Vec3::is_times(arith, attenuation, inner, weakened));
                }
                weakened
            },
        };
        proof {
            assert(t_min == Scalar { bits: EPSILON_BITS });
            assert(t_max == Scalar { bits: INFINITY_BITS });
            assert(HittableList::is_hit(arith, world@, *self, t_min, t_max, hit));
            if hit is Some {
                assert(Material::scatters(arith, hit->0.material, *self, hit->0, sent_on));
            }
        }
        result
    }
}

/// Whether `r` may be where a sample of a pixel falls on one axis of the
/// picture, on the scale from nought to one: the pixel's place on that axis
/// plus a random share of a pixel, over the number of pixels on that axis
/// less one.
pub open spec fn is_coordinate<A: Arithmetic>(
    arith: &A,
    pixel: u32,
    extent: usize,
    r: Scalar,
) -> bool {
    exists|place: Scalar, shift: Scalar, moved: Scalar, size: Scalar, last: Scalar|
        #![trigger is_sum(arith, place, shift, moved), is_difference(arith, size, Scalar { bits: ONE_BITS }, last)]
        is_number(arith, pixel as usize, place) && is_random(arith, shift) && is_sum(
            arith,
            place,
            shift,
            moved,
        ) && is_number(arith, extent, size) && is_difference(
            arith,
            size,
            Scalar { bits: ONE_BITS },
            last,
        ) && is_quotient(arith, moved, last, r)
}

/// Where a sample of a pixel falls on one axis of the picture.
pub fn coordinate<A: Arithmetic>(pixel: u32, extent: usize, arith: &A) -> (r: Scalar)
    ensures
        is_coordinate(arith, pixel, extent, r),
{
    let place = arith.number(pixel as usize);
    let shift = arith.random();
    let moved = arith.sum(place, shift);
    let size = arith.number(extent);
    let last = arith.difference(size, Scalar::one());
    let r = arith.quotient(moved, last);
    proof {
        assert(is_sum(arith, place, shift, moved));
        assert(is_difference(arith, size, Scalar { bits: ONE_BITS }, last));
    }
    r
}

/// Whether `result` may be the colour of one sample of the pixel in the
/// column `x` and the camera's row `y`: what the ray brings back that the
/// camera sends through a random place of the pixel.
pub open spec fn is_sample<A: Arithmetic>(
    arith: &A,
    x: u32,
    y: u32,
    config: Config,
    camera: Camera,
    objects: Seq<Sphere>,
    result: Color,
) -> bool {
    exists|u: Scalar, v: Scalar, direction: Vec3|
        #![trigger is_coordinate(arith, x, config.img_width, u), Camera::is_direction(arith, camera, u, v, direction)]
        is_coordinate(arith, x, config.img_width, u) && is_coordinate(
            arith,
            y,
            config.img_height,
            v,
        ) && Camera::is_direction(arith, camera, u, v, direction) && is_color(
            arith,
            objects,
            Ray { origin: camera.origin, direction },
            config.max_ray_depth,
            result,
        )
}

/// The colour of one sample of the pixel in the column `x` and the camera's
/// row `y`, which counts from the bottom of the picture.
pub fn sample<A: Arithmetic>(
    x: u32,
    y: u32,
    config: &Config,
    camera: &Camera,
    world: &HittableList,
    arith: &A,
) -> (result: Color)
    ensures
        is_sample(arith, x, y, *config, *camera, world@, result),
{
    let u = coordinate(x, config.img_width, arith);
    let v = coordinate(y, config.img_height, arith);
    let ray = camera.get_ray(u, v, arith);
    let result = ray.color(world, config.max_ray_depth, arith);
    proof {
        assert(is_coordinate(arith, x, config.img_width, u));
        assert(Camera::is_direction(arith, *camera, u, v, ray.direction));
        assert(ray == Ray { origin: camera.origin, direction: ray.direction });
    }
    result
}

/// Finding a colour comes to an end whatever the scene holds: a ray never
/// sends on more rays than it has collisions to spend.
pub proof fn color_comes_to_an_end(
    allowed_collisions: usize,
    fates: spec_fn(nat) -> Encounter,
    from: nat,
)
    ensures
        rays_sent_on(allowed_collisions, fates, from) <= allowed_collisions,
        allowed_collisions == 0 ==> rays_sent_on(allowed_collisions, fates, from) == 0,
    decreases allowed_collisions,
{
    if allowed_collisions > 0 {
        color_comes_to_an_end((allowed_collisions - 1) as usize, fates, from + 1);
    }
}

/// In a scene without objects every ray with a collision left brings back
/// the colour of the sky in its direction, and nothing else.
pub proof fn nothing_in_the_way_shows_the_sky<A: Arithmetic>(
    arith: &A,
    ray: Ray,
    allowed_collisions: usize,
    result: Color,
)
    requires
        allowed_collisions > 0,
        is_color(arith, Seq::<Sphere>::empty(), ray, allowed_collisions, result),
    ensures
        is_sky(arith, ray, result),
{
    let t_min = Scalar { bits: EPSILON_BITS };
    let t_max = Scalar { bits: INFINITY_BITS };
    assert forall|hit: Option<HitRecord>| #[trigger]
        HittableList::is_hit(arith, Seq::<Sphere>::empty(), ray, t_min, t_max, hit) implies hit
        is None by {
        let roots = choose|roots: Seq<Roots>| #[trigger]
            HittableList::is_solved(arith, Seq::<Sphere>::empty(), ray, roots)
                && HittableList::is_recorded(
                arith,
                Seq::<Sphere>::empty(),
                ray,
                nearest_of(roots, t_min, t_max),
                hit,
            );
        assert(roots.len() == 0);
    }
}

} // verus!
