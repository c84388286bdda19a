use ray_tracing::arithmetic::Arithmetic;
use ray_tracing::hit_record::HitRecord;
use ray_tracing::material::Lambertian;
use ray_tracing::material::Material;
use ray_tracing::material::MaterialResult;
use ray_tracing::material::Metal;
use ray_tracing::ray::Ray;
use ray_tracing::ray::RayError;
use ray_tracing::render::Encounter;
use ray_tracing::render::Shade;
use ray_tracing::render::encounter;
use ray_tracing::render::is_spent;
use ray_tracing::render::shade;
use ray_tracing::scalar::Scalar;
use ray_tracing::vec3::Color;
use ray_tracing::vec3::Accepted;
use ray_tracing::vec3::Vec3;
use std::cell::RefCell;

fn s(x: f64) -> Scalar {
    Scalar::from_bits(x.to_bits())
}

fn f(x: Scalar) -> f64 {
    f64::from_bits(x.to_bits())
}

fn v(x: f64, y: f64, z: f64) -> Vec3 {
    Vec3::new(s(x), s(y), s(z))
}

fn a(p: &Vec3) -> [f64; 3] {
    [f(p.x()), f(p.y()), f(p.z())]
}

/// Binary64 arithmetic as the processor does it. Its random numbers are
/// taken in turn from a list, and are one half when the list is used up.
struct Machine {
    draws: RefCell<Vec<f64>>,
}

impl Machine {
    fn new() -> Machine {
        Machine { draws: RefCell::new(Vec::new()) }
    }

    fn drawing(draws: &[f64]) -> Machine {
        let mut list = draws.to_vec();
        list.reverse();
        Machine { draws: RefCell::new(list) }
    }
}

impl Arithmetic for Machine {
    fn sum(&self, a: Scalar, b: Scalar) -> Scalar {
        s(f(a) + f(b))
    }

    fn difference(&self, a: Scalar, b: Scalar) -> Scalar {
        s(f(a) - f(b))
    }

    fn product(&self, a: Scalar, b: Scalar) -> Scalar {
        s(f(a) * f(b))
    }

    fn quotient(&self, a: Scalar, b: Scalar) -> Scalar {
        s(f(a) / f(b))
    }

    fn square(&self, a: Scalar) -> Scalar {
        s(f(a).powi(2))
    }

    fn square_root(&self, a: Scalar) -> Scalar {
        s(f(a).sqrt())
    }

    fn cosine(&self, a: Scalar) -> Scalar {
        s(f(a).cos())
    }

    fn sine(&self, a: Scalar) -> Scalar {
        s(f(a).sin())
    }

    fn number(&self, n: usize) -> Scalar {
        s(n as f64)
    }

    fn random(&self) -> Scalar {
        s(self.draws.borrow_mut().pop().unwrap_or(0.5))
    }

    fn random_in_unit_sphere(&self) -> Accepted<Self> {
        loop {
            if let Some(p) = Vec3::accepted_attempt(self) {
                return p;
            }
        }
    }
}

fn record(material: Material) -> HitRecord {
    HitRecord {
        position: v(1.0, 2.0, 3.0),
        normal: v(0.0, 1.0, 0.0),
        material,
        t: s(4.0),
        front_face: true,
    }
}

fn sample_result() -> MaterialResult {
    MaterialResult {
        attenuation: v(0.8, 0.6, 0.2),
        scattered: Ray::new(v(1.0, 2.0, 3.0), v(0.0, 1.0, 0.0)),
    }
}

#[test]
fn a_ray_keeps_origin_and_direction() {
    let ray = Ray::new(v(1.0, 2.0, 3.0), v(0.0, 0.0, -1.0));
    assert_eq!(a(ray.origin()), [1.0, 2.0, 3.0]);
    assert_eq!(a(ray.direction()), [0.0, 0.0, -1.0]);
    let ray = Ray::default();
    assert_eq!(a(ray.origin()), [0.0, 0.0, 0.0]);
    assert_eq!(a(ray.direction()), [0.0, 0.0, 0.0]);
}

#[test]
fn a_ray_moves_along_its_direction() {
    let m = Machine::new();
    let ray = Ray::new(v(1.0, 2.0, 3.0), v(0.0, 0.5, -1.0));
    assert_eq!(ray.point_at(s(0.0), &m).map(|p| a(&p)), Ok([1.0, 2.0, 3.0]));
    assert_eq!(ray.point_at(s(2.0), &m).map(|p| a(&p)), Ok([1.0, 3.0, 1.0]));
    assert_eq!(ray.point_at(s(0.5), &m).map(|p| a(&p)), Ok([1.0, 2.25, 2.5]));
    assert_eq!(a(&ray.at(s(2.0), &m)), [1.0, 3.0, 1.0]);
    assert_eq!(a(&ray.at(s(-2.0), &m)), [1.0, 1.0, 5.0]);
}

#[test]
fn every_time_has_its_place() {
    let m = Machine::new();
    let ray = Ray::new(v(1.0, 2.0, 3.0), v(0.0, 0.0, -1.0));
    assert_eq!(ray.point_at(s(-1.0), &m).map(|p| a(&p)), Ok([1.0, 2.0, 4.0]));
    assert_eq!(ray.point_at(s(-0.0), &m).map(|p| a(&p)), Ok([1.0, 2.0, 3.0]));
    assert_eq!(ray.point_at(s(-2.5), &m).map(|p| a(&p)), Ok([1.0, 2.0, 5.5]));
    assert_eq!(ray.point_at(s(1.0e3), &m).map(|p| a(&p)), Ok([1.0, 2.0, -997.0]));
    for t in [0.0, -0.0, 1.0, -1.0, f64::MIN_POSITIVE, -f64::MIN_POSITIVE, f64::NAN, f64::INFINITY] {
        let place = ray.point_at(s(t), &m).unwrap();
        assert_eq!(a(&place).map(f64::to_bits), a(&ray.at(s(t), &m)).map(f64::to_bits), "{}", t);
    }
    assert!(ray.point_at(s(f64::NAN), &m).unwrap().z().is_nan());
    assert_ne!(Err::<(), RayError>(RayError::InvalidDirection), Ok(()));
}

#[test]
fn the_front_face_keeps_the_outward_normal() {
    let m = Machine::new();
    let mut rec = record(Material::Lambertian(Lambertian::new(Color::white())));
    rec.front_face = false;
    let ray = Ray::new(v(0.0, 0.0, 5.0), v(0.0, 0.5, -1.0));
    rec.set_front_face(&ray, &v(0.0, 0.0, 1.0), &m);
    assert!(rec.front_face);
    assert_eq!(a(&rec.normal), [0.0, 0.0, 1.0]);
    assert_eq!(a(&rec.position), [1.0, 2.0, 3.0]);
    assert_eq!(f(rec.t), 4.0);
}

#[test]
fn the_back_face_turns_the_normal() {
    let m = Machine::new();
    let mut rec = record(Material::Lambertian(Lambertian::new(Color::white())));
    let ray = Ray::new(v(0.0, 0.0, 0.0), v(0.0, 0.5, 1.0));
    rec.set_front_face(&ray, &v(0.0, 0.0, 1.0), &m);
    assert!(!rec.front_face);
    assert_eq!(a(&rec.normal), [-0.0, -0.0, -1.0]);
    let along = Ray::new(v(0.0, 0.0, 0.0), v(1.0, 0.0, 0.0));
    rec.set_front_face(&along, &v(0.0, 1.0, 0.0), &m);
    assert!(!rec.front_face);
    assert_eq!(a(&rec.normal), [-0.0, -1.0, -0.0]);
    let lost = Ray::new(v(0.0, 0.0, 0.0), v(f64::NAN, 0.0, 0.0));
    rec.set_front_face(&lost, &v(1.0, 0.0, 0.0), &m);
    assert!(!rec.front_face);
    assert_eq!(a(&rec.normal), [-1.0, -0.0, -0.0]);
}

#[test]
fn a_matt_surface_sends_the_ray_on() {
    let matt = Lambertian::new(v(0.8, 0.3, 0.1));
    let rec = record(Material::Lambertian(matt));
    let r_in = Ray::new(v(0.0, 5.0, 0.0), v(1.0, -1.0, 0.0));
    let m = Machine::drawing(&[0.0, 0.5]);
    let sent = matt.scatter(&r_in, &rec, &m).unwrap();
    assert_eq!(a(&sent.attenuation), [0.8, 0.3, 0.1]);
    assert_eq!(a(sent.scattered.origin()), [1.0, 2.0, 3.0]);
    assert_eq!(a(sent.scattered.direction()), [1.0, 1.0, 0.0]);
    let m = Machine::drawing(&[0.3, 1.0]);
    let sent = matt.scatter(&r_in, &rec, &m).unwrap();
    assert_eq!(a(sent.scattered.direction()), [0.0, 1.0, 1.0]);
}

#[test]
fn a_matt_surface_falls_back_on_the_normal() {
    let matt = Lambertian::new(v(0.8, 0.3, 0.1));
    let mut rec = record(Material::Lambertian(matt));
    rec.normal = v(0.0, 0.0, -1.0);
    let r_in = Ray::new(v(0.0, 5.0, 0.0), v(1.0, -1.0, 0.0));
    let m = Machine::drawing(&[0.3, 1.0]);
    let sent = matt.scatter(&r_in, &rec, &m).unwrap();
    assert_eq!(a(sent.scattered.direction()), [0.0, 0.0, -1.0]);
    assert_eq!(a(sent.scattered.origin()), [1.0, 2.0, 3.0]);
    assert_eq!(a(&sent.attenuation), [0.8, 0.3, 0.1]);
}

#[test]
fn a_perfect_mirror_reflects() {
    let mirror = Metal::new(v(0.8, 0.8, 0.8), s(0.0));
    let rec = record(Material::Metal(mirror));
    let r_in = Ray::new(v(0.0, 5.0, 0.0), v(3.0, -4.0, 0.0));
    let sent = mirror.scatter(&r_in, &rec, &Machine::new()).unwrap();
    assert_eq!(a(&sent.attenuation), [0.8, 0.8, 0.8]);
    assert_eq!(a(sent.scattered.origin()), [1.0, 2.0, 3.0]);
    let direction = a(sent.scattered.direction());
    assert!((direction[0] - 0.6).abs() < 1.0e-15);
    assert!((direction[1] - 0.8).abs() < 1.0e-15);
    assert_eq!(direction[2], 0.0);
}

#[test]
fn a_fuzzy_mirror_blurs_the_reflection() {
    let mirror = Metal::new(v(0.8, 0.8, 0.8), s(0.5));
    let rec = record(Material::Metal(mirror));
    let r_in = Ray::new(v(0.0, 5.0, 0.0), v(0.0, -2.0, 0.0));
    let m = Machine::drawing(&[0.75, 0.5, 0.25]);
    let sent = mirror.scatter(&r_in, &rec, &m).unwrap();
    assert_eq!(a(sent.scattered.direction()), [0.25, 1.0, -0.25]);
}

#[test]
fn a_mirror_absorbs_what_turns_into_the_surface() {
    let mirror = Metal::new(v(0.8, 0.8, 0.8), s(1.0));
    let rec = record(Material::Metal(mirror));
    let rising = Ray::new(v(0.0, -5.0, 0.0), v(1.0, 1.0, 0.0));
    assert!(mirror.scatter(&rising, &rec, &Machine::new()).is_none());
    let grazing = Ray::new(v(0.0, 5.0, 0.0), v(1.0, 0.0, 0.0));
    assert!(mirror.scatter(&grazing, &rec, &Machine::new()).is_none());
    let falling = Ray::new(v(0.0, 5.0, 0.0), v(1.0, -0.25, 0.0));
    let m = Machine::drawing(&[0.5, 0.1, 0.5]);
    assert!(mirror.scatter(&falling, &rec, &m).is_none());
    let m = Machine::drawing(&[0.5, 0.9, 0.5]);
    assert!(mirror.scatter(&falling, &rec, &m).is_some());
}

#[test]
fn fuzziness_lies_between_zero_and_one() {
    assert!(Metal::new(Color::white(), s(0.0)).is_well_formed());
    assert!(Metal::new(Color::white(), s(0.3)).is_well_formed());
    assert!(Metal::new(Color::white(), s(1.0)).is_well_formed());
    assert!(!Metal::new(Color::white(), s(1.5)).is_well_formed());
    assert!(!Metal::new(Color::white(), s(-0.1)).is_well_formed());
    assert!(!Metal::new(Color::white(), s(f64::NAN)).is_well_formed());
    assert_eq!(f(Metal::new(Color::white(), s(0.3)).fuzziness), 0.3);
}

#[test]
fn a_material_answers_by_its_kind() {
    let matt = Material::Lambertian(Lambertian::new(v(0.1, 0.2, 0.3)));
    let mirror = Material::Metal(Metal::new(v(0.4, 0.5, 0.6), s(0.0)));
    let rec = record(matt);
    let rising = Ray::new(v(0.0, -5.0, 0.0), v(1.0, 1.0, 0.0));
    let falling = Ray::new(v(0.0, 5.0, 0.0), v(0.0, -1.0, 0.0));
    let sent = matt.scatter(&rising, &rec, &Machine::drawing(&[0.0, 0.5])).unwrap();
    assert_eq!(a(&sent.attenuation), [0.1, 0.2, 0.3]);
    assert_eq!(a(sent.scattered.direction()), [1.0, 1.0, 0.0]);
    assert!(mirror.scatter(&rising, &rec, &Machine::new()).is_none());
    let sent = mirror.scatter(&falling, &rec, &Machine::new()).unwrap();
    assert_eq!(a(&sent.attenuation), [0.4, 0.5, 0.6]);
    assert_eq!(a(sent.scattered.direction()), [0.0, 1.0, 0.0]);
    assert_eq!(a(&matt.albedo()), [0.1, 0.2, 0.3]);
    assert_eq!(a(&mirror.albedo()), [0.4, 0.5, 0.6]);
}

#[test]
fn a_spent_ray_is_black() {
    assert!(is_spent(0));
    assert!(!is_spent(1));
    assert!(matches!(shade(0, Encounter::Escaped), Shade::Black));
    assert!(matches!(shade(0, Encounter::Absorbed), Shade::Black));
    assert!(matches!(shade(0, Encounter::Scattered(sample_result())), Shade::Black));
}

#[test]
fn a_ray_that_escapes_sees_the_sky() {
    assert!(matches!(shade(1, Encounter::Escaped), Shade::Sky));
    assert!(matches!(shade(50, Encounter::Escaped), Shade::Sky));
}

#[test]
fn an_absorbed_ray_is_black() {
    assert!(matches!(shade(1, Encounter::Absorbed), Shade::Black));
    assert!(matches!(shade(50, Encounter::Absorbed), Shade::Black));
}

#[test]
fn a_scattered_ray_goes_on_with_one_collision_fewer() {
    match shade(50, Encounter::Scattered(sample_result())) {
        Shade::Attenuated { attenuation, scattered, allowed_collisions } => {
            assert_eq!(allowed_collisions, 49);
            assert_eq!(a(&attenuation), [0.8, 0.6, 0.2]);
            assert_eq!(a(scattered.origin()), [1.0, 2.0, 3.0]);
            assert_eq!(a(scattered.direction()), [0.0, 1.0, 0.0]);
        }
        other => panic!("{:?}", other),
    }
    match shade(1, Encounter::Scattered(sample_result())) {
        Shade::Attenuated { allowed_collisions, .. } => assert_eq!(allowed_collisions, 0),
        other => panic!("{:?}", other),
    }
}

#[test]
fn the_fate_of_a_ray_follows_from_the_answers() {
    assert!(matches!(encounter(false, None), Encounter::Escaped));
    assert!(matches!(encounter(false, Some(sample_result())), Encounter::Escaped));
    assert!(matches!(encounter(true, None), Encounter::Absorbed));
    match encounter(true, Some(sample_result())) {
        Encounter::Scattered(m) => assert_eq!(a(&m.attenuation), [0.8, 0.6, 0.2]),
        other => panic!("{:?}", other),
    }
}
