use ray_tracing::arithmetic::Arithmetic;
use ray_tracing::camera::Camera;
use ray_tracing::config::Config;
use ray_tracing::hittable_list::HittableList;
use ray_tracing::material::Lambertian;
use ray_tracing::material::Material;
use ray_tracing::material::Metal;
use ray_tracing::picture::Picture;
use ray_tracing::ray::Ray;
use ray_tracing::render::SKY_GREEN_BITS;
use ray_tracing::render::coordinate;
use ray_tracing::render::sample;
use ray_tracing::render::sky;
use ray_tracing::scalar::Scalar;
use ray_tracing::sphere::Sphere;
use ray_tracing::vec3::Color;
use ray_tracing::vec3::Point;
use ray_tracing::vec3::Accepted;
use ray_tracing::vec3::Vec3;
use std::cell::Cell;
use std::cell::RefCell;

fn s(x: f64) -> Scalar {
    Scalar::from_bits(x.to_bits())
}

fn f(x: Scalar) -> f64 {
    f64::from_bits(x.to_bits())
}

fn v(x: f64, y: f64, z: f64) -> Vec3 {
    Vec3::new(s(x), s(y), s(z))
}

fn a(p: &Vec3) -> [f64; 3] {
    [f(p.x()), f(p.y()), f(p.z())]
}

/// Binary64 arithmetic as the processor does it. Its random numbers are
/// taken in turn from a list, and are one half when the list is used up.
struct Machine {
    draws: RefCell<Vec<f64>>,
}

impl Machine {
    fn new() -> Machine {
        Machine { draws: RefCell::new(Vec::new()) }
    }

    fn drawing(draws: &[f64]) -> Machine {
        let mut list = draws.to_vec();
        list.reverse();
        Machine { draws: RefCell::new(list) }
    }
}

impl Arithmetic for Machine {
    fn sum(&self, a: Scalar, b: Scalar) -> Scalar {
        s(f(a) + f(b))
    }

    fn difference(&self, a: Scalar, b: Scalar) -> Scalar {
        s(f(a) - f(b))
    }

    fn product(&self, a: Scalar, b: Scalar) -> Scalar {
        s(f(a) * f(b))
    }

    fn quotient(&self, a: Scalar, b: Scalar) -> Scalar {
        s(f(a) / f(b))
    }

    fn square(&self, a: Scalar) -> Scalar {
        s(f(a).powi(2))
    }

    fn square_root(&self, a: Scalar) -> Scalar {
        s(f(a).sqrt())
    }

    fn cosine(&self, a: Scalar) -> Scalar {
        s(f(a).cos())
    }

    fn sine(&self, a: Scalar) -> Scalar {
        s(f(a).sin())
    }

    fn number(&self, n: usize) -> Scalar {
        s(n as f64)
    }

    fn random(&self) -> Scalar {
        s(self.draws.borrow_mut().pop().unwrap_or(0.5))
    }

    fn random_in_unit_sphere(&self) -> Accepted<Self> {
        loop {
            if let Some(p) = Vec3::accepted_attempt(self) {
                return p;
            }
        }
    }
}

/// The machine's arithmetic, which counts the equations that it is asked to
/// solve by the square roots that it draws.
struct Counting {
    machine: Machine,
    roots: Cell<usize>,
}

impl Arithmetic for Counting {
    fn sum(&self, a: Scalar, b: Scalar) -> Scalar {
        self.machine.sum(a, b)
    }

    fn difference(&self, a: Scalar, b: Scalar) -> Scalar {
        self.machine.difference(a, b)
    }

    fn product(&self, a: Scalar, b: Scalar) -> Scalar {
        self.machine.product(a, b)
    }

    fn quotient(&self, a: Scalar, b: Scalar) -> Scalar {
        self.machine.quotient(a, b)
    }

    fn square(&self, a: Scalar) -> Scalar {
        self.machine.square(a)
    }

    fn square_root(&self, a: Scalar) -> Scalar {
        self.roots.set(self.roots.get() + 1);
        self.machine.square_root(a)
    }

    fn cosine(&self, a: Scalar) -> Scalar {
        self.machine.cosine(a)
    }

    fn sine(&self, a: Scalar) -> Scalar {
        self.machine.sine(a)
    }

    fn number(&self, n: usize) -> Scalar {
        self.machine.number(n)
    }

    fn random(&self) -> Scalar {
        self.machine.random()
    }

    fn random_in_unit_sphere(&self) -> Accepted<Self> {
        loop {
            if let Some(p) = Vec3::accepted_attempt(self) {
                return p;
            }
        }
    }
}

fn grey() -> Material {
    Material::Lambertian(Lambertian::new(v(0.5, 0.5, 0.5)))
}

fn polished() -> Material {
    Material::Metal(Metal::new(v(0.8, 0.8, 0.8), s(0.0)))
}

fn ball(center: [f64; 3], radius: f64, material: Material) -> Sphere {
    Sphere::new(v(center[0], center[1], center[2]), s(radius), material)
}

fn ray(origin: [f64; 3], direction: [f64; 3]) -> Ray {
    Ray::new(v(origin[0], origin[1], origin[2]), v(direction[0], direction[1], direction[2]))
}

fn settings(width: &str, height: &str, depth: &str) -> Config {
    Config::from_values(Some(height), Some(width), Some("1"), Some(depth), None, &Machine::new()).unwrap()
}

#[test]
fn the_sky_is_white_at_the_horizon_and_blue_overhead() {
    let m = Machine::new();
    assert_eq!(a(&sky(&ray([0.0, 0.0, 0.0], [0.0, 2.0, 0.0]), &m)), [0.5, 0.7, 1.0]);
    assert_eq!(a(&sky(&ray([0.0, 0.0, 0.0], [0.0, -3.0, 0.0]), &m)), [1.0, 1.0, 1.0]);
    assert_eq!(a(&sky(&ray([0.0, 0.0, 0.0], [0.0, 0.0, -1.0]), &m)), [0.75, 0.85, 1.0]);
    assert_eq!(a(&sky(&ray([7.0, 8.0, 9.0], [3.0, 0.0, 4.0]), &m)), [0.75, 0.85, 1.0]);
    assert_eq!(SKY_GREEN_BITS, 0.7f64.to_bits());
}

#[test]
fn a_ray_without_collisions_left_is_black() {
    let counting = Counting { machine: Machine::new(), roots: Cell::new(0) };
    let world = HittableList::new().chain_add(ball([0.0, 0.0, -1.0], 0.5, polished()));
    let r = ray([0.0, 0.0, 0.0], [0.0, 0.0, -1.0]);
    assert_eq!(a(&r.color(&world, 0, &counting)), [0.0, 0.0, 0.0]);
    assert_eq!(counting.roots.get(), 0);
}

#[test]
fn a_ray_that_strikes_nothing_brings_back_the_sky() {
    let m = Machine::new();
    let world = HittableList::new();
    let up = ray([0.0, 0.0, 0.0], [0.0, 2.0, 0.0]);
    assert_eq!(a(&up.color(&world, 50, &m)), [0.5, 0.7, 1.0]);
    let down = ray([0.0, 0.0, 0.0], [0.0, -3.0, 0.0]);
    assert_eq!(a(&down.color(&world, 1, &m)), [1.0, 1.0, 1.0]);
    let level = ray([0.0, 0.0, 0.0], [0.0, 0.0, -1.0]);
    assert_eq!(a(&level.color(&world, 7, &m)), [0.75, 0.85, 1.0]);
    let behind = HittableList::new().chain_add(ball([0.0, 0.0, 1.0], 0.5, grey()));
    assert_eq!(a(&level.color(&behind, 7, &m)), [0.75, 0.85, 1.0]);
}

#[test]
fn an_absorbed_ray_brings_back_black() {
    let fuzzy = Material::Metal(Metal::new(v(0.9, 0.9, 0.9), s(2.0)));
    let world = HittableList::new().chain_add(ball([0.0, 0.0, -1.0], 0.5, fuzzy));
    let r = ray([0.0, 0.0, 0.0], [0.0, 0.0, -1.0]);
    let m = Machine::drawing(&[0.5, 0.5, 0.1]);
    assert_eq!(a(&r.color(&world, 50, &m)), [0.0, 0.0, 0.0]);
    assert!(m.draws.borrow().is_empty());
}

#[test]
fn a_ray_does_not_strike_the_surface_that_it_leaves() {
    let m = Machine::new();
    let world = HittableList::new().chain_add(ball([0.0, 0.0, -1.0], 0.5, polished()));
    let leaving = ray([0.0, 0.0, -0.5], [0.0, 0.0, 1.0]);
    assert_eq!(f(world.objects[0].solve(&leaving, &m).far), 0.0);
    assert_eq!(a(&leaving.color(&world, 50, &m)), a(&sky(&leaving, &m)));
}

#[test]
fn a_mirror_ball_shows_the_sky_behind_the_camera() {
    let m = Machine::new();
    let world = HittableList::new().chain_add(ball([0.0, 0.0, -1.0], 0.5, polished()));
    let r = ray([0.0, 0.0, 0.0], [0.0, 0.0, -1.0]);
    let color = a(&r.color(&world, 50, &m));
    assert_eq!(color, [0.8 * 0.75, 0.8 * 0.85, 0.8]);
    assert_eq!(a(&r.color(&world, 2, &m)), color);
    assert_eq!(a(&r.color(&world, 1, &m)), [0.0, 0.0, 0.0]);
}

#[test]
fn a_matt_ball_halves_the_light() {
    let world = HittableList::new().chain_add(ball([0.0, 0.0, -1.0], 0.5, grey()));
    let r = ray([0.0, 0.0, 0.0], [0.0, 0.0, -1.0]);
    let m = Machine::drawing(&[0.3, 1.0]);
    let color = a(&r.color(&world, 50, &m));
    let scattered = ray([0.0, 0.0, -0.5], [0.0, 0.0, 2.0]);
    let expected = a(&sky(&scattered, &Machine::new()));
    assert_eq!(color, [0.5 * expected[0], 0.5 * expected[1], 0.5 * expected[2]]);
    assert_eq!(color, [0.375, 0.425, 0.5]);
}

#[test]
fn every_collision_attenuates() {
    let m = Machine::new();
    let tinted = Material::Metal(Metal::new(v(0.5, 0.25, 1.0), s(0.0)));
    let world = HittableList::new()
        .chain_add(ball([0.0, 0.0, -2.0], 0.5, tinted))
        .chain_add(ball([0.0, 2.0, 2.0], 0.5, tinted));
    let r = ray([0.0, 0.0, 0.0], [0.0, 0.0, -1.0]);
    assert_eq!(a(&r.color(&world, 1, &m)), [0.0, 0.0, 0.0]);
    assert_eq!(a(&r.color(&world, 2, &m)), [0.5 * 0.75, 0.25 * 0.85, 1.0]);
    let between = HittableList::new()
        .chain_add(ball([0.0, 0.0, -2.0], 0.5, tinted))
        .chain_add(ball([0.0, 0.0, 2.0], 0.5, tinted));
    assert_eq!(a(&r.color(&between, 1, &m)), [0.0, 0.0, 0.0]);
    assert_eq!(a(&r.color(&between, 9, &m)), [0.0, 0.0, 0.0]);
}

#[test]
fn a_ray_between_mirrors_comes_to_an_end() {
    let world = HittableList::new()
        .chain_add(ball([0.0, 0.0, -2.0], 0.5, polished()))
        .chain_add(ball([0.0, 0.0, 2.0], 0.5, polished()));
    let r = ray([0.0, 0.0, 0.0], [0.0, 0.0, -1.0]);
    for budget in [0usize, 1, 2, 10, 50] {
        let counting = Counting { machine: Machine::new(), roots: Cell::new(0) };
        assert_eq!(a(&r.color(&world, budget, &counting)), [0.0, 0.0, 0.0]);
        assert_eq!(counting.roots.get(), 3 * budget);
    }
}

#[test]
fn a_mirror_on_the_ground_shows_the_sky_overhead() {
    let m = Machine::new();
    let world = HittableList::new().chain_add(ball([0.0, -100.5, -1.0], 100.0, polished()));
    let r = ray([0.0, 0.0, -1.0], [0.0, -1.0, 0.0]);
    let color = a(&r.color(&world, 50, &m));
    assert!((color[0] - 0.8 * 0.5).abs() < 1e-12);
    assert!((color[1] - 0.8 * 0.7).abs() < 1e-12);
    assert!((color[2] - 0.8).abs() < 1e-12);
}

#[test]
fn a_sample_falls_into_its_pixel() {
    let m = Machine::drawing(&[0.0]);
    assert_eq!(f(coordinate(0, 5, &m)), 0.0);
    let m = Machine::drawing(&[0.5]);
    assert_eq!(f(coordinate(2, 5, &m)), 0.625);
    let m = Machine::drawing(&[0.0]);
    assert_eq!(f(coordinate(4, 5, &m)), 1.0);
    let m = Machine::drawing(&[0.25]);
    assert_eq!(f(coordinate(300, 1281, &m)), 300.25 / 1280.0);
}

#[test]
fn a_sample_is_the_colour_of_a_ray_through_the_pixel() {
    let config = settings("5", "3", "50");
    let m = Machine::new();
    let camera = Camera::new(Point::default(), config.aspect_ratio(&m), &m);
    let world = HittableList::new();
    let centre = Machine::drawing(&[0.0, 0.0]);
    let color = sample(2, 1, &config, &camera, &world, &centre);
    assert_eq!(a(&color), [0.75, 0.85, 1.0]);
    let behind = HittableList::new().chain_add(ball([0.0, 0.0, -1.0], 0.5, polished()));
    let color = sample(2, 1, &config, &camera, &behind, &Machine::drawing(&[0.0, 0.0]));
    assert_eq!(a(&color), [0.8 * 0.75, 0.8 * 0.85, 0.8]);
    let spent = settings("5", "3", "1");
    let color = sample(2, 1, &spent, &camera, &behind, &Machine::drawing(&[0.0, 0.0]));
    assert_eq!(a(&color), [0.0, 0.0, 0.0]);
}

#[test]
fn a_scene_without_spheres_renders_the_sky() {
    let config = settings("4", "3", "50");
    let m = Machine::new();
    let camera = Camera::new(Point::default(), s(2.0), &m);
    let world = HittableList::new();
    let picture = Picture::render(
        4,
        3,
        |x, y| {
            let color = sample(x, y, &config, &camera, &world, &Machine::drawing(&[0.0, 0.0]));
            color.rgb_bytes(config.samples_per_pixel, &m)
        },
        |_| {},
    );
    for x in 0..4 {
        let top = picture.image.get_pixel(x, 0).0;
        let bottom = picture.image.get_pixel(x, 2).0;
        assert_eq!(top[2], 255);
        assert_eq!(bottom[2], 255);
        assert!(top[0] < bottom[0]);
        assert!(top[1] < bottom[1]);
    }
    assert_eq!(picture.image.get_pixel(0, 1).0, picture.image.get_pixel(3, 1).0);
    assert_eq!(picture.image.get_pixel(1, 1).0, [221, 236, 255]);
}

#[test]
fn the_ground_colours_the_lower_half() {
    let world = HittableList::new().chain_add(ball([0.0, -100.5, -1.0], 100.0, grey()));
    let down = ray([0.0, 0.0, 0.0], [0.0, -0.5, -1.0]);
    let up = ray([0.0, 0.0, 0.0], [0.0, 0.5, -1.0]);
    let below = a(&down.color(&world, 50, &Machine::drawing(&[0.3, 1.0])));
    let above = a(&up.color(&world, 50, &Machine::new()));
    assert_eq!(above, a(&sky(&up, &Machine::new())));
    assert!(below[0] < above[0] && below[1] < above[1] && below[2] < above[2]);
    assert!(below[2] > 0.2 && below[2] <= 0.5);
}

#[test]
fn more_samples_come_closer_to_the_mean() {
    let config = settings("4", "3", "50");
    let m = Machine::new();
    let camera = Camera::new(Point::default(), s(2.0), &m);
    let world = HittableList::new();
    let mean = |samples: usize| {
        let mut sum = Color::black();
        for i in 0..samples {
            let shift = (i as f64 + 0.5) / samples as f64;
            sum.plus_assign(sample(1, 1, &config, &camera, &world, &Machine::drawing(&[shift, shift])), &m);
        }
        a(&sum.over_scalar(s(samples as f64), &m))
    };
    let exact = mean(4096);
    let mut last = f64::INFINITY;
    for samples in [1usize, 4, 16, 64, 256] {
        let got = mean(samples);
        let error = (got[0] - exact[0]).abs() + (got[1] - exact[1]).abs();
        assert!(error <= last + 1.0e-12, "{} {}", error, last);
        last = error;
    }
    assert!(last < 1.0e-4);
}
