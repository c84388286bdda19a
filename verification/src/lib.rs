//! A small path tracer, without its arithmetic.
//!
//! A path tracer follows rays of light backwards, from the camera into a
//! scene of spheres, and gives each pixel the colour that its rays bring
//! back. This library holds the whole of that but the arithmetic on real
//! numbers and the source of random numbers, which it takes from its caller
//! as an [`arithmetic::Arithmetic`]. Nothing is assumed of that arithmetic.
//! Whatever the library computes, it states in terms of what the arithmetic
//! returned: the inner product of two vectors is a sum of three products,
//! whatever a sum and a product are. What the library decides, it decides
//! itself: which of two solutions of a quadratic equation is a hit, which
//! sphere of a scene is struck first and from which side, whether a surface
//! sends a ray on, when a ray has collided often enough, how a channel of
//! light becomes a byte, which row of the picture a row of the camera is,
//! and what a render reports of its progress. The settings of a render and
//! the rules for their textual form are here too.
//!
//! Numbers are IEEE-754 binary64 values held by their bit pattern, see
//! [`scalar`]. The library compares, negates, selects and truncates them,
//! all of which is exact on the pattern.

pub mod arithmetic;
pub mod camera;
pub mod color;
pub mod config;
pub mod hit_record;
pub mod hittable;
pub mod hittable_list;
pub mod material;
pub mod picture;
pub mod progress;
pub mod ray;
pub mod render;
pub mod scalar;
pub mod sphere;
pub mod vec3;
