//! A recursive, stochastically sampled ray tracer over fixed-point arithmetic.
//!
//! Geometry, materials and the camera's recursive radiance estimator are
//! verified; randomness is drawn through small trusted wrappers and handed to
//! the deterministic scattering logic as plain values.

pub mod camera;
pub mod color;
pub mod dielectric;
pub mod fixed;
pub mod interval;
pub mod lambert;
pub mod laws;
pub mod material;
pub mod metal;
pub mod point;
pub mod ray;
pub mod sampling;
pub mod scene;
pub mod shape;
pub mod sphere;
pub mod vector;
