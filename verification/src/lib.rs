//! Decision core of a recursive ray tracer.
//!
//! Distances, coordinates and material coefficients are IEEE 754 binary64
//! values. They travel through this crate as bit patterns (`Scalar`), are
//! compared exactly, and are never combined arithmetically here: whoever
//! calls supplies sums, products and roots, and the crate decides what
//! follows from them.

pub mod scalar;
pub mod intersection;
pub mod tuple;
pub mod ray;
pub mod light;
pub mod shape_props;
pub mod transformation;
pub mod pattern;
pub mod material;
pub mod cone;
pub mod cylinder;
pub mod sphere;
pub mod plane;
pub mod cube;
pub mod shape;
pub mod world;
pub mod canvas;
pub mod camera;
pub mod scenes;
