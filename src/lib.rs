//! Geometry containers, nearest-hit selection and bounce control for a
//! Monte Carlo path tracer, with contracts checked by Verus.
//!
//! Vectors are `glam::Vec3` values, which the library treats as opaque: every
//! vector operation is a call into glam whose result is given a name in
//! [`vector`]. Scalar floating-point work (ray/surface root finding, shading)
//! lives with the caller.
pub mod vector;
pub mod triangle;
pub mod polygon;
pub mod plane;
pub mod aabb;
pub mod nearest;
pub mod integrator;
pub mod raster;

pub use aabb::{AcceleratedPolygon, AABB};
pub use plane::Plane;
pub use polygon::Polygon;
pub use triangle::Triangle;
