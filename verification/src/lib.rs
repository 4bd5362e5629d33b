//! A function-to-mesh tessellation engine over fixed-point coordinates.
//!
//! The solvers turn a sampled mathematical function (explicit y = f(x),
//! implicit f(x, y) = 0, parametric curves and surfaces, implicit surfaces
//! f(x, y, z) = 0) into renderable geometry: ribbon or point vertices in the
//! plane, or an indexed triangle mesh with normals in space.
//!
//! All coordinates and function values are fixed-point numbers: an `i64`
//! holding `value * SCALE`. A caller that works in floating point converts at
//! the boundary.

pub mod d2;
pub mod d3;
pub mod fixed;
pub mod pakoo;
pub mod par;
pub mod sample;
pub mod vec3;
