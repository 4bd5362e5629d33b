//! Space solvers: indexed triangle meshes for implicit surfaces, parametric
//! surfaces and tubes along space curves.

pub mod implicit_data;
pub mod implicit_surface;
pub mod mesh;
pub mod parametric_curve;
