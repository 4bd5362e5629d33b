//! Plane solvers: explicit curves, implicit curves, parametric curves.

pub mod common;
pub mod explicit;
pub mod implicit;
pub mod parametric;
