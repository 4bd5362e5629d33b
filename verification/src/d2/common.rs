//! The vertex format shared by the plane solvers.

use vstd::prelude::*;

verus! {

/// One vertex of a ribbon or point buffer, in fixed-point world coordinates.
#[derive(Clone, Copy, Debug, PartialEq, Eq, Structural)]
pub struct Vertex {
    pub x: i64,
    pub y: i64,
}

} // verus!
