//! Sampled function values.
//!
//! A solver evaluates a caller-supplied function object. Each evaluation
//! yields a sample: a finiteness flag and fixed-point components. A sample
//! whose flag is clear stands for an undefined or non-finite evaluation and
//! breaks the geometry locally; its components carry no meaning.

use vstd::prelude::*;
use crate::fixed::{abs_sp, clamp_coord_sp, clamp_coord, COORD_LIMIT};

verus! {

/// One sampled scalar value.
#[derive(Clone, Copy, Debug, PartialEq, Eq, Structural)]
pub struct Sample {
    /// False when the evaluation was undefined or non-finite.
    pub finite: bool,
    /// The value, in fixed point.
    pub v: i64,
}

/// One sampled point of the plane.
#[derive(Clone, Copy, Debug, PartialEq, Eq, Structural)]
pub struct Sample2 {
    pub finite: bool,
    pub x: i64,
    pub y: i64,
}

/// One sampled point of space.
#[derive(Clone, Copy, Debug, PartialEq, Eq, Structural)]
pub struct Sample3 {
    pub finite: bool,
    pub x: i64,
    pub y: i64,
    pub z: i64,
}

/// A well-formed sample stays in the representable coordinate range.
pub open spec fn sample_wf(s: Sample) -> bool {
    abs_sp(s.v as int) <= COORD_LIMIT
}

pub open spec fn sample2_wf(s: Sample2) -> bool {
    abs_sp(s.x as int) <= COORD_LIMIT && abs_sp(s.y as int) <= COORD_LIMIT
}

pub open spec fn sample3_wf(s: Sample3) -> bool {
    abs_sp(s.x as int) <= COORD_LIMIT && abs_sp(s.y as int) <= COORD_LIMIT && abs_sp(
        s.z as int,
    ) <= COORD_LIMIT
}

/// A raw sample saturated into the representable range.
pub open spec fn sanitized_sp(s: Sample) -> Sample {
    Sample { finite: s.finite, v: clamp_coord_sp(s.v as int) as i64 }
}

pub open spec fn sanitized2_sp(s: Sample2) -> Sample2 {
    Sample2 {
        finite: s.finite,
        x: clamp_coord_sp(s.x as int) as i64,
        y: clamp_coord_sp(s.y as int) as i64,
    }
}

pub open spec fn sanitized3_sp(s: Sample3) -> Sample3 {
    Sample3 {
        finite: s.finite,
        x: clamp_coord_sp(s.x as int) as i64,
        y: clamp_coord_sp(s.y as int) as i64,
        z: clamp_coord_sp(s.z as int) as i64,
    }
}

/// The sample `s` is what sanitizing some return value of `f` at `x` gives:
/// it ties a stored sample to an evaluation of the caller's function.
pub open spec fn sampled1<F: Fn(i64) -> Sample>(f: &F, x: i64, s: Sample) -> bool {
    exists|raw: Sample| call_ensures(*f, (x,), raw) && s == sanitized_sp(raw)
}

pub open spec fn sampled2<F: Fn(i64, i64) -> Sample>(f: &F, x: i64, y: i64, s: Sample) -> bool {
    exists|raw: Sample| call_ensures(*f, (x, y), raw) && s == sanitized_sp(raw)
}

pub open spec fn sampled3<F: Fn(i64, i64, i64) -> Sample>(
    f: &F,
    x: i64,
    y: i64,
    z: i64,
    s: Sample,
) -> bool {
    exists|raw: Sample| call_ensures(*f, (x, y, z), raw) && s == sanitized_sp(raw)
}

pub open spec fn sampled1_pt2<F: Fn(i64) -> Sample2>(f: &F, t: i64, s: Sample2) -> bool {
    exists|raw: Sample2| call_ensures(*f, (t,), raw) && s == sanitized2_sp(raw)
}

pub open spec fn sampled2_pt3<F: Fn(i64, i64) -> Sample3>(
    f: &F,
    u: i64,
    v: i64,
    s: Sample3,
) -> bool {
    exists|raw: Sample3| call_ensures(*f, (u, v), raw) && s == sanitized3_sp(raw)
}

pub open spec fn sampled1_pt3<F: Fn(i64) -> Sample3>(f: &F, t: i64, s: Sample3) -> bool {
    exists|raw: Sample3| call_ensures(*f, (t,), raw) && s == sanitized3_sp(raw)
}

/// Saturate a raw sample into the representable range, keeping its sign.
pub fn sanitize(s: Sample) -> (r: Sample)
    ensures
        sample_wf(r),
        r == sanitized_sp(s),
        r.finite == s.finite,
        r.v == clamp_coord_sp(s.v as int),
{
    Sample { finite: s.finite, v: clamp_coord(s.v) }
}

pub fn sanitize2(s: Sample2) -> (r: Sample2)
    ensures
        sample2_wf(r),
        r == sanitized2_sp(s),
        r.finite == s.finite,
        r.x == clamp_coord_sp(s.x as int),
        r.y == clamp_coord_sp(s.y as int),
{
    Sample2 { finite: s.finite, x: clamp_coord(s.x), y: clamp_coord(s.y) }
}

pub fn sanitize3(s: Sample3) -> (r: Sample3)
    ensures
        sample3_wf(r),
        r == sanitized3_sp(s),
        r.finite == s.finite,
        r.x == clamp_coord_sp(s.x as int),
        r.y == clamp_coord_sp(s.y as int),
        r.z == clamp_coord_sp(s.z as int),
{
    Sample3 { finite: s.finite, x: clamp_coord(s.x), y: clamp_coord(s.y), z: clamp_coord(s.z) }
}

} // verus!

