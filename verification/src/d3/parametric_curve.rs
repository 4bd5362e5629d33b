//! Tube mesher: a circular cross-section extruded along a space curve
//! t ↦ (x, y, z).
//!
//! At each path sample the mesher builds a local frame — tangent by forward
//! difference, then a normal and binormal by cross products with a helper
//! axis — and places a ring of vertices around the sample. Adjacent rings
//! are stitched with two triangles per angular step. The frame is not
//! parallel-transported: it is only locally stable and may twist at
//! inflection points, a deliberate trade-off.

use vstd::prelude::*;
use crate::fixed::{
    abs_sp,
    mul_fx,
    mul_fx_sp,
    sin_cos_fx,
    sin_cos_sp,
    lemma_scale_keeps_bound,
    lemma_step_span,
    COORD_LIMIT,
    SCALE,
    TAU_FX,
};
use crate::sample::{Sample3, sanitize3, sanitized3_sp};
use crate::vec3::{
    Vec3,
    vec3_in,
    cross_fx_sp,
    unit3_sp,
    cross_exact_sp,
    dot_sp,
    lemma_cross_perpendicular,
};
use crate::d2::implicit::SPAN_LIMIT;
use crate::d3::mesh::{Vertex3D, MeshData, mesh_wf, fd_dir, fd_dir_sp};
use crate::d3::implicit_surface::normal_bounded;

verus! {

/// Forward-difference step along t for the tangent estimate, in ticks.
pub const CURVE_EPS: i64 = 1024;

/// When the tangent's cosine with the primary helper axis exceeds this
/// (0.99 in fixed point), the frame switches to the secondary helper to
/// avoid a degenerate cross product.
pub const HELPER_COS_LIMIT: i64 = 1063004406;

/// Most segments along the path or around the tube.
pub const MAX_SEGMENTS: u32 = 4094;

/// One path sample's local frame: the ring center and the two cross-section
/// axes.
#[derive(Clone, Copy, Debug, PartialEq, Eq, Structural)]
pub struct Frame {
    pub pos: Vec3,
    pub normal: Vec3,
    pub binormal: Vec3,
}

/// A well-formed frame: the center in the coordinate range, the axes within
/// one fixed-point unit.
pub open spec fn frame_wf(fr: Frame) -> bool {
    vec3_in(fr.pos, COORD_LIMIT as int) && vec3_in(fr.normal, SCALE as int) && vec3_in(
        fr.binormal,
        SCALE as int,
    )
}

/// The frame built from a path sample and its forward neighbor: the tangent
/// is the unit forward difference; the cross-section axes come from cross
/// products with the y helper axis, or the z helper axis when the tangent
/// leans within the cosine limit of y.
pub open spec fn frame_sp(p: Sample3, pn: Sample3) -> Frame {
    let tangent = unit3_sp(fd_dir_sp(pn, p));
    let d = mul_fx_sp(tangent.x as int, 0) + mul_fx_sp(tangent.y as int, SCALE as int)
        + mul_fx_sp(tangent.z as int, 0);
    let helper = if abs_sp(d) > HELPER_COS_LIMIT {
        Vec3 { x: 0, y: 0, z: SCALE }
    } else {
        Vec3 { x: 0, y: SCALE, z: 0 }
    };
    let normal = unit3_sp(cross_fx_sp(tangent, helper));
    let binormal = unit3_sp(cross_fx_sp(tangent, normal));
    Frame { pos: Vec3 { x: p.x, y: p.y, z: p.z }, normal, binormal }
}

/// The frame at parameter `t` is built from two sanitized return values of
/// `f`, at `t` and one epsilon ahead.
pub open spec fn frame_from<F: Fn(i64) -> Sample3>(f: &F, t: i64, fr: Frame) -> bool {
    exists|rp: Sample3, rn: Sample3|
        #![trigger call_ensures(*f, (t,), rp), call_ensures(*f, (((t + CURVE_EPS) as i64),), rn)]
        call_ensures(*f, (t,), rp) && call_ensures(*f, (((t + CURVE_EPS) as i64),), rn) && fr
            == frame_sp(sanitized3_sp(rp), sanitized3_sp(rn))
}

/// The angle of ring step `j` out of `ts`: a full turn scaled by `j / ts`.
pub open spec fn ring_theta_sp(ts: int, j: int) -> int {
    (TAU_FX * j) / ts
}

/// The ring vertex at angular step `j`: the ring center offset by the
/// radius along `cos theta * normal + sin theta * binormal`, with that
/// offset's unit vector as the surface normal.
pub open spec fn ring_vertex_sp(fr: Frame, radius: i64, ts: int, j: int) -> Vertex3D {
    let sc = sin_cos_sp(ring_theta_sp(ts, j));
    let sv = sc.0;
    let cv = sc.1;
    let off = Vec3 {
        x: (mul_fx_sp(cv, fr.normal.x as int) + mul_fx_sp(sv, fr.binormal.x as int)) as i64,
        y: (mul_fx_sp(cv, fr.normal.y as int) + mul_fx_sp(sv, fr.binormal.y as int)) as i64,
        z: (mul_fx_sp(cv, fr.normal.z as int) + mul_fx_sp(sv, fr.binormal.z as int)) as i64,
    };
    let nv = unit3_sp(off);
    Vertex3D {
        x: (fr.pos.x + mul_fx_sp(off.x as int, radius as int)) as i64,
        y: (fr.pos.y + mul_fx_sp(off.y as int, radius as int)) as i64,
        z: (fr.pos.z + mul_fx_sp(off.z as int, radius as int)) as i64,
        nx: nv.x,
        ny: nv.y,
        nz: nv.z,
    }
}

/// The index triples that stitch ring `i` to ring `i + 1` for the first `c`
/// angular steps have been emitted when the scan reaches cell `c`; cell `c`
/// is ring `c / ts`, step `c % ts`.
pub open spec fn tube_indices_sp(ts: int, c: int) -> Seq<u32>
    decreases c,
{
    if c <= 0 {
        Seq::<u32>::empty()
    } else {
        let i = (c - 1) / ts;
        let j = (c - 1) % ts;
        let a = i * (ts + 1) + j;
        let b = a + 1;
        let cc = (i + 1) * (ts + 1) + j + 1;
        let d = (i + 1) * (ts + 1) + j;
        tube_indices_sp(ts, c - 1) + seq![
            a as u32,
            d as u32,
            b as u32,
            b as u32,
            d as u32,
            cc as u32,
        ]
    }
}

/// The stitch scan is a triangle list: six indices per angular step.
pub proof fn lemma_tube_indices_len(ts: int, c: int)
    requires
        0 <= c,
    ensures
        tube_indices_sp(ts, c).len() == 6 * c,
    decreases c,
{
    if c > 0 {
        lemma_tube_indices_len(ts, c - 1);
    }
}

/// Within one ring, every cross-section offset lies in the plane
/// perpendicular to the tangent: for any tangent `t`, helper axis `h`, and
/// ring phase `(c, s)`, the combination `c n + s b` of the exact frame
/// vectors `n = t x h` and `b = t x n` has dot product zero with `t`.
pub proof fn lemma_ring_offset_perpendicular(
    tx: int,
    ty: int,
    tz: int,
    hx: int,
    hy: int,
    hz: int,
    c: int,
    s: int,
)
    ensures
        ({
            let n = cross_exact_sp(tx, ty, tz, hx, hy, hz);
            let b = cross_exact_sp(tx, ty, tz, n.0, n.1, n.2);
            dot_sp(c * n.0 + s * b.0, c * n.1 + s * b.1, c * n.2 + s * b.2, tx, ty, tz)
        }) == 0,
{
    let n = cross_exact_sp(tx, ty, tz, hx, hy, hz);
    let b = cross_exact_sp(tx, ty, tz, n.0, n.1, n.2);
    lemma_cross_perpendicular(tx, ty, tz, hx, hy, hz);
    lemma_cross_perpendicular(tx, ty, tz, n.0, n.1, n.2);
    lemma_lin_comb_dot(n.0, n.1, n.2, b.0, b.1, b.2, tx, ty, tz, c, s);
}

/// A linear combination of two vectors perpendicular to `t` stays
/// perpendicular to `t`.
pub proof fn lemma_lin_comb_dot(
    nx: int,
    ny: int,
    nz: int,
    bx: int,
    by: int,
    bz: int,
    tx: int,
    ty: int,
    tz: int,
    c: int,
    s: int,
)
    requires
        dot_sp(nx, ny, nz, tx, ty, tz) == 0,
        dot_sp(bx, by, bz, tx, ty, tz) == 0,
    ensures
        dot_sp(c * nx + s * bx, c * ny + s * by, c * nz + s * bz, tx, ty, tz) == 0,
{
    let a1 = nx * tx;
    let a2 = ny * ty;
    let a3 = nz * tz;
    let b1 = bx * tx;
    let b2 = by * ty;
    let b3 = bz * tz;
    assert((c * nx + s * bx) * tx == c * a1 + s * b1) by (nonlinear_arith)
        requires
            a1 == nx * tx,
            b1 == bx * tx,
    ;
    assert((c * ny + s * by) * ty == c * a2 + s * b2) by (nonlinear_arith)
        requires
            a2 == ny * ty,
            b2 == by * ty,
    ;
    assert((c * nz + s * bz) * tz == c * a3 + s * b3) by (nonlinear_arith)
        requires
            a3 == nz * tz,
            b3 == bz * tz,
    ;
    assert(c * a1 + s * b1 + (c * a2 + s * b2) + (c * a3 + s * b3) == c * (a1 + a2 + a3) + s
        * (b1 + b2 + b3)) by (nonlinear_arith);
}

/// The fixed-point dot product of two unit-scale vectors.
fn dot_fx(a: Vec3, b: Vec3) -> (r: i64)
    requires
        vec3_in(a, SCALE as int),
        vec3_in(b, SCALE as int),
    ensures
        r == mul_fx_sp(a.x as int, b.x as int) + mul_fx_sp(a.y as int, b.y as int)
            + mul_fx_sp(a.z as int, b.z as int),
        abs_sp(r as int) <= 3 * SCALE,
{
    proof {
        lemma_scale_keeps_bound(a.x as int, b.x as int);
        lemma_scale_keeps_bound(a.y as int, b.y as int);
        lemma_scale_keeps_bound(a.z as int, b.z as int);
    }
    mul_fx(a.x, b.x) + mul_fx(a.y, b.y) + mul_fx(a.z, b.z)
}

/// Build the local frame at parameter `t`: sample the curve, estimate the
/// tangent by a forward difference, and derive the cross-section axes by
/// cross products with a helper axis (switching helpers near alignment).
fn make_frame<F: Fn(i64) -> Sample3 + Sync + Send>(f: &F, t: i64) -> (fr: Frame)
    requires
        abs_sp(t as int) <= 3 * COORD_LIMIT,
        forall|x: i64| call_requires(*f, (x,)),
    ensures
        frame_wf(fr),
        frame_from(f, t, fr),
{
    let rp: Sample3 = f(t);
    let rn: Sample3 = f(t + CURVE_EPS);
    let p: Sample3 = sanitize3(rp);
    let pn: Sample3 = sanitize3(rn);
    let tangent: Vec3 = fd_dir(pn, p).unit();
    let mut helper: Vec3 = Vec3 { x: 0, y: SCALE, z: 0 };
    let d: i64 = dot_fx(tangent, helper);
    let da: i64 = if d < 0 {
        -d
    } else {
        d
    };
    if da > HELPER_COS_LIMIT {
        helper = Vec3 { x: 0, y: 0, z: SCALE };
    }
    let normal: Vec3 = tangent.cross_fx(helper).unit();
    let binormal: Vec3 = tangent.cross_fx(normal).unit();
    let fr: Frame = Frame { pos: Vec3 { x: p.x, y: p.y, z: p.z }, normal, binormal };
    proof {
        assert(fr == frame_sp(sanitized3_sp(rp), sanitized3_sp(rn)));
        assert(frame_from(f, t, fr));
    }
    fr
}

pub struct ParametricCurveSolver;

impl ParametricCurveSolver {
    /// Mesh a tube of the given radius around the space curve t ↦ position.
    ///
    /// A degenerate t-range yields an empty mesh. Otherwise: for a vector of
    /// local frames, one per path sample — each built, per the frame model,
    /// from two sanitized return values of `func` at `t0 + i * step` and one
    /// epsilon ahead — the vertex buffer holds exactly one ring of
    /// `tube_segments + 1` ring-model vertices per frame, ring by ring, and
    /// the index buffer is exactly the ring-stitching scan: two triangles
    /// per angular step between adjacent rings.
    pub fn solve<F: Fn(i64) -> Sample3 + Sync + Send>(
        func: &F,
        t_range: (i64, i64),
        radius: i64,
        tube_segments: u32,
        path_segments: u32,
    ) -> (r: MeshData)
        requires
            abs_sp(t_range.0 as int) <= COORD_LIMIT,
            abs_sp(t_range.1 as int) <= COORD_LIMIT,
            0 <= radius <= COORD_LIMIT,
            1 <= tube_segments <= MAX_SEGMENTS,
            1 <= path_segments <= MAX_SEGMENTS,
            forall|x: i64| call_requires(*func, (x,)),
        ensures
            t_range.1 <= t_range.0 ==> r.vertices@.len() == 0 && r.indices@.len() == 0,
            t_range.1 > t_range.0 ==> r.vertices@.len() == (path_segments + 1) * (
            tube_segments + 1) && r.indices@ == tube_indices_sp(
                tube_segments as int,
                (path_segments * tube_segments) as int,
            ),
            t_range.1 > t_range.0 ==> exists|frames: Seq<Frame>|
                {
                    let ps = path_segments as int;
                    let ts = tube_segments as int;
                    let step = (t_range.1 - t_range.0) as int / ps;
                    &&& (#[trigger] frames.len()) == ps + 1
                    &&& (forall|i: int| 0 <= i <= ps ==> frame_wf(#[trigger] frames[i]))
                    &&& (forall|i: int|
                        0 <= i <= ps ==> frame_from(
                            func,
                            ((t_range.0 as int) + i * step) as i64,
                            #[trigger] frames[i],
                        ))
                    &&& (forall|i: int, j: int|
                        0 <= i <= ps && 0 <= j <= ts ==> #[trigger] r.vertices@[i * (ts + 1)
                            + j] == ring_vertex_sp(frames[i], radius, ts, j))
                },
            forall|m: int| 0 <= m < r.vertices@.len() ==> normal_bounded(#[trigger] r.vertices@[m]),
            mesh_wf(r.vertices@, r.indices@),
            r.indices@.len() % 3 == 0,
    {
        let (t0, t1) = t_range;
        if t1 <= t0 {
            let empty = MeshData { vertices: Vec::new(), indices: Vec::new() };
            return empty;
        }
        let ps: usize = path_segments as usize;
        let ts: usize = tube_segments as usize;
        let step: i64 = (t1 - t0) / (ps as i64);
        proof {
            vstd::arithmetic::div_mod::lemma_fundamental_div_mod((t1 - t0) as int, ps as int);
            vstd::arithmetic::div_mod::lemma_div_pos_is_pos((t1 - t0) as int, ps as int);
            assert((ps as int + 1) * (ts as int + 1) <= 4095 * 4095) by (nonlinear_arith)
                requires
                    1 <= ps as int <= 4094,
                    1 <= ts as int <= 4094,
            ;
        }
        let ps1: usize = ps + 1;
        let ts1: usize = ts + 1;
        let count: usize = ps1 * ts1;
        // One ring of vertices per path sample.
        let mut vertices: Vec<Vertex3D> = Vec::new();
        let ghost mut gframes: Seq<Frame> = Seq::<Frame>::empty();
        let mut i: usize = 0;
        while i < ps1
            invariant
                0 <= i <= ps1,
                ps1 == ps + 1,
                ts1 == ts + 1,
                1 <= ps <= 4094,
                1 <= ts <= 4094,
                0 <= step,
                (ps as int) * (step as int) <= SPAN_LIMIT,
                abs_sp(t0 as int) <= COORD_LIMIT,
                0 <= radius <= COORD_LIMIT,
                forall|x: i64| call_requires(*func, (x,)),
                gframes.len() == i,
                forall|ii: int|
                    0 <= ii < i ==> frame_wf(#[trigger] gframes[ii]) && frame_from(
                        func,
                        ((t0 as int) + ii * (step as int)) as i64,
                        gframes[ii],
                    ),
                vertices@.len() == i * ts1,
                forall|ii: int, jj: int|
                    0 <= ii < i && 0 <= jj <= ts as int ==> #[trigger] vertices@[ii * (
                    ts1 as int) + jj] == ring_vertex_sp(gframes[ii], radius, ts as int, jj),
                forall|m: int|
                    0 <= m < vertices@.len() ==> normal_bounded(#[trigger] vertices@[m]),
            decreases ps1 - i,
        {
            proof {
                lemma_step_span(i as int, ps as int, step as int, SPAN_LIMIT as int);
            }
            let t: i64 = t0 + (i as i64) * step;
            let fr: Frame = make_frame(func, t);
            proof {
                gframes = gframes.push(fr);
            }
            let mut j: usize = 0;
            while j < ts1
                invariant
                    0 <= j <= ts1,
                    ps1 == ps + 1,
                    ts1 == ts + 1,
                    1 <= ts <= 4094,
                    i < ps1,
                    0 <= radius <= COORD_LIMIT,
                    frame_wf(fr),
                    gframes.len() == i + 1,
                    gframes[i as int] == fr,
                    forall|ii: int| 0 <= ii < i ==> frame_wf(#[trigger] gframes[ii]),
                    vertices@.len() == i * ts1 + j,
                    forall|ii: int, jj: int|
                        0 <= ii < i && 0 <= jj <= ts as int ==> #[trigger] vertices@[ii * (
                        ts1 as int) + jj] == ring_vertex_sp(
                            gframes[ii],
                            radius,
                            ts as int,
                            jj,
                        ),
                    forall|jj: int|
                        0 <= jj < j ==> #[trigger] vertices@[i as int * (ts1 as int) + jj]
                            == ring_vertex_sp(fr, radius, ts as int, jj),
                    forall|m: int|
                        0 <= m < vertices@.len() ==> normal_bounded(#[trigger] vertices@[m]),
                decreases ts1 - j,
            {
                proof {
                    assert((TAU_FX as int) * (j as int) <= (TAU_FX as int) * (ts as int)
                        && 0 <= (TAU_FX as int) * (j as int) && (TAU_FX as int) * (ts as int)
                        <= TAU_FX * 4094) by (nonlinear_arith)
                        requires
                            0 <= j as int <= ts as int,
                            ts as int <= 4094,
                            0 < TAU_FX as int,
                    ;
                }
                let theta128: u128 = (TAU_FX as u128) * (j as u128) / (ts as u128);
                proof {
                    crate::fixed::lemma_div_ordered(
                        (TAU_FX as int) * (j as int),
                        (TAU_FX as int) * (ts as int),
                        ts as int,
                    );
                    vstd::arithmetic::div_mod::lemma_div_multiples_vanish(
                        TAU_FX as int,
                        ts as int,
                    );
                }
                let theta: i64 = theta128 as i64;
                let sc: (i64, i64) = sin_cos_fx(theta);
                let s: i64 = sc.0;
                let c: i64 = sc.1;
                proof {
                    lemma_scale_keeps_bound(c as int, fr.normal.x as int);
                    lemma_scale_keeps_bound(c as int, fr.normal.y as int);
                    lemma_scale_keeps_bound(c as int, fr.normal.z as int);
                    lemma_scale_keeps_bound(s as int, fr.binormal.x as int);
                    lemma_scale_keeps_bound(s as int, fr.binormal.y as int);
                    lemma_scale_keeps_bound(s as int, fr.binormal.z as int);
                }
                let off: Vec3 = Vec3 {
                    x: mul_fx(c, fr.normal.x) + mul_fx(s, fr.binormal.x),
                    y: mul_fx(c, fr.normal.y) + mul_fx(s, fr.binormal.y),
                    z: mul_fx(c, fr.normal.z) + mul_fx(s, fr.binormal.z),
                };
                proof {
                    crate::fixed::lemma_mul_fx_magnitude(
                        off.x as int,
                        radius as int,
                        2 * SCALE,
                        COORD_LIMIT as int,
                    );
                    crate::fixed::lemma_mul_fx_magnitude(
                        off.y as int,
                        radius as int,
                        2 * SCALE,
                        COORD_LIMIT as int,
                    );
                    crate::fixed::lemma_mul_fx_magnitude(
                        off.z as int,
                        radius as int,
                        2 * SCALE,
                        COORD_LIMIT as int,
                    );
                    assert((2 * (SCALE as int)) * (COORD_LIMIT as int) / (SCALE as int) == 2
                        * (COORD_LIMIT as int)) by (nonlinear_arith);
                }
                let nv: Vec3 = off.unit();
                vertices.push(
                    Vertex3D {
                        x: fr.pos.x + mul_fx(off.x, radius),
                        y: fr.pos.y + mul_fx(off.y, radius),
                        z: fr.pos.z + mul_fx(off.z, radius),
                        nx: nv.x,
                        ny: nv.y,
                        nz: nv.z,
                    },
                );
                proof {
                    assert(theta as int == ring_theta_sp(ts as int, j as int));
                    assert(vertices@[i as int * (ts1 as int) + j as int] == ring_vertex_sp(
                        fr,
                        radius,
                        ts as int,
                        j as int,
                    ));
                    assert forall|ii: int, jj: int|
                        0 <= ii < i && 0 <= jj <= ts as int implies #[trigger] vertices@[ii
                        * (ts1 as int) + jj] == ring_vertex_sp(
                        gframes[ii],
                        radius,
                        ts as int,
                        jj,
                    ) by {
                        assert(0 <= ii * (ts1 as int) + jj < i as int * (ts1 as int)
                            + j as int) by (nonlinear_arith)
                            requires
                                0 <= ii < i as int,
                                0 <= jj <= ts as int,
                                ts1 as int == ts as int + 1,
                                0 <= j as int,
                        ;
                    }
                }
                j = j + 1;
            }
            proof {
                assert(i as int * ts1 as int + ts1 as int == (i + 1) * ts1 as int)
                    by (nonlinear_arith);
            }
            i = i + 1;
        }
        // Stitch adjacent rings with two triangles per angular step.
        let mut indices: Vec<u32> = Vec::new();
        let mut i2: usize = 0;
        while i2 < ps
            invariant
                0 <= i2 <= ps,
                ps1 == ps + 1,
                ts1 == ts + 1,
                1 <= ps <= 4094,
                1 <= ts <= 4094,
                count == ps1 * ts1,
                vertices@.len() == count,
                indices@ == tube_indices_sp(ts as int, i2 as int * ts as int),
                forall|m: int| 0 <= m < indices@.len() ==> (#[trigger] indices@[m]) < count,
            decreases ps - i2,
        {
            let mut j2: usize = 0;
            while j2 < ts
                invariant
                    0 <= j2 <= ts,
                    0 <= i2 < ps,
                    ps1 == ps + 1,
                    ts1 == ts + 1,
                    1 <= ps <= 4094,
                    1 <= ts <= 4094,
                    count == ps1 * ts1,
                    vertices@.len() == count,
                    indices@ == tube_indices_sp(ts as int, i2 as int * ts as int + j2 as int),
                    forall|m: int| 0 <= m < indices@.len() ==> (#[trigger] indices@[m]) < count,
                decreases ts - j2,
            {
                let ghost cc = i2 as int * ts as int + j2 as int;
                proof {
                    vstd::arithmetic::div_mod::lemma_fundamental_div_mod_converse_div(
                        cc,
                        ts as int,
                        i2 as int,
                        j2 as int,
                    );
                    vstd::arithmetic::div_mod::lemma_fundamental_div_mod_converse_mod(
                        cc,
                        ts as int,
                        i2 as int,
                        j2 as int,
                    );
                    assert(0 <= (i2 as int) * (ts1 as int) && ((i2 as int) + 1) * (ts1 as int)
                        + (j2 as int) + 1 <= (ps1 as int) * (ts1 as int) - 1 && (i2 as int) * (
                    ts1 as int) <= ((i2 as int) + 1) * (ts1 as int)) by (nonlinear_arith)
                        requires
                            0 <= (i2 as int),
                            (i2 as int) + 1 <= (ps1 as int) - 1,
                            0 <= (j2 as int),
                            (j2 as int) + 1 <= (ts1 as int) - 1,
                            1 <= (ts1 as int),
                    ;
                }
                let row1: usize = i2 * ts1;
                let row2: usize = (i2 + 1) * ts1;
                let a: usize = row1 + j2;
                let b: usize = row1 + j2 + 1;
                let c2: usize = row2 + j2 + 1;
                let d: usize = row2 + j2;
                let ghost pre = indices@;
                indices.push(a as u32);
                indices.push(d as u32);
                indices.push(b as u32);
                indices.push(b as u32);
                indices.push(d as u32);
                indices.push(c2 as u32);
                proof {
                    assert(indices@ =~= pre + seq![
                        (i2 as int * (ts as int + 1) + j2 as int) as u32,
                        ((i2 as int + 1) * (ts as int + 1) + j2 as int) as u32,
                        (i2 as int * (ts as int + 1) + j2 as int + 1) as u32,
                        (i2 as int * (ts as int + 1) + j2 as int + 1) as u32,
                        ((i2 as int + 1) * (ts as int + 1) + j2 as int) as u32,
                        ((i2 as int + 1) * (ts as int + 1) + j2 as int + 1) as u32,
                    ]);
                    assert(indices@ == tube_indices_sp(ts as int, cc + 1));
                }
                j2 = j2 + 1;
            }
            proof {
                assert(i2 as int * ts as int + ts as int == (i2 + 1) * ts as int)
                    by (nonlinear_arith);
            }
            i2 = i2 + 1;
        }
        proof {
            lemma_tube_indices_len(ts as int, (ps as int) * (ts as int));
            assert((path_segments * tube_segments) as int == (ps as int) * (ts as int));
            assert((path_segments + 1) * (tube_segments + 1) == (ps1 as int) * (ts1 as int));
            assert(gframes.len() == path_segments as int + 1);
        }
        MeshData { vertices, indices }
    }
}

} // verus!
