//! The indexed mesh container, simple meshes, and the parametric surface
//! mesher.

use vstd::prelude::*;
use crate::fixed::{
    abs_sp,
    clamp_coord_sp,
    clamp_coord128,
    COORD_LIMIT,
    SCALE,
};
use crate::sample::{Sample3, sample3_wf, sanitize3, sampled2_pt3};
use crate::vec3::{Vec3, vec3_in, cross_fx_sp, unit3_sp};
use crate::d2::implicit::SPAN_LIMIT;
use crate::fixed::lemma_step_span;

verus! {

/// One mesh vertex: a position and a normal, in fixed point.
#[derive(Clone, Copy, Debug, PartialEq, Eq, Structural)]
pub struct Vertex3D {
    pub x: i64,
    pub y: i64,
    pub z: i64,
    pub nx: i64,
    pub ny: i64,
    pub nz: i64,
}

/// An indexed mesh: a vertex buffer and an index buffer into it.
pub struct MeshData {
    pub vertices: Vec<Vertex3D>,
    pub indices: Vec<u32>,
}

/// Every index points at a vertex of the mesh.
pub open spec fn mesh_wf(vertices: Seq<Vertex3D>, indices: Seq<u32>) -> bool {
    forall|k: int| 0 <= k < indices.len() ==> (#[trigger] indices[k]) < vertices.len()
}

/// Sampling step between neighbor parameters when estimating a surface
/// normal by forward differences, in ticks.
pub const SURFACE_EPS: i64 = 1024;

/// `SCALE / SURFACE_EPS`: rescales a forward difference to derivative size.
pub const FD_SCALE: i64 = 1048576;

/// Squared world distance above which a surface triangle is dropped: it
/// would bridge a discontinuity. Ten world units, squared, in ticks.
pub const JUMP_THRESHOLD_SQ: u128 = 115292150460684697600;

/// One grid point of a sampled surface: the position and its two forward
/// neighbors along u and v.
#[derive(Clone, Copy, Debug, PartialEq, Eq, Structural)]
pub struct SurfSample {
    pub p: Sample3,
    pub pu: Sample3,
    pub pv: Sample3,
}

pub open spec fn surf_sample_wf(s: SurfSample) -> bool {
    sample3_wf(s.p) && sample3_wf(s.pu) && sample3_wf(s.pv)
}

/// The grid point's three samples are sanitized return values of `f` at the
/// point and at its two forward-epsilon neighbors.
pub open spec fn surf_sampled<F: Fn(i64, i64) -> Sample3>(
    f: &F,
    u: i64,
    v: i64,
    s: SurfSample,
) -> bool {
    &&& sampled2_pt3(f, u, v, s.p)
    &&& sampled2_pt3(f, ((u + SURFACE_EPS) as i64), v, s.pu)
    &&& sampled2_pt3(f, u, ((v + SURFACE_EPS) as i64), s.pv)
}

/// A forward difference rescaled to derivative size and saturated into the
/// coordinate range. Rescaling does not change the normal's direction.
pub open spec fn fd_dir_sp(to: Sample3, from: Sample3) -> Vec3 {
    Vec3 {
        x: clamp_coord_sp((to.x - from.x) * FD_SCALE) as i64,
        y: clamp_coord_sp((to.y - from.y) * FD_SCALE) as i64,
        z: clamp_coord_sp((to.z - from.z) * FD_SCALE) as i64,
    }
}

/// The normal of a surface sample: the unit cross product of the two
/// forward differences, or the fixed default +z when a neighbor sample is
/// invalid.
pub open spec fn surf_normal_sp(s: SurfSample) -> Vec3 {
    if s.pu.finite && s.pv.finite {
        unit3_sp(cross_fx_sp(fd_dir_sp(s.pu, s.p), fd_dir_sp(s.pv, s.p)))
    } else {
        Vec3 { x: 0, y: 0, z: SCALE }
    }
}

/// The vertex built for a surface sample. An invalid sample yields a
/// sentinel vertex at the origin with a zero normal; no triangle will
/// reference it.
pub open spec fn surf_vertex_sp(s: SurfSample) -> Vertex3D {
    if s.p.finite {
        let n = surf_normal_sp(s);
        Vertex3D { x: s.p.x, y: s.p.y, z: s.p.z, nx: n.x, ny: n.y, nz: n.z }
    } else {
        Vertex3D { x: 0, y: 0, z: 0, nx: 0, ny: 0, nz: 0 }
    }
}

/// Squared distance between two sampled positions.
pub open spec fn dist3_sq_sp(a: Sample3, b: Sample3) -> int {
    (b.x - a.x) * (b.x - a.x) + (b.y - a.y) * (b.y - a.y) + (b.z - a.z) * (b.z - a.z)
}

/// Whether a triangle over three samples is kept: all three valid and no
/// edge longer than the jump threshold.
pub open spec fn tri_ok_sp(a: Sample3, b: Sample3, c: Sample3) -> bool {
    &&& a.finite
    &&& b.finite
    &&& c.finite
    &&& dist3_sq_sp(a, b) <= JUMP_THRESHOLD_SQ
    &&& dist3_sq_sp(b, c) <= JUMP_THRESHOLD_SQ
    &&& dist3_sq_sp(c, a) <= JUMP_THRESHOLD_SQ
}

/// The index triples one grid cell contributes: its two triangles, each
/// kept only when `tri_ok_sp` holds of its corners.
pub open spec fn cell_tris_sp(ss: Seq<SurfSample>, vs1: int, i: int, j: int) -> Seq<u32> {
    let a = i * vs1 + j;
    let b = i * vs1 + j + 1;
    let c = (i + 1) * vs1 + j + 1;
    let d = (i + 1) * vs1 + j;
    let t1 = if tri_ok_sp(ss[a].p, ss[d].p, ss[b].p) {
        seq![a as u32, d as u32, b as u32]
    } else {
        Seq::<u32>::empty()
    };
    let t2 = if tri_ok_sp(ss[b].p, ss[d].p, ss[c].p) {
        seq![b as u32, d as u32, c as u32]
    } else {
        Seq::<u32>::empty()
    };
    t1 + t2
}

/// The index buffer of the first `c` grid cells, cells enumerated row-major
/// in u: cell `c` is `(c / vs, c % vs)`.
pub open spec fn surf_indices_sp(ss: Seq<SurfSample>, vs: int, c: int) -> Seq<u32>
    decreases c,
{
    if c <= 0 {
        Seq::<u32>::empty()
    } else {
        surf_indices_sp(ss, vs, c - 1) + cell_tris_sp(ss, vs + 1, (c - 1) / vs, (c - 1) % vs)
    }
}

/// A cell contributes zero, three or six indices, so the index buffer of
/// `c` cells is a triangle list of at most `6 c` entries.
pub proof fn lemma_surf_indices_len(ss: Seq<SurfSample>, vs: int, c: int)
    requires
        0 <= c,
    ensures
        surf_indices_sp(ss, vs, c).len() % 3 == 0,
        surf_indices_sp(ss, vs, c).len() <= 6 * c,
    decreases c,
{
    if c > 0 {
        lemma_surf_indices_len(ss, vs, c - 1);
    }
}

/// A forward difference rescaled to derivative size.
pub fn fd_dir(to: Sample3, from: Sample3) -> (r: Vec3)
    requires
        sample3_wf(to),
        sample3_wf(from),
    ensures
        r == fd_dir_sp(to, from),
        vec3_in(r, COORD_LIMIT as int),
{
    proof {
        assert(abs_sp((to.x - from.x) * FD_SCALE) <= SPAN_LIMIT * FD_SCALE < i128::MAX
            && abs_sp((to.y - from.y) * FD_SCALE) <= SPAN_LIMIT * FD_SCALE && abs_sp(
            (to.z - from.z) * FD_SCALE,
        ) <= SPAN_LIMIT * FD_SCALE) by (nonlinear_arith)
            requires
                abs_sp(to.x - from.x) <= SPAN_LIMIT,
                abs_sp(to.y - from.y) <= SPAN_LIMIT,
                abs_sp(to.z - from.z) <= SPAN_LIMIT,
                FD_SCALE as int == 1048576,
        ;
    }
    Vec3 {
        x: clamp_coord128(((to.x - from.x) as i128) * (FD_SCALE as i128)),
        y: clamp_coord128(((to.y - from.y) as i128) * (FD_SCALE as i128)),
        z: clamp_coord128(((to.z - from.z) as i128) * (FD_SCALE as i128)),
    }
}

/// Squared distance between two sampled positions, in ticks squared.
fn dist3_sq(a: Sample3, b: Sample3) -> (r: u128)
    requires
        sample3_wf(a),
        sample3_wf(b),
    ensures
        r == dist3_sq_sp(a, b),
{
    let dx: i64 = b.x - a.x;
    let dy: i64 = b.y - a.y;
    let dz: i64 = b.z - a.z;
    let dxa: u128 = if dx < 0 {
        (-dx) as u128
    } else {
        dx as u128
    };
    let dya: u128 = if dy < 0 {
        (-dy) as u128
    } else {
        dy as u128
    };
    let dza: u128 = if dz < 0 {
        (-dz) as u128
    } else {
        dz as u128
    };
    proof {
        assert(dxa * dxa == (dx as int) * (dx as int) && dya * dya == (dy as int) * (
        dy as int) && dza * dza == (dz as int) * (dz as int) && dxa * dxa + dya * dya + dza
            * dza <= 3 * SPAN_LIMIT * SPAN_LIMIT < u128::MAX) by (nonlinear_arith)
            requires
                dxa == abs_sp(dx as int),
                dya == abs_sp(dy as int),
                dza == abs_sp(dz as int),
                0 <= dxa <= SPAN_LIMIT,
                0 <= dya <= SPAN_LIMIT,
                0 <= dza <= SPAN_LIMIT,
        ;
    }
    dxa * dxa + dya * dya + dza * dza
}

/// Whether a triangle over three samples is kept.
fn tri_ok(a: Sample3, b: Sample3, c: Sample3) -> (r: bool)
    requires
        sample3_wf(a),
        sample3_wf(b),
        sample3_wf(c),
    ensures
        r == tri_ok_sp(a, b, c),
{
    a.finite && b.finite && c.finite && dist3_sq(a, b) <= JUMP_THRESHOLD_SQ && dist3_sq(b, c)
        <= JUMP_THRESHOLD_SQ && dist3_sq(c, a) <= JUMP_THRESHOLD_SQ
}

impl MeshData {
    /// Three axis line segments from the origin: the x, y and z axes, as a
    /// line list.
    pub fn new_axes(length: i64) -> (r: MeshData)
        requires
            abs_sp(length as int) <= COORD_LIMIT,
        ensures
            r.vertices@.len() == 4,
            r.indices@ == seq![0u32, 1u32, 0u32, 2u32, 0u32, 3u32],
            r.vertices@[1].x == length && r.vertices@[2].y == length && r.vertices@[3].z
                == length,
            r.vertices@[0] == (Vertex3D { x: 0, y: 0, z: 0, nx: 0, ny: 0, nz: 0 }),
            mesh_wf(r.vertices@, r.indices@),
            r.indices@.len() % 2 == 0,
    {
        let mut vertices: Vec<Vertex3D> = Vec::new();
        vertices.push(Vertex3D { x: 0, y: 0, z: 0, nx: 0, ny: 0, nz: 0 });
        vertices.push(Vertex3D { x: length, y: 0, z: 0, nx: 0, ny: 0, nz: 0 });
        vertices.push(Vertex3D { x: 0, y: length, z: 0, nx: 0, ny: 0, nz: 0 });
        vertices.push(Vertex3D { x: 0, y: 0, z: length, nx: 0, ny: 0, nz: 0 });
        let mut indices: Vec<u32> = Vec::new();
        indices.push(0);
        indices.push(1);
        indices.push(0);
        indices.push(2);
        indices.push(0);
        indices.push(3);
        proof {
            assert(indices@ =~= seq![0u32, 1u32, 0u32, 2u32, 0u32, 3u32]);
        }
        MeshData { vertices, indices }
    }

    /// A square plane of the given side length in the z = 0 plane, facing
    /// +z, as two triangles.
    pub fn new_plane(size: i64) -> (r: MeshData)
        requires
            0 <= size <= COORD_LIMIT,
        ensures
            r.vertices@.len() == 4,
            r.indices@ == seq![0u32, 1u32, 2u32, 0u32, 2u32, 3u32],
            forall|k: int|
                0 <= k < 4 ==> (#[trigger] r.vertices@[k]).nz == SCALE
                    && r.vertices@[k].z == 0,
            r.vertices@[2].x == size / 2 && r.vertices@[2].y == size / 2,
            mesh_wf(r.vertices@, r.indices@),
            r.indices@.len() % 3 == 0,
    {
        let h: i64 = size / 2;
        let mut vertices: Vec<Vertex3D> = Vec::new();
        vertices.push(Vertex3D { x: -h, y: -h, z: 0, nx: 0, ny: 0, nz: SCALE });
        vertices.push(Vertex3D { x: h, y: -h, z: 0, nx: 0, ny: 0, nz: SCALE });
        vertices.push(Vertex3D { x: h, y: h, z: 0, nx: 0, ny: 0, nz: SCALE });
        vertices.push(Vertex3D { x: -h, y: h, z: 0, nx: 0, ny: 0, nz: SCALE });
        let mut indices: Vec<u32> = Vec::new();
        indices.push(0);
        indices.push(1);
        indices.push(2);
        indices.push(0);
        indices.push(2);
        indices.push(3);
        proof {
            assert(indices@ =~= seq![0u32, 1u32, 2u32, 0u32, 2u32, 3u32]);
        }
        MeshData { vertices, indices }
    }

    /// Mesh a parametric surface (u, v) ↦ position over a regular grid.
    ///
    /// A degenerate domain (empty range or zero segment count) yields an
    /// empty mesh. Otherwise: for a grid of samples of `func` — one per grid
    /// point `(u0 + i * ustep, v0 + j * vstep)`, each a sanitized return
    /// value of `func` there and at its two forward-epsilon neighbors for
    /// the normal — the vertex buffer is the per-sample vertex model, and
    /// the index buffer is exactly the cell scan: two triangles per cell,
    /// each kept if and only if its three corners are valid and no edge
    /// exceeds the jump threshold.
    pub fn new_parametric_surface<F: Fn(i64, i64) -> Sample3>(
        func: F,
        u_range: (i64, i64),
        v_range: (i64, i64),
        u_segments: u32,
        v_segments: u32,
    ) -> (r: MeshData)
        requires
            abs_sp(u_range.0 as int) <= COORD_LIMIT,
            abs_sp(u_range.1 as int) <= COORD_LIMIT,
            abs_sp(v_range.0 as int) <= COORD_LIMIT,
            abs_sp(v_range.1 as int) <= COORD_LIMIT,
            u_segments <= 65534,
            v_segments <= 65534,
            forall|u: i64, v: i64| call_requires(func, (u, v)),
        ensures
            (u_range.1 <= u_range.0 || v_range.1 <= v_range.0 || u_segments == 0
                || v_segments == 0) ==> r.vertices@.len() == 0 && r.indices@.len() == 0,
            (u_range.1 > u_range.0 && v_range.1 > v_range.0 && u_segments > 0 && v_segments
                > 0) ==> exists|ss: Seq<SurfSample>|
                {
                    let us = u_segments as int;
                    let vs = v_segments as int;
                    let ustep = (u_range.1 - u_range.0) as int / us;
                    let vstep = (v_range.1 - v_range.0) as int / vs;
                    &&& (#[trigger] ss.len()) == (u_segments + 1) * (v_segments + 1)
                    &&& (forall|k: int| 0 <= k < ss.len() ==> surf_sample_wf(#[trigger] ss[k]))
                    &&& (forall|i: int, j: int|
                        0 <= i <= us && 0 <= j <= vs ==> surf_sampled(
                            &func,
                            ((u_range.0 as int) + i * ustep) as i64,
                            ((v_range.0 as int) + j * vstep) as i64,
                            #[trigger] ss[i * (vs + 1) + j],
                        ))
                    &&& r.vertices@.len() == ss.len()
                    &&& (forall|k: int|
                        0 <= k < ss.len() ==> r.vertices@[k] == surf_vertex_sp(#[trigger] ss[k]))
                    &&& r.indices@ == surf_indices_sp(
                        ss,
                        v_segments as int,
                        (u_segments * v_segments) as int,
                    )
                },
            mesh_wf(r.vertices@, r.indices@),
            r.indices@.len() % 3 == 0,
            r.indices@.len() <= 6 * (u_segments * v_segments) as int,
    {
        let (u0, u1) = u_range;
        let (v0, v1) = v_range;
        if u1 <= u0 || v1 <= v0 || u_segments == 0 || v_segments == 0 {
            let empty = MeshData { vertices: Vec::new(), indices: Vec::new() };
            return empty;
        }
        let us: usize = u_segments as usize;
        let vs: usize = v_segments as usize;
        let ustep: i64 = (u1 - u0) / (us as i64);
        let vstep: i64 = (v1 - v0) / (vs as i64);
        proof {
            vstd::arithmetic::div_mod::lemma_fundamental_div_mod((u1 - u0) as int, us as int);
            vstd::arithmetic::div_mod::lemma_div_pos_is_pos((u1 - u0) as int, us as int);
            vstd::arithmetic::div_mod::lemma_fundamental_div_mod((v1 - v0) as int, vs as int);
            vstd::arithmetic::div_mod::lemma_div_pos_is_pos((v1 - v0) as int, vs as int);
            assert((us as int + 1) * (vs as int + 1) <= 65535 * 65535) by (nonlinear_arith)
                requires
                    0 < us as int <= 65534,
                    0 < vs as int <= 65534,
            ;
        }
        let us1: usize = us + 1;
        let vs1: usize = vs + 1;
        let nn: usize = us1 * vs1;
        // Sample the grid, each point with its two forward neighbors.
        let mut ss: Vec<SurfSample> = Vec::new();
        let mut k: usize = 0;
        while k < nn
            invariant
                0 <= k <= nn,
                ss@.len() == k,
                forall|m: int| 0 <= m < k ==> surf_sample_wf(#[trigger] ss@[m]),
                nn == us1 * vs1,
                us1 == us + 1,
                vs1 == vs + 1,
                0 < us <= 65534,
                0 < vs <= 65534,
                0 <= ustep,
                0 <= vstep,
                (us as int) * (ustep as int) <= SPAN_LIMIT,
                (vs as int) * (vstep as int) <= SPAN_LIMIT,
                abs_sp(u0 as int) <= COORD_LIMIT,
                abs_sp(v0 as int) <= COORD_LIMIT,
                forall|u: i64, v: i64| call_requires(func, (u, v)),
                forall|m: int|
                    0 <= m < k ==> surf_sampled(
                        &func,
                        ((u0 as int) + ((m / (vs1 as int)) * (ustep as int))) as i64,
                        ((v0 as int) + ((m % (vs1 as int)) * (vstep as int))) as i64,
                        #[trigger] ss@[m],
                    ),
            decreases nn - k,
        {
            let i: usize = k / vs1;
            let j: usize = k % vs1;
            proof {
                vstd::arithmetic::mul::lemma_mul_is_commutative(us1 as int, vs1 as int);
                vstd::arithmetic::div_mod::lemma_multiply_divide_lt(
                    k as int,
                    vs1 as int,
                    us1 as int,
                );
                vstd::arithmetic::div_mod::lemma_mod_division_less_than_divisor(
                    k as int,
                    vs1 as int,
                );
                lemma_step_span(i as int, us as int, ustep as int, SPAN_LIMIT as int);
                lemma_step_span(j as int, vs as int, vstep as int, SPAN_LIMIT as int);
            }
            let u: i64 = u0 + (i as i64) * ustep;
            let v: i64 = v0 + (j as i64) * vstep;
            let p: Sample3 = sanitize3(func(u, v));
            let pu: Sample3 = sanitize3(func(u + SURFACE_EPS, v));
            let pv: Sample3 = sanitize3(func(u, v + SURFACE_EPS));
            let cur: SurfSample = SurfSample { p, pu, pv };
            proof {
                assert(surf_sampled(&func, u, v, cur));
            }
            ss.push(cur);
            k = k + 1;
        }
        let ghost gss = ss@;
        proof {
            assert forall|i: int, j: int|
                0 <= i <= us as int && 0 <= j <= vs as int implies surf_sampled(
                &func,
                ((u0 as int) + i * (ustep as int)) as i64,
                ((v0 as int) + j * (vstep as int)) as i64,
                #[trigger] gss[i * (vs as int + 1) + j],
            ) by {
                let m = i * (vs1 as int) + j;
                assert(0 <= m < nn as int) by (nonlinear_arith)
                    requires
                        0 <= i <= us as int,
                        0 <= j <= vs as int,
                        vs1 as int == vs as int + 1,
                        us as int >= 1,
                        m == i * (vs1 as int) + j,
                        nn as int == (us as int + 1) * (vs1 as int),
                ;
                vstd::arithmetic::div_mod::lemma_fundamental_div_mod_converse_div(
                    m,
                    vs1 as int,
                    i,
                    j,
                );
                vstd::arithmetic::div_mod::lemma_fundamental_div_mod_converse_mod(
                    m,
                    vs1 as int,
                    i,
                    j,
                );
            }
        }
        // Build one vertex per grid point.
        let mut vertices: Vec<Vertex3D> = Vec::new();
        let mut k2: usize = 0;
        while k2 < nn
            invariant
                0 <= k2 <= nn,
                ss@ == gss,
                ss@.len() == nn,
                forall|m: int| 0 <= m < nn ==> surf_sample_wf(#[trigger] gss[m]),
                vertices@.len() == k2,
                forall|m: int|
                    0 <= m < k2 ==> vertices@[m] == surf_vertex_sp(#[trigger] gss[m]),
            decreases nn - k2,
        {
            let s: SurfSample = ss[k2];
            if s.p.finite {
                if s.pu.finite && s.pv.finite {
                    let du: Vec3 = fd_dir(s.pu, s.p);
                    let dv: Vec3 = fd_dir(s.pv, s.p);
                    let n: Vec3 = du.cross_fx(dv).unit();
                    vertices.push(
                        Vertex3D { x: s.p.x, y: s.p.y, z: s.p.z, nx: n.x, ny: n.y, nz: n.z },
                    );
                } else {
                    vertices.push(
                        Vertex3D { x: s.p.x, y: s.p.y, z: s.p.z, nx: 0, ny: 0, nz: SCALE },
                    );
                }
            } else {
                vertices.push(Vertex3D { x: 0, y: 0, z: 0, nx: 0, ny: 0, nz: 0 });
            }
            k2 = k2 + 1;
        }
        // Scan the cells and keep the triangles that pass the validity and
        // jump tests.
        let mut indices: Vec<u32> = Vec::new();
        let mut i: usize = 0;
        while i < us
            invariant
                0 <= i <= us,
                ss@ == gss,
                ss@.len() == nn,
                forall|m: int| 0 <= m < nn ==> surf_sample_wf(#[trigger] gss[m]),
                nn == us1 * vs1,
                us1 == us + 1,
                vs1 == vs + 1,
                0 < us <= 65534,
                0 < vs <= 65534,
                indices@ == surf_indices_sp(gss, vs as int, i as int * vs as int),
                forall|m: int| 0 <= m < indices@.len() ==> (#[trigger] indices@[m]) < nn,
            decreases us - i,
        {
            let mut j: usize = 0;
            while j < vs
                invariant
                    0 <= i < us,
                    0 <= j <= vs,
                    ss@ == gss,
                    ss@.len() == nn,
                    forall|m: int| 0 <= m < nn ==> surf_sample_wf(#[trigger] gss[m]),
                    nn == us1 * vs1,
                    us1 == us + 1,
                    vs1 == vs + 1,
                    0 < us <= 65534,
                    0 < vs <= 65534,
                    indices@ == surf_indices_sp(
                        gss,
                        vs as int,
                        i as int * vs as int + j as int,
                    ),
                    forall|m: int| 0 <= m < indices@.len() ==> (#[trigger] indices@[m]) < nn,
                decreases vs - j,
            {
                proof {
                    assert(0 <= (i as int) * (vs1 as int) && (i as int) * (vs1 as int) <= ((
                    i as int) + 1) * (vs1 as int) && ((i as int) + 1) * (vs1 as int) + (
                    j as int) + 1 <= (us1 as int) * (vs1 as int) - 1) by (nonlinear_arith)
                        requires
                            0 <= (i as int),
                            (i as int) + 1 <= (us1 as int) - 1,
                            0 <= (j as int),
                            (j as int) + 1 <= (vs1 as int) - 1,
                            1 <= (vs1 as int),
                    ;
                }
                let row1: usize = i * vs1;
                let row2: usize = (i + 1) * vs1;
                let a: usize = row1 + j;
                let b: usize = row1 + j + 1;
                let c: usize = row2 + j + 1;
                let d: usize = row2 + j;
                let ghost cc = i as int * vs as int + j as int;
                let ghost pre = indices@;
                proof {
                    vstd::arithmetic::div_mod::lemma_fundamental_div_mod_converse_div(
                        cc,
                        vs as int,
                        i as int,
                        j as int,
                    );
                    vstd::arithmetic::div_mod::lemma_fundamental_div_mod_converse_mod(
                        cc,
                        vs as int,
                        i as int,
                        j as int,
                    );
                    assert(surf_sample_wf(gss[a as int]));
                    assert(surf_sample_wf(gss[b as int]));
                    assert(surf_sample_wf(gss[c as int]));
                    assert(surf_sample_wf(gss[d as int]));
                }
                let sa: SurfSample = ss[a];
                let sb: SurfSample = ss[b];
                let sc: SurfSample = ss[c];
                let sd: SurfSample = ss[d];
                if tri_ok(sa.p, sd.p, sb.p) {
                    indices.push(a as u32);
                    indices.push(d as u32);
                    indices.push(b as u32);
                }
                if tri_ok(sb.p, sd.p, sc.p) {
                    indices.push(b as u32);
                    indices.push(d as u32);
                    indices.push(c as u32);
                }
                proof {
                    assert(indices@ =~= pre + cell_tris_sp(
                        gss,
                        vs1 as int,
                        i as int,
                        j as int,
                    ));
                    assert(indices@ == surf_indices_sp(gss, vs as int, cc + 1));
                }
                j = j + 1;
            }
            proof {
                assert(i as int * vs as int + vs as int == (i + 1) * vs as int)
                    by (nonlinear_arith);
            }
            i = i + 1;
        }
        proof {
            lemma_surf_indices_len(gss, vs as int, (us as int) * (vs as int));
            assert((u_segments * v_segments) as int == (us as int) * (vs as int));
        }
        MeshData { vertices, indices }
    }
}

} // verus!
