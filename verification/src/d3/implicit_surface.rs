//! Marching cubes: an indexed triangle mesh for the isosurface f(x, y, z) = 0.
//!
//! The solver evaluates the scalar field once per grid point, classifies each
//! cell's eight corners by sign, looks the configuration up in the classic
//! edge and triangle tables, and emits one triangle per table triple whose
//! edges all cross the surface, with vertices linearly interpolated along
//! those edges. Per-vertex normals come from the field's numerical gradient.
//! Cells are walked layer by layer; layers are meshed in parallel and merged
//! serially.

use vstd::prelude::*;
use crate::fixed::{
    abs_sp,
    clamp_coord_sp,
    mul_fx,
    mul_fx_sp,
    interp_t0,
    interp_t0_sp,
    lemma_scale_keeps_bound,
    lemma_step_span,
    COORD_LIMIT,
    SCALE,
};
use crate::sample::{Sample, sample_wf, sanitize, sampled3};
use crate::vec3::{Vec3, vec3_in, unit3_sp};
use crate::d2::implicit::SPAN_LIMIT;
use crate::d3::mesh::{Vertex3D, MeshData, mesh_wf};
use crate::d3::implicit_data::{McTables, mc_tables_wf, edge_table_sp, tri_table_sp};
use crate::par::par_map;

verus! {

/// Central-difference step for gradient normals, in ticks (about 1e-6 world
/// units).
pub const GRADIENT_EPS: i64 = 1074;

/// Most cells per axis: a memory and index-width ceiling.
pub const MAX_RESOLUTION: u32 = 256;

/// Offset of corner `c` along x, per the classic corner layout.
pub open spec fn corner_dx(c: int) -> int {
    if c == 1 || c == 2 || c == 5 || c == 6 {
        1
    } else {
        0
    }
}

/// Offset of corner `c` along y.
pub open spec fn corner_dy(c: int) -> int {
    if c >= 4 {
        1
    } else {
        0
    }
}

/// Offset of corner `c` along z.
pub open spec fn corner_dz(c: int) -> int {
    if c == 2 || c == 3 || c == 6 || c == 7 {
        1
    } else {
        0
    }
}

/// First corner of edge `e`.
pub open spec fn edge_ca(e: int) -> int {
    if e < 8 {
        e % 4 + (if e >= 4 {
            4int
        } else {
            0int
        })
    } else {
        e - 8
    }
}

/// Second corner of edge `e`.
pub open spec fn edge_cb(e: int) -> int {
    if e < 8 {
        (e + 1) % 4 + (if e >= 4 {
            4int
        } else {
            0int
        })
    } else {
        e - 4
    }
}

/// Flat index of the grid point at corner `c` of cell `(i, j, k)` in a field
/// sampled on `n1 = n + 1` points per axis, z-major.
pub open spec fn corner_index_sp(n1: int, i: int, j: int, k: int, c: int) -> int {
    (k + corner_dz(c)) * n1 * n1 + (j + corner_dy(c)) * n1 + (i + corner_dx(c))
}

/// The sampled field value at corner `c` of cell `(i, j, k)`.
pub open spec fn corner_val_sp(vals: Seq<Sample>, n1: int, i: int, j: int, k: int, c: int) -> Sample {
    vals[corner_index_sp(n1, i, j, k, c)]
}

/// All eight corner samples of the cell are finite; a cell touching an
/// undefined region is skipped whole.
pub open spec fn cell_finite_sp(vals: Seq<Sample>, n1: int, i: int, j: int, k: int) -> bool {
    &&& corner_val_sp(vals, n1, i, j, k, 0).finite
    &&& corner_val_sp(vals, n1, i, j, k, 1).finite
    &&& corner_val_sp(vals, n1, i, j, k, 2).finite
    &&& corner_val_sp(vals, n1, i, j, k, 3).finite
    &&& corner_val_sp(vals, n1, i, j, k, 4).finite
    &&& corner_val_sp(vals, n1, i, j, k, 5).finite
    &&& corner_val_sp(vals, n1, i, j, k, 6).finite
    &&& corner_val_sp(vals, n1, i, j, k, 7).finite
}

/// The cell's configuration: bit `c` is set when corner `c`'s value is
/// negative (the isovalue is zero).
pub open spec fn cube_index_sp(vals: Seq<Sample>, n1: int, i: int, j: int, k: int) -> int {
    (if corner_val_sp(vals, n1, i, j, k, 0).v < 0 {
        1int
    } else {
        0int
    }) + (if corner_val_sp(vals, n1, i, j, k, 1).v < 0 {
        2int
    } else {
        0int
    }) + (if corner_val_sp(vals, n1, i, j, k, 2).v < 0 {
        4int
    } else {
        0int
    }) + (if corner_val_sp(vals, n1, i, j, k, 3).v < 0 {
        8int
    } else {
        0int
    }) + (if corner_val_sp(vals, n1, i, j, k, 4).v < 0 {
        16int
    } else {
        0int
    }) + (if corner_val_sp(vals, n1, i, j, k, 5).v < 0 {
        32int
    } else {
        0int
    }) + (if corner_val_sp(vals, n1, i, j, k, 6).v < 0 {
        64int
    } else {
        0int
    }) + (if corner_val_sp(vals, n1, i, j, k, 7).v < 0 {
        128int
    } else {
        0int
    })
}

/// World position of corner `c` of cell `(i, j, k)`.
pub open spec fn corner_pos_sp(
    x0: int,
    y0: int,
    z0: int,
    xs: int,
    ys: int,
    zs: int,
    i: int,
    j: int,
    k: int,
    c: int,
) -> Vec3 {
    Vec3 {
        x: (x0 + (i + corner_dx(c)) * xs) as i64,
        y: (y0 + (j + corner_dy(c)) * ys) as i64,
        z: (z0 + (k + corner_dz(c)) * zs) as i64,
    }
}

/// The interpolated surface crossing on edge `e` of cell `(i, j, k)`: the
/// zero crossing of the linear ramp between the edge's corner values, put at
/// the first corner when the two values coincide.
pub open spec fn edge_vertex_sp(
    vals: Seq<Sample>,
    n1: int,
    x0: int,
    y0: int,
    z0: int,
    xs: int,
    ys: int,
    zs: int,
    i: int,
    j: int,
    k: int,
    e: int,
) -> Vec3 {
    let ca = edge_ca(e);
    let cb = edge_cb(e);
    let va = corner_val_sp(vals, n1, i, j, k, ca).v as int;
    let vb = corner_val_sp(vals, n1, i, j, k, cb).v as int;
    let pa = corner_pos_sp(x0, y0, z0, xs, ys, zs, i, j, k, ca);
    let pb = corner_pos_sp(x0, y0, z0, xs, ys, zs, i, j, k, cb);
    let t = interp_t0_sp(va, vb);
    Vec3 {
        x: (pa.x + mul_fx_sp(t, pb.x - pa.x)) as i64,
        y: (pa.y + mul_fx_sp(t, pb.y - pa.y)) as i64,
        z: (pa.z + mul_fx_sp(t, pb.z - pa.z)) as i64,
    }
}

/// Edge `e` may carry a vertex: it is a real edge number, the edge table
/// lists it for this configuration, and its corner values straddle the
/// isovalue.
pub open spec fn edge_ok_sp(
    vals: Seq<Sample>,
    n1: int,
    i: int,
    j: int,
    k: int,
    mask: u16,
    e: int,
) -> bool {
    &&& 0 <= e < 12
    &&& (mask >> (e as usize)) & 1u16 == 1u16
    &&& (corner_val_sp(vals, n1, i, j, k, edge_ca(e)).v < 0) != (corner_val_sp(
        vals,
        n1,
        i,
        j,
        k,
        edge_cb(e),
    ).v < 0)
}

/// The triangle vertices of the cell's table row from triple `t` on: each
/// listed triple whose three edges all pass `edge_ok_sp` contributes its
/// three interpolated vertices; a negative entry ends the row.
pub open spec fn cell_tris_from_sp(
    vals: Seq<Sample>,
    tt: Seq<i8>,
    n1: int,
    x0: int,
    y0: int,
    z0: int,
    xs: int,
    ys: int,
    zs: int,
    i: int,
    j: int,
    k: int,
    ci: int,
    mask: u16,
    t: int,
) -> Seq<Vec3>
    decreases 5 - t,
{
    if t < 0 || t >= 5 {
        Seq::<Vec3>::empty()
    } else {
        let e1 = tt[ci * 16 + 3 * t] as int;
        if e1 < 0 {
            Seq::<Vec3>::empty()
        } else {
            let e2 = tt[ci * 16 + 3 * t + 1] as int;
            let e3 = tt[ci * 16 + 3 * t + 2] as int;
            (if edge_ok_sp(vals, n1, i, j, k, mask, e1) && edge_ok_sp(
                vals,
                n1,
                i,
                j,
                k,
                mask,
                e2,
            ) && edge_ok_sp(vals, n1, i, j, k, mask, e3) {
                seq![
                    edge_vertex_sp(vals, n1, x0, y0, z0, xs, ys, zs, i, j, k, e1),
                    edge_vertex_sp(vals, n1, x0, y0, z0, xs, ys, zs, i, j, k, e2),
                    edge_vertex_sp(vals, n1, x0, y0, z0, xs, ys, zs, i, j, k, e3),
                ]
            } else {
                Seq::<Vec3>::empty()
            }) + cell_tris_from_sp(
                vals,
                tt,
                n1,
                x0,
                y0,
                z0,
                xs,
                ys,
                zs,
                i,
                j,
                k,
                ci,
                mask,
                t + 1,
            )
        }
    }
}

/// The triangle vertices of one cell: empty when a corner sample is
/// non-finite or when the edge table reports no crossing; otherwise the
/// walked table row.
pub open spec fn mc_cell_sp(
    vals: Seq<Sample>,
    et: Seq<u16>,
    tt: Seq<i8>,
    n1: int,
    x0: int,
    y0: int,
    z0: int,
    xs: int,
    ys: int,
    zs: int,
    i: int,
    j: int,
    k: int,
) -> Seq<Vec3> {
    if !cell_finite_sp(vals, n1, i, j, k) {
        Seq::<Vec3>::empty()
    } else {
        let ci = cube_index_sp(vals, n1, i, j, k);
        let mask = et[ci];
        if mask == 0 {
            Seq::<Vec3>::empty()
        } else {
            cell_tris_from_sp(vals, tt, n1, x0, y0, z0, xs, ys, zs, i, j, k, ci, mask, 0)
        }
    }
}

/// The triangle vertices of the first `c` cells of layer `k`, cells
/// enumerated row-major: cell `c` is `(i, j) = (c % n, c / n)`.
pub open spec fn mc_layer_sp(
    vals: Seq<Sample>,
    et: Seq<u16>,
    tt: Seq<i8>,
    n: int,
    x0: int,
    y0: int,
    z0: int,
    xs: int,
    ys: int,
    zs: int,
    k: int,
    c: int,
) -> Seq<Vec3>
    decreases c,
{
    if c <= 0 {
        Seq::<Vec3>::empty()
    } else {
        mc_layer_sp(vals, et, tt, n, x0, y0, z0, xs, ys, zs, k, c - 1) + mc_cell_sp(
            vals,
            et,
            tt,
            n + 1,
            x0,
            y0,
            z0,
            xs,
            ys,
            zs,
            (c - 1) % n,
            (c - 1) / n,
            k,
        )
    }
}

/// The triangle vertices of the first `k` layers.
pub open spec fn mc_verts_sp(
    vals: Seq<Sample>,
    et: Seq<u16>,
    tt: Seq<i8>,
    n: int,
    x0: int,
    y0: int,
    z0: int,
    xs: int,
    ys: int,
    zs: int,
    k: int,
) -> Seq<Vec3>
    decreases k,
{
    if k <= 0 {
        Seq::<Vec3>::empty()
    } else {
        mc_verts_sp(vals, et, tt, n, x0, y0, z0, xs, ys, zs, k - 1) + mc_layer_sp(
            vals,
            et,
            tt,
            n,
            x0,
            y0,
            z0,
            xs,
            ys,
            zs,
            k - 1,
            n * n,
        )
    }
}

/// Well-formed voxel grid parameters.
pub open spec fn grid3_wf(
    n: int,
    x0: int,
    y0: int,
    z0: int,
    xs: int,
    ys: int,
    zs: int,
) -> bool {
    &&& 1 <= n <= MAX_RESOLUTION
    &&& abs_sp(x0) <= COORD_LIMIT
    &&& abs_sp(y0) <= COORD_LIMIT
    &&& abs_sp(z0) <= COORD_LIMIT
    &&& 0 <= xs
    &&& 0 <= ys
    &&& 0 <= zs
    &&& n * xs <= SPAN_LIMIT
    &&& n * ys <= SPAN_LIMIT
    &&& n * zs <= SPAN_LIMIT
}

/// A mesh vertex stands at a model position.
pub open spec fn pos_eq(v: Vertex3D, p: Vec3) -> bool {
    v.x == p.x && v.y == p.y && v.z == p.z
}

/// A walked table row contributes at most three vertices per remaining
/// triple, in threes.
pub proof fn lemma_cell_tris_len(
    vals: Seq<Sample>,
    tt: Seq<i8>,
    n1: int,
    x0: int,
    y0: int,
    z0: int,
    xs: int,
    ys: int,
    zs: int,
    i: int,
    j: int,
    k: int,
    ci: int,
    mask: u16,
    t: int,
)
    ensures
        cell_tris_from_sp(vals, tt, n1, x0, y0, z0, xs, ys, zs, i, j, k, ci, mask, t).len()
            % 3 == 0,
        cell_tris_from_sp(vals, tt, n1, x0, y0, z0, xs, ys, zs, i, j, k, ci, mask, t).len()
            <= 15,
        0 <= t <= 5 ==> cell_tris_from_sp(
            vals,
            tt,
            n1,
            x0,
            y0,
            z0,
            xs,
            ys,
            zs,
            i,
            j,
            k,
            ci,
            mask,
            t,
        ).len() <= 3 * (5 - t),
    decreases 5 - t,
{
    if 0 <= t < 5 {
        lemma_cell_tris_len(vals, tt, n1, x0, y0, z0, xs, ys, zs, i, j, k, ci, mask, t + 1);
    }
}

/// A cell contributes at most fifteen vertices, in threes.
pub proof fn lemma_cell_len(
    vals: Seq<Sample>,
    et: Seq<u16>,
    tt: Seq<i8>,
    n1: int,
    x0: int,
    y0: int,
    z0: int,
    xs: int,
    ys: int,
    zs: int,
    i: int,
    j: int,
    k: int,
)
    ensures
        mc_cell_sp(vals, et, tt, n1, x0, y0, z0, xs, ys, zs, i, j, k).len() % 3 == 0,
        mc_cell_sp(vals, et, tt, n1, x0, y0, z0, xs, ys, zs, i, j, k).len() <= 15,
{
    if cell_finite_sp(vals, n1, i, j, k) {
        let ci = cube_index_sp(vals, n1, i, j, k);
        let mask = et[ci];
        if mask != 0 {
            lemma_cell_tris_len(vals, tt, n1, x0, y0, z0, xs, ys, zs, i, j, k, ci, mask, 0);
        }
    }
}

/// A layer prefix contributes at most fifteen vertices per cell, in threes.
pub proof fn lemma_layer_len(
    vals: Seq<Sample>,
    et: Seq<u16>,
    tt: Seq<i8>,
    n: int,
    x0: int,
    y0: int,
    z0: int,
    xs: int,
    ys: int,
    zs: int,
    k: int,
    c: int,
)
    requires
        0 <= c,
    ensures
        mc_layer_sp(vals, et, tt, n, x0, y0, z0, xs, ys, zs, k, c).len() % 3 == 0,
        mc_layer_sp(vals, et, tt, n, x0, y0, z0, xs, ys, zs, k, c).len() <= 15 * c,
    decreases c,
{
    if c > 0 {
        lemma_layer_len(vals, et, tt, n, x0, y0, z0, xs, ys, zs, k, c - 1);
        lemma_cell_len(
            vals,
            et,
            tt,
            n + 1,
            x0,
            y0,
            z0,
            xs,
            ys,
            zs,
            (c - 1) % n,
            (c - 1) / n,
            k,
        );
    }
}

/// The whole mesh holds at most fifteen vertices per cell of the grid, in
/// threes.
pub proof fn lemma_verts_len(
    vals: Seq<Sample>,
    et: Seq<u16>,
    tt: Seq<i8>,
    n: int,
    x0: int,
    y0: int,
    z0: int,
    xs: int,
    ys: int,
    zs: int,
    k: int,
)
    requires
        0 <= k,
        0 <= n,
    ensures
        mc_verts_sp(vals, et, tt, n, x0, y0, z0, xs, ys, zs, k).len() % 3 == 0,
        mc_verts_sp(vals, et, tt, n, x0, y0, z0, xs, ys, zs, k).len() <= k * (15 * n * n),
    decreases k,
{
    if k > 0 {
        lemma_verts_len(vals, et, tt, n, x0, y0, z0, xs, ys, zs, k - 1);
        lemma_layer_len(vals, et, tt, n, x0, y0, z0, xs, ys, zs, k - 1, n * n);
        assert((k - 1) * (15 * n * n) + 15 * (n * n) == k * (15 * n * n)) by (nonlinear_arith);
    }
}

/// A corner's flat index stays inside the sampled field.
pub proof fn lemma_corner_index_bounds(n1: int, i: int, j: int, k: int, c: int)
    requires
        2 <= n1,
        0 <= i < n1 - 1,
        0 <= j < n1 - 1,
        0 <= k < n1 - 1,
        0 <= c < 8,
    ensures
        0 <= corner_index_sp(n1, i, j, k, c) < n1 * n1 * n1,
{
    let dx = corner_dx(c);
    let dy = corner_dy(c);
    let dz = corner_dz(c);
    assert(0 <= dx <= 1 && 0 <= dy <= 1 && 0 <= dz <= 1);
    assert(0 <= (k + dz) * n1 * n1 + (j + dy) * n1 + (i + dx) < n1 * n1 * n1)
        by (nonlinear_arith)
        requires
            0 <= i + dx <= n1 - 1,
            0 <= j + dy <= n1 - 1,
            0 <= k + dz <= n1 - 1,
            2 <= n1,
    ;
}

/// One sign class across the whole field: every sample negative, or every
/// sample nonnegative.
pub open spec fn uniform_sign(vals: Seq<Sample>) -> bool {
    (forall|m: int| 0 <= m < vals.len() ==> (#[trigger] vals[m]).v < 0) || (forall|m: int|
        0 <= m < vals.len() ==> (#[trigger] vals[m]).v >= 0)
}

/// A cell of a one-sign-class field contributes nothing: its configuration
/// is 0 or 255, and the classic edge table lists no crossing for either.
proof fn lemma_uniform_cell_empty(
    vals: Seq<Sample>,
    tt: Seq<i8>,
    n1: int,
    x0: int,
    y0: int,
    z0: int,
    xs: int,
    ys: int,
    zs: int,
    i: int,
    j: int,
    k: int,
)
    requires
        2 <= n1,
        vals.len() == n1 * n1 * n1,
        0 <= i < n1 - 1,
        0 <= j < n1 - 1,
        0 <= k < n1 - 1,
        uniform_sign(vals),
    ensures
        mc_cell_sp(vals, edge_table_sp(), tt, n1, x0, y0, z0, xs, ys, zs, i, j, k).len()
            == 0,
{
    lemma_corner_index_bounds(n1, i, j, k, 0);
    lemma_corner_index_bounds(n1, i, j, k, 1);
    lemma_corner_index_bounds(n1, i, j, k, 2);
    lemma_corner_index_bounds(n1, i, j, k, 3);
    lemma_corner_index_bounds(n1, i, j, k, 4);
    lemma_corner_index_bounds(n1, i, j, k, 5);
    lemma_corner_index_bounds(n1, i, j, k, 6);
    lemma_corner_index_bounds(n1, i, j, k, 7);
    if cell_finite_sp(vals, n1, i, j, k) {
        let ci = cube_index_sp(vals, n1, i, j, k);
        if forall|m: int| 0 <= m < vals.len() ==> (#[trigger] vals[m]).v < 0 {
            assert(ci == 255);
            assert(edge_table_sp()[255] == 0u16);
        } else {
            assert(forall|m: int| 0 <= m < vals.len() ==> (#[trigger] vals[m]).v >= 0);
            assert(ci == 0);
            assert(edge_table_sp()[0] == 0u16);
        }
    }
}

/// A field with one sign class everywhere meshes to nothing under the
/// classic tables: the isosurface crosses no cell.
pub proof fn lemma_uniform_sign_empty(
    vals: Seq<Sample>,
    tt: Seq<i8>,
    n: int,
    x0: int,
    y0: int,
    z0: int,
    xs: int,
    ys: int,
    zs: int,
    k: int,
)
    requires
        1 <= n,
        vals.len() == (n + 1) * (n + 1) * (n + 1),
        uniform_sign(vals),
        0 <= k <= n,
    ensures
        mc_verts_sp(vals, edge_table_sp(), tt, n, x0, y0, z0, xs, ys, zs, k).len() == 0,
    decreases k,
{
    if k > 0 {
        lemma_uniform_sign_empty(vals, tt, n, x0, y0, z0, xs, ys, zs, k - 1);
        lemma_uniform_layer_empty(vals, tt, n, x0, y0, z0, xs, ys, zs, k - 1, n * n);
    }
}

/// One layer of a one-sign-class field contributes nothing.
proof fn lemma_uniform_layer_empty(
    vals: Seq<Sample>,
    tt: Seq<i8>,
    n: int,
    x0: int,
    y0: int,
    z0: int,
    xs: int,
    ys: int,
    zs: int,
    k: int,
    c: int,
)
    requires
        1 <= n,
        vals.len() == (n + 1) * (n + 1) * (n + 1),
        uniform_sign(vals),
        0 <= k < n,
        0 <= c <= n * n,
    ensures
        mc_layer_sp(vals, edge_table_sp(), tt, n, x0, y0, z0, xs, ys, zs, k, c).len() == 0,
    decreases c,
{
    if c > 0 {
        lemma_uniform_layer_empty(vals, tt, n, x0, y0, z0, xs, ys, zs, k, c - 1);
        let i = (c - 1) % n;
        let j = (c - 1) / n;
        vstd::arithmetic::div_mod::lemma_mod_division_less_than_divisor(c - 1, n);
        vstd::arithmetic::div_mod::lemma_div_pos_is_pos(c - 1, n);
        vstd::arithmetic::div_mod::lemma_multiply_divide_lt(c - 1, n, n);
        lemma_uniform_cell_empty(vals, tt, n + 1, x0, y0, z0, xs, ys, zs, i, j, k);
    }
}

/// The position `p` is the interpolated crossing of some edge of cell
/// `(i, j, k)` that passes `edge_ok_sp` for the mask: its corner values
/// straddle the isovalue.
pub open spec fn tri_vert_from_edge(
    p: Vec3,
    vals: Seq<Sample>,
    n1: int,
    x0: int,
    y0: int,
    z0: int,
    xs: int,
    ys: int,
    zs: int,
    i: int,
    j: int,
    k: int,
    mask: u16,
) -> bool {
    exists|e: int|
        edge_ok_sp(vals, n1, i, j, k, mask, e) && p == #[trigger] edge_vertex_sp(
            vals,
            n1,
            x0,
            y0,
            z0,
            xs,
            ys,
            zs,
            i,
            j,
            k,
            e,
        )
}

/// The position `p` sits on a sign-crossing edge of some cell of the grid,
/// at the interpolated crossing.
pub open spec fn vert_on_crossing(
    p: Vec3,
    vals: Seq<Sample>,
    et: Seq<u16>,
    n: int,
    x0: int,
    y0: int,
    z0: int,
    xs: int,
    ys: int,
    zs: int,
) -> bool {
    exists|i: int, j: int, k: int|
        0 <= i < n && 0 <= j < n && 0 <= k < n && #[trigger] tri_vert_from_edge(
            p,
            vals,
            n + 1,
            x0,
            y0,
            z0,
            xs,
            ys,
            zs,
            i,
            j,
            k,
            et[cube_index_sp(vals, n + 1, i, j, k)],
        )
}

/// Every vertex a cell's table walk emits sits on a sign-crossing edge of
/// that cell, at the interpolated crossing.
proof fn lemma_cell_tris_on_crossings(
    vals: Seq<Sample>,
    tt: Seq<i8>,
    n1: int,
    x0: int,
    y0: int,
    z0: int,
    xs: int,
    ys: int,
    zs: int,
    i: int,
    j: int,
    k: int,
    ci: int,
    mask: u16,
    t: int,
)
    ensures
        forall|m: int|
            0 <= m < cell_tris_from_sp(
                vals,
                tt,
                n1,
                x0,
                y0,
                z0,
                xs,
                ys,
                zs,
                i,
                j,
                k,
                ci,
                mask,
                t,
            ).len() ==> tri_vert_from_edge(
                #[trigger] cell_tris_from_sp(
                    vals,
                    tt,
                    n1,
                    x0,
                    y0,
                    z0,
                    xs,
                    ys,
                    zs,
                    i,
                    j,
                    k,
                    ci,
                    mask,
                    t,
                )[m],
                vals,
                n1,
                x0,
                y0,
                z0,
                xs,
                ys,
                zs,
                i,
                j,
                k,
                mask,
            ),
    decreases 5 - t,
{
    if 0 <= t < 5 {
        lemma_cell_tris_on_crossings(
            vals, tt, n1, x0, y0, z0, xs, ys, zs, i, j, k, ci, mask, t + 1,
        );
        let cur = cell_tris_from_sp(vals, tt, n1, x0, y0, z0, xs, ys, zs, i, j, k, ci, mask, t);
        let rest = cell_tris_from_sp(
            vals, tt, n1, x0, y0, z0, xs, ys, zs, i, j, k, ci, mask, t + 1,
        );
        let e1 = tt[ci * 16 + 3 * t] as int;
        if e1 >= 0 {
            let e2 = tt[ci * 16 + 3 * t + 1] as int;
            let e3 = tt[ci * 16 + 3 * t + 2] as int;
            let head = cur.len() - rest.len();
            assert forall|m: int| 0 <= m < cur.len() implies tri_vert_from_edge(
                #[trigger] cur[m],
                vals,
                n1,
                x0,
                y0,
                z0,
                xs,
                ys,
                zs,
                i,
                j,
                k,
                mask,
            ) by {
                if m >= head {
                    assert(cur[m] == rest[m - head]);
                    assert(tri_vert_from_edge(
                        rest[m - head],
                        vals,
                        n1,
                        x0,
                        y0,
                        z0,
                        xs,
                        ys,
                        zs,
                        i,
                        j,
                        k,
                        mask,
                    ));
                } else {
                    assert(head == 3);
                    if m == 0 {
                        assert(cur[m] == edge_vertex_sp(
                            vals, n1, x0, y0, z0, xs, ys, zs, i, j, k, e1,
                        ));
                    } else if m == 1 {
                        assert(cur[m] == edge_vertex_sp(
                            vals, n1, x0, y0, z0, xs, ys, zs, i, j, k, e2,
                        ));
                    } else {
                        assert(cur[m] == edge_vertex_sp(
                            vals, n1, x0, y0, z0, xs, ys, zs, i, j, k, e3,
                        ));
                    }
                }
            }
        }
    }
}

/// Every triangle vertex of the whole scan sits on a sign-crossing cell
/// edge: the solver never places surface geometry away from a crossing of
/// the sampled field.
pub proof fn lemma_mc_verts_on_crossings(
    vals: Seq<Sample>,
    et: Seq<u16>,
    tt: Seq<i8>,
    n: int,
    x0: int,
    y0: int,
    z0: int,
    xs: int,
    ys: int,
    zs: int,
    k: int,
)
    requires
        0 < n,
        0 <= k <= n,
    ensures
        forall|m: int|
            0 <= m < mc_verts_sp(vals, et, tt, n, x0, y0, z0, xs, ys, zs, k).len()
                ==> vert_on_crossing(
                #[trigger] mc_verts_sp(vals, et, tt, n, x0, y0, z0, xs, ys, zs, k)[m],
                vals,
                et,
                n,
                x0,
                y0,
                z0,
                xs,
                ys,
                zs,
            ),
    decreases k,
{
    if k > 0 {
        lemma_mc_verts_on_crossings(vals, et, tt, n, x0, y0, z0, xs, ys, zs, k - 1);
        lemma_layer_on_crossings(vals, et, tt, n, x0, y0, z0, xs, ys, zs, k - 1, n * n);
        let prev = mc_verts_sp(vals, et, tt, n, x0, y0, z0, xs, ys, zs, k - 1);
        let lay = mc_layer_sp(vals, et, tt, n, x0, y0, z0, xs, ys, zs, k - 1, n * n);
        let cur = mc_verts_sp(vals, et, tt, n, x0, y0, z0, xs, ys, zs, k);
        assert forall|m: int| 0 <= m < cur.len() implies vert_on_crossing(
            #[trigger] cur[m],
            vals,
            et,
            n,
            x0,
            y0,
            z0,
            xs,
            ys,
            zs,
        ) by {
            if m < prev.len() {
                assert(cur[m] == prev[m]);
                assert(vert_on_crossing(prev[m], vals, et, n, x0, y0, z0, xs, ys, zs));
            } else {
                assert(cur[m] == lay[m - prev.len()]);
                assert(vert_on_crossing(
                    lay[m - prev.len()],
                    vals,
                    et,
                    n,
                    x0,
                    y0,
                    z0,
                    xs,
                    ys,
                    zs,
                ));
            }
        }
    }
}

/// Every triangle vertex of one layer's scan sits on a sign-crossing cell
/// edge.
proof fn lemma_layer_on_crossings(
    vals: Seq<Sample>,
    et: Seq<u16>,
    tt: Seq<i8>,
    n: int,
    x0: int,
    y0: int,
    z0: int,
    xs: int,
    ys: int,
    zs: int,
    k: int,
    c: int,
)
    requires
        0 < n,
        0 <= k < n,
        0 <= c <= n * n,
    ensures
        forall|m: int|
            0 <= m < mc_layer_sp(vals, et, tt, n, x0, y0, z0, xs, ys, zs, k, c).len()
                ==> vert_on_crossing(
                #[trigger] mc_layer_sp(vals, et, tt, n, x0, y0, z0, xs, ys, zs, k, c)[m],
                vals,
                et,
                n,
                x0,
                y0,
                z0,
                xs,
                ys,
                zs,
            ),
    decreases c,
{
    if c > 0 {
        lemma_layer_on_crossings(vals, et, tt, n, x0, y0, z0, xs, ys, zs, k, c - 1);
        let i = (c - 1) % n;
        let j = (c - 1) / n;
        vstd::arithmetic::div_mod::lemma_mod_division_less_than_divisor(c - 1, n);
        vstd::arithmetic::div_mod::lemma_div_pos_is_pos(c - 1, n);
        vstd::arithmetic::div_mod::lemma_multiply_divide_lt(c - 1, n, n);
        let prev = mc_layer_sp(vals, et, tt, n, x0, y0, z0, xs, ys, zs, k, c - 1);
        let cell = mc_cell_sp(vals, et, tt, n + 1, x0, y0, z0, xs, ys, zs, i, j, k);
        let cur = mc_layer_sp(vals, et, tt, n, x0, y0, z0, xs, ys, zs, k, c);
        if cell_finite_sp(vals, n + 1, i, j, k) {
            let ci = cube_index_sp(vals, n + 1, i, j, k);
            let mask = et[ci];
            if mask != 0 {
                lemma_cell_tris_on_crossings(
                    vals, tt, n + 1, x0, y0, z0, xs, ys, zs, i, j, k, ci, mask, 0,
                );
            }
        }
        assert forall|m: int| 0 <= m < cur.len() implies vert_on_crossing(
            #[trigger] cur[m],
            vals,
            et,
            n,
            x0,
            y0,
            z0,
            xs,
            ys,
            zs,
        ) by {
            if m < prev.len() {
                assert(cur[m] == prev[m]);
                assert(vert_on_crossing(prev[m], vals, et, n, x0, y0, z0, xs, ys, zs));
            } else {
                assert(cur[m] == cell[m - prev.len()]);
                assert(tri_vert_from_edge(
                    cell[m - prev.len()],
                    vals,
                    n + 1,
                    x0,
                    y0,
                    z0,
                    xs,
                    ys,
                    zs,
                    i,
                    j,
                    k,
                    et[cube_index_sp(vals, n + 1, i, j, k)],
                ));
            }
        }
    }
}

/// A vertex's normal components stay within one fixed-point unit.
pub open spec fn normal_bounded(v: Vertex3D) -> bool {
    abs_sp(v.nx as int) <= SCALE && abs_sp(v.ny as int) <= SCALE && abs_sp(v.nz as int)
        <= SCALE
}

/// First corner of edge `e`.
fn edge_corner_a(e: usize) -> (r: usize)
    requires
        e < 12,
    ensures
        r == edge_ca(e as int),
        r < 8,
{
    match e {
        0 => 0,
        1 => 1,
        2 => 2,
        3 => 3,
        4 => 4,
        5 => 5,
        6 => 6,
        7 => 7,
        8 => 0,
        9 => 1,
        10 => 2,
        _ => 3,
    }
}

/// Second corner of edge `e`.
fn edge_corner_b(e: usize) -> (r: usize)
    requires
        e < 12,
    ensures
        r == edge_cb(e as int),
        r < 8,
{
    match e {
        0 => 1,
        1 => 2,
        2 => 3,
        3 => 0,
        4 => 5,
        5 => 6,
        6 => 7,
        7 => 4,
        8 => 4,
        9 => 5,
        10 => 6,
        _ => 7,
    }
}

/// The grid offsets of corner `c`.
fn corner_offsets(c: usize) -> (r: (usize, usize, usize))
    requires
        c < 8,
    ensures
        r.0 == corner_dx(c as int),
        r.1 == corner_dy(c as int),
        r.2 == corner_dz(c as int),
        r.0 <= 1 && r.1 <= 1 && r.2 <= 1,
{
    match c {
        0 => (0, 0, 0),
        1 => (1, 0, 0),
        2 => (1, 0, 1),
        3 => (0, 0, 1),
        4 => (0, 1, 0),
        5 => (1, 1, 0),
        6 => (1, 1, 1),
        _ => (0, 1, 1),
    }
}

/// The sampled field value at corner `c` of cell `(i, j, k)`.
fn corner_sample(
    vals: &Vec<Sample>,
    n1: usize,
    i: usize,
    j: usize,
    k: usize,
    c: usize,
) -> (s: Sample)
    requires
        c < 8,
        2 <= n1 <= 257,
        i + 1 < n1,
        j + 1 < n1,
        k + 1 < n1,
        vals.len() == n1 * n1 * n1,
    ensures
        s == corner_val_sp(vals@, n1 as int, i as int, j as int, k as int, c as int),
{
    let (dx, dy, dz) = corner_offsets(c);
    proof {
        assert((k as int + dz) * (n1 as int) * (n1 as int) + (j as int + dy) * (n1 as int) + (
        i as int + dx) < (n1 as int) * (n1 as int) * (n1 as int) && 0 <= (k as int + dz) * (
        n1 as int) * (n1 as int) && 0 <= (j as int + dy) * (n1 as int) && 0 <= (k as int + dz)
            * (n1 as int) && (k as int + dz) * (n1 as int) <= (n1 as int) * (n1 as int) && (
        k as int + dz) * (n1 as int) * (n1 as int) + (j as int + dy) * (n1 as int) <= (
        n1 as int) * (n1 as int) * (n1 as int) && (n1 as int) * (n1 as int) <= (n1 as int) * (
        n1 as int) * (n1 as int)) by (nonlinear_arith)
            requires
                0 <= i as int + dx <= (n1 as int) - 1,
                0 <= j as int + dy <= (n1 as int) - 1,
                0 <= k as int + dz <= (n1 as int) - 1,
                2 <= n1 as int,
        ;
    }
    let idx: usize = (k + dz) * n1 * n1 + (j + dy) * n1 + (i + dx);
    vals[idx]
}

/// World position of corner `c` of cell `(i, j, k)`.
fn corner_position(
    x0: i64,
    y0: i64,
    z0: i64,
    xs: i64,
    ys: i64,
    zs: i64,
    n: usize,
    i: usize,
    j: usize,
    k: usize,
    c: usize,
) -> (p: Vec3)
    requires
        c < 8,
        grid3_wf(n as int, x0 as int, y0 as int, z0 as int, xs as int, ys as int, zs as int),
        i < n,
        j < n,
        k < n,
    ensures
        p == corner_pos_sp(
            x0 as int,
            y0 as int,
            z0 as int,
            xs as int,
            ys as int,
            zs as int,
            i as int,
            j as int,
            k as int,
            c as int,
        ),
        vec3_in(p, COORD_LIMIT + SPAN_LIMIT),
{
    let (dx, dy, dz) = corner_offsets(c);
    proof {
        lemma_step_span(i as int + dx, n as int, xs as int, SPAN_LIMIT as int);
        lemma_step_span(j as int + dy, n as int, ys as int, SPAN_LIMIT as int);
        lemma_step_span(k as int + dz, n as int, zs as int, SPAN_LIMIT as int);
    }
    Vec3 {
        x: x0 + ((i + dx) as i64) * xs,
        y: y0 + ((j + dy) as i64) * ys,
        z: z0 + ((k + dz) as i64) * zs,
    }
}

/// Whether edge `e` may carry a vertex for this cell and mask.
fn edge_ok(
    vals: &Vec<Sample>,
    n1: usize,
    i: usize,
    j: usize,
    k: usize,
    mask: u16,
    e: usize,
) -> (b: bool)
    requires
        2 <= n1 <= 257,
        i + 1 < n1,
        j + 1 < n1,
        k + 1 < n1,
        vals.len() == n1 * n1 * n1,
    ensures
        b == edge_ok_sp(vals@, n1 as int, i as int, j as int, k as int, mask, e as int),
{
    if e >= 12 {
        return false;
    }
    if (mask >> e) & 1u16 != 1u16 {
        return false;
    }
    let ca: usize = edge_corner_a(e);
    let cb: usize = edge_corner_b(e);
    let sa: Sample = corner_sample(vals, n1, i, j, k, ca);
    let sb: Sample = corner_sample(vals, n1, i, j, k, cb);
    (sa.v < 0) != (sb.v < 0)
}

/// The interpolated crossing on edge `e` of cell `(i, j, k)`.
fn edge_vertex(
    vals: &Vec<Sample>,
    n1: usize,
    x0: i64,
    y0: i64,
    z0: i64,
    xs: i64,
    ys: i64,
    zs: i64,
    n: usize,
    i: usize,
    j: usize,
    k: usize,
    e: usize,
) -> (p: Vec3)
    requires
        e < 12,
        grid3_wf(n as int, x0 as int, y0 as int, z0 as int, xs as int, ys as int, zs as int),
        n1 == n + 1,
        i < n,
        j < n,
        k < n,
        vals.len() == n1 * n1 * n1,
        forall|m: int| 0 <= m < vals.len() ==> sample_wf(#[trigger] vals[m]),
    ensures
        p == edge_vertex_sp(
            vals@,
            n1 as int,
            x0 as int,
            y0 as int,
            z0 as int,
            xs as int,
            ys as int,
            zs as int,
            i as int,
            j as int,
            k as int,
            e as int,
        ),
        vec3_in(p, 9 * COORD_LIMIT),
{
    let ca: usize = edge_corner_a(e);
    let cb: usize = edge_corner_b(e);
    let sa: Sample = corner_sample(vals, n1, i, j, k, ca);
    let sb: Sample = corner_sample(vals, n1, i, j, k, cb);
    proof {
        lemma_corner_index_bounds(n1 as int, i as int, j as int, k as int, edge_ca(e as int));
        lemma_corner_index_bounds(n1 as int, i as int, j as int, k as int, edge_cb(e as int));
        assert(sample_wf(vals@[corner_index_sp(
            n1 as int,
            i as int,
            j as int,
            k as int,
            edge_ca(e as int),
        )]));
        assert(sample_wf(vals@[corner_index_sp(
            n1 as int,
            i as int,
            j as int,
            k as int,
            edge_cb(e as int),
        )]));
    }
    let pa: Vec3 = corner_position(x0, y0, z0, xs, ys, zs, n, i, j, k, ca);
    let pb: Vec3 = corner_position(x0, y0, z0, xs, ys, zs, n, i, j, k, cb);
    let t: i64 = interp_t0(sa.v, sb.v);
    proof {
        lemma_scale_keeps_bound(t as int, (pb.x - pa.x) as int);
        lemma_scale_keeps_bound(t as int, (pb.y - pa.y) as int);
        lemma_scale_keeps_bound(t as int, (pb.z - pa.z) as int);
    }
    Vec3 {
        x: pa.x + mul_fx(t, pb.x - pa.x),
        y: pa.y + mul_fx(t, pb.y - pa.y),
        z: pa.z + mul_fx(t, pb.z - pa.z),
    }
}

/// Mesh one z-layer of cells: walk each cell of the layer, classify its
/// corners, and emit the table-driven triangles with interpolated vertices
/// and gradient normals.
#[verifier::rlimit(100)]
#[verifier::spinoff_prover]
pub fn mc_layer<F: Fn(i64, i64, i64) -> Sample + Sync + Send>(
    f: &F,
    vals: &Vec<Sample>,
    tables: &McTables,
    n: usize,
    x0: i64,
    y0: i64,
    z0: i64,
    xs: i64,
    ys: i64,
    zs: i64,
    k: usize,
) -> (r: Vec<Vertex3D>)
    requires
        grid3_wf(n as int, x0 as int, y0 as int, z0 as int, xs as int, ys as int, zs as int),
        vals.len() == (n + 1) * (n + 1) * (n + 1),
        forall|m: int| 0 <= m < vals.len() ==> sample_wf(#[trigger] vals[m]),
        mc_tables_wf(tables),
        k < n,
        forall|x: i64, y: i64, z: i64| call_requires(*f, (x, y, z)),
    ensures
        r@.len() == mc_layer_sp(
            vals@,
            tables.edge@,
            tables.tri@,
            n as int,
            x0 as int,
            y0 as int,
            z0 as int,
            xs as int,
            ys as int,
            zs as int,
            k as int,
            (n * n) as int,
        ).len(),
        forall|m: int|
            0 <= m < r@.len() ==> pos_eq(
                #[trigger] r@[m],
                mc_layer_sp(
                    vals@,
                    tables.edge@,
                    tables.tri@,
                    n as int,
                    x0 as int,
                    y0 as int,
                    z0 as int,
                    xs as int,
                    ys as int,
                    zs as int,
                    k as int,
                    (n * n) as int,
                )[m],
            ) && normal_bounded(r@[m]) && vertex_normal_from(f, r@[m]),
{
    let n1: usize = n + 1;
    let ghost gv = vals@;
    let ghost get = tables.edge@;
    let ghost gtt = tables.tri@;
    let mut r: Vec<Vertex3D> = Vec::new();
    let mut j: usize = 0;
    while j < n
        invariant
            grid3_wf(
                n as int,
                x0 as int,
                y0 as int,
                z0 as int,
                xs as int,
                ys as int,
                zs as int,
            ),
            n1 == n + 1,
            vals@ == gv,
            tables.edge@ == get,
            tables.tri@ == gtt,
            vals.len() == n1 * n1 * n1,
            forall|m: int| 0 <= m < vals.len() ==> sample_wf(#[trigger] vals[m]),
            mc_tables_wf(tables),
            k < n,
            forall|x: i64, y: i64, z: i64| call_requires(*f, (x, y, z)),
            0 <= j <= n,
            r@.len() == mc_layer_sp(
                gv,
                get,
                gtt,
                n as int,
                x0 as int,
                y0 as int,
                z0 as int,
                xs as int,
                ys as int,
                zs as int,
                k as int,
                j as int * n as int,
            ).len(),
            forall|m: int|
                0 <= m < r@.len() ==> pos_eq(
                    #[trigger] r@[m],
                    mc_layer_sp(
                        gv,
                        get,
                        gtt,
                        n as int,
                        x0 as int,
                        y0 as int,
                        z0 as int,
                        xs as int,
                        ys as int,
                        zs as int,
                        k as int,
                        j as int * n as int,
                    )[m],
                ) && normal_bounded(r@[m]) && vertex_normal_from(f, r@[m]),
        decreases n - j,
    {
        let mut i: usize = 0;
        while i < n
            invariant
                grid3_wf(
                    n as int,
                    x0 as int,
                    y0 as int,
                    z0 as int,
                    xs as int,
                    ys as int,
                    zs as int,
                ),
                n1 == n + 1,
                vals@ == gv,
                tables.edge@ == get,
                tables.tri@ == gtt,
                vals.len() == n1 * n1 * n1,
                forall|m: int| 0 <= m < vals.len() ==> sample_wf(#[trigger] vals[m]),
                mc_tables_wf(tables),
                k < n,
                forall|x: i64, y: i64, z: i64| call_requires(*f, (x, y, z)),
                0 <= j < n,
                0 <= i <= n,
                r@.len() == mc_layer_sp(
                    gv,
                    get,
                    gtt,
                    n as int,
                    x0 as int,
                    y0 as int,
                    z0 as int,
                    xs as int,
                    ys as int,
                    zs as int,
                    k as int,
                    j as int * n as int + i as int,
                ).len(),
                forall|m: int|
                    0 <= m < r@.len() ==> pos_eq(
                        #[trigger] r@[m],
                        mc_layer_sp(
                            gv,
                            get,
                            gtt,
                            n as int,
                            x0 as int,
                            y0 as int,
                            z0 as int,
                            xs as int,
                            ys as int,
                            zs as int,
                            k as int,
                            j as int * n as int + i as int,
                        )[m],
                    ) && normal_bounded(r@[m]) && vertex_normal_from(f, r@[m]),
            decreases n - i,
        {
            let ghost c = j as int * n as int + i as int;
            let ghost lay_pre = mc_layer_sp(
                gv,
                get,
                gtt,
                n as int,
                x0 as int,
                y0 as int,
                z0 as int,
                xs as int,
                ys as int,
                zs as int,
                k as int,
                c,
            );
            let ghost cell = mc_cell_sp(
                gv,
                get,
                gtt,
                n1 as int,
                x0 as int,
                y0 as int,
                z0 as int,
                xs as int,
                ys as int,
                zs as int,
                i as int,
                j as int,
                k as int,
            );
            let ghost pre = r@;
            proof {
                vstd::arithmetic::div_mod::lemma_fundamental_div_mod_converse_div(
                    c,
                    n as int,
                    j as int,
                    i as int,
                );
                vstd::arithmetic::div_mod::lemma_fundamental_div_mod_converse_mod(
                    c,
                    n as int,
                    j as int,
                    i as int,
                );
            }
            let s0: Sample = corner_sample(vals, n1, i, j, k, 0);
            let s1: Sample = corner_sample(vals, n1, i, j, k, 1);
            let s2: Sample = corner_sample(vals, n1, i, j, k, 2);
            let s3: Sample = corner_sample(vals, n1, i, j, k, 3);
            let s4: Sample = corner_sample(vals, n1, i, j, k, 4);
            let s5: Sample = corner_sample(vals, n1, i, j, k, 5);
            let s6: Sample = corner_sample(vals, n1, i, j, k, 6);
            let s7: Sample = corner_sample(vals, n1, i, j, k, 7);
            if s0.finite && s1.finite && s2.finite && s3.finite && s4.finite && s5.finite
                && s6.finite && s7.finite {
                let mut ci: usize = 0;
                if s0.v < 0 {
                    ci = ci + 1;
                }
                if s1.v < 0 {
                    ci = ci + 2;
                }
                if s2.v < 0 {
                    ci = ci + 4;
                }
                if s3.v < 0 {
                    ci = ci + 8;
                }
                if s4.v < 0 {
                    ci = ci + 16;
                }
                if s5.v < 0 {
                    ci = ci + 32;
                }
                if s6.v < 0 {
                    ci = ci + 64;
                }
                if s7.v < 0 {
                    ci = ci + 128;
                }
                proof {
                    assert(ci as int == cube_index_sp(gv, n1 as int, i as int, j as int, k as int));
                    assert(ci < 256);
                }
                let mask: u16 = tables.edge[ci];
                if mask != 0 {
                    let ghost cellseq = cell_tris_from_sp(
                        gv,
                        gtt,
                        n1 as int,
                        x0 as int,
                        y0 as int,
                        z0 as int,
                        xs as int,
                        ys as int,
                        zs as int,
                        i as int,
                        j as int,
                        k as int,
                        ci as int,
                        mask,
                        0,
                    );
                    proof {
                        assert(cell == cellseq);
                    }
                    let mut t: usize = 0;
                    while t < 5
                        invariant
                            grid3_wf(
                                n as int,
                                x0 as int,
                                y0 as int,
                                z0 as int,
                                xs as int,
                                ys as int,
                                zs as int,
                            ),
                            n1 == n + 1,
                            vals@ == gv,
                            tables.edge@ == get,
                            tables.tri@ == gtt,
                            vals.len() == n1 * n1 * n1,
                            forall|m: int| 0 <= m < vals.len() ==> sample_wf(#[trigger] vals[m]),
                            mc_tables_wf(tables),
                            k < n,
                            i < n,
                            j < n,
                            ci < 256,
                            forall|x: i64, y: i64, z: i64| call_requires(*f, (x, y, z)),
                            0 <= t <= 5,
                            pre.len() <= r@.len(),
                            r@.len() - pre.len() <= cellseq.len(),
                            forall|m: int| 0 <= m < pre.len() ==> #[trigger] r@[m] == pre[m],
                            forall|m: int|
                                pre.len() <= m < r@.len() ==> pos_eq(
                                    #[trigger] r@[m],
                                    cellseq[m - pre.len()],
                                ) && normal_bounded(r@[m]) && vertex_normal_from(f, r@[m]),
                            cell_tris_from_sp(
                                gv,
                                gtt,
                                n1 as int,
                                x0 as int,
                                y0 as int,
                                z0 as int,
                                xs as int,
                                ys as int,
                                zs as int,
                                i as int,
                                j as int,
                                k as int,
                                ci as int,
                                mask,
                                t as int,
                            ) == cellseq.skip(r@.len() - pre.len()),
                        decreases 5 - t,
                    {
                        let ghost d = r@.len() - pre.len();
                        let ghost rem = cell_tris_from_sp(
                            gv,
                            gtt,
                            n1 as int,
                            x0 as int,
                            y0 as int,
                            z0 as int,
                            xs as int,
                            ys as int,
                            zs as int,
                            i as int,
                            j as int,
                            k as int,
                            ci as int,
                            mask,
                            t as int,
                        );
                        let base16: usize = ci * 16 + 3 * t;
                        let e1s: i8 = tables.tri[base16];
                        if e1s < 0 {
                            proof {
                                assert(rem =~= Seq::<Vec3>::empty());
                                assert(cell_tris_from_sp(
                                    gv,
                                    gtt,
                                    n1 as int,
                                    x0 as int,
                                    y0 as int,
                                    z0 as int,
                                    xs as int,
                                    ys as int,
                                    zs as int,
                                    i as int,
                                    j as int,
                                    k as int,
                                    ci as int,
                                    mask,
                                    5,
                                ) =~= cellseq.skip(r@.len() - pre.len()));
                            }
                            t = 5;
                        } else {
                            let e2s: i8 = tables.tri[base16 + 1];
                            let e3s: i8 = tables.tri[base16 + 2];
                            let ghost rest = cell_tris_from_sp(
                                gv,
                                gtt,
                                n1 as int,
                                x0 as int,
                                y0 as int,
                                z0 as int,
                                xs as int,
                                ys as int,
                                zs as int,
                                i as int,
                                j as int,
                                k as int,
                                ci as int,
                                mask,
                                t as int + 1,
                            );
                            let ok: bool = if e2s < 0 || e3s < 0 {
                                false
                            } else {
                                edge_ok(vals, n1, i, j, k, mask, e1s as usize) && edge_ok(
                                    vals,
                                    n1,
                                    i,
                                    j,
                                    k,
                                    mask,
                                    e2s as usize,
                                ) && edge_ok(vals, n1, i, j, k, mask, e3s as usize)
                            };
                            if ok {
                                let e1: usize = e1s as usize;
                                let e2: usize = e2s as usize;
                                let e3: usize = e3s as usize;
                                let p1: Vec3 = edge_vertex(
                                    vals, n1, x0, y0, z0, xs, ys, zs, n, i, j, k, e1,
                                );
                                let nv1: Vec3 = gradient_normal(f, p1);
                                r.push(
                                    Vertex3D {
                                        x: p1.x,
                                        y: p1.y,
                                        z: p1.z,
                                        nx: nv1.x,
                                        ny: nv1.y,
                                        nz: nv1.z,
                                    },
                                );
                                let p2: Vec3 = edge_vertex(
                                    vals, n1, x0, y0, z0, xs, ys, zs, n, i, j, k, e2,
                                );
                                let nv2: Vec3 = gradient_normal(f, p2);
                                r.push(
                                    Vertex3D {
                                        x: p2.x,
                                        y: p2.y,
                                        z: p2.z,
                                        nx: nv2.x,
                                        ny: nv2.y,
                                        nz: nv2.z,
                                    },
                                );
                                let p3: Vec3 = edge_vertex(
                                    vals, n1, x0, y0, z0, xs, ys, zs, n, i, j, k, e3,
                                );
                                let nv3: Vec3 = gradient_normal(f, p3);
                                r.push(
                                    Vertex3D {
                                        x: p3.x,
                                        y: p3.y,
                                        z: p3.z,
                                        nx: nv3.x,
                                        ny: nv3.y,
                                        nz: nv3.z,
                                    },
                                );
                                proof {
                                    assert(rem == seq![
                                        edge_vertex_sp(
                                            gv,
                                            n1 as int,
                                            x0 as int,
                                            y0 as int,
                                            z0 as int,
                                            xs as int,
                                            ys as int,
                                            zs as int,
                                            i as int,
                                            j as int,
                                            k as int,
                                            e1 as int,
                                        ),
                                        edge_vertex_sp(
                                            gv,
                                            n1 as int,
                                            x0 as int,
                                            y0 as int,
                                            z0 as int,
                                            xs as int,
                                            ys as int,
                                            zs as int,
                                            i as int,
                                            j as int,
                                            k as int,
                                            e2 as int,
                                        ),
                                        edge_vertex_sp(
                                            gv,
                                            n1 as int,
                                            x0 as int,
                                            y0 as int,
                                            z0 as int,
                                            xs as int,
                                            ys as int,
                                            zs as int,
                                            i as int,
                                            j as int,
                                            k as int,
                                            e3 as int,
                                        ),
                                    ] + rest);
                                    vstd::seq_lib::lemma_seq_skip_index(cellseq, d, 0);
                                    vstd::seq_lib::lemma_seq_skip_index(cellseq, d, 1);
                                    vstd::seq_lib::lemma_seq_skip_index(cellseq, d, 2);
                                    assert(cellseq[d] == rem[0]);
                                    assert(cellseq[d + 1] == rem[1]);
                                    assert(cellseq[d + 2] == rem[2]);
                                    assert forall|x: int| 0 <= x < rest.len() implies cellseq
                                        .skip(d + 3)[x] == rest[x] by {
                                        vstd::seq_lib::lemma_seq_skip_index(cellseq, d + 3, x);
                                        vstd::seq_lib::lemma_seq_skip_index(cellseq, d, x + 3);
                                        assert(0 <= x + 3 < rem.len());
                                        assert(rem[x + 3] == rest[x]);
                                        assert(cellseq.skip(d)[x + 3] == rem[x + 3]);
                                    }
                                    assert(rest =~= cellseq.skip(d + 3));
                                }
                                t = t + 1;
                            } else {
                                proof {
                                    assert(rem == Seq::<Vec3>::empty() + rest);
                                    assert(rem =~= rest);
                                }
                                t = t + 1;
                            }
                        }
                    }
                    proof {
                        let d = r@.len() - pre.len();
                        assert(cellseq.skip(d).len() == 0);
                        assert(d == cellseq.len());
                    }
                } else {
                    proof {
                        assert(cell =~= Seq::<Vec3>::empty());
                    }
                }
            } else {
                proof {
                    assert(!cell_finite_sp(gv, n1 as int, i as int, j as int, k as int));
                    assert(cell =~= Seq::<Vec3>::empty());
                }
            }
            proof {
                let lay_post = mc_layer_sp(
                    gv,
                    get,
                    gtt,
                    n as int,
                    x0 as int,
                    y0 as int,
                    z0 as int,
                    xs as int,
                    ys as int,
                    zs as int,
                    k as int,
                    c + 1,
                );
                assert(lay_post == lay_pre + cell);
                assert(r@.len() == lay_post.len());
                assert forall|m: int| 0 <= m < r@.len() implies pos_eq(
                    #[trigger] r@[m],
                    lay_post[m],
                ) && normal_bounded(r@[m]) && vertex_normal_from(f, r@[m]) by {
                    if m < pre.len() {
                        assert(r@[m] == pre[m]);
                        assert(lay_post[m] == lay_pre[m]);
                    } else {
                        assert(lay_post[m] == cell[m - pre.len()]);
                    }
                }
            }
            i = i + 1;
        }
        proof {
            assert(j as int * n as int + n as int == (j + 1) * n as int) by (nonlinear_arith);
        }
        j = j + 1;
    }
    r
}

/// The normal `nv` is the unit central-difference gradient of `f` at `p`:
/// for some six return values of `f` at the probe points one epsilon away
/// along each axis, `nv` is the unit vector of their sanitized differences.
pub open spec fn gradient_from<F: Fn(i64, i64, i64) -> Sample>(
    f: &F,
    p: Vec3,
    nv: Vec3,
) -> bool {
    exists|rxp: Sample, rxm: Sample, ryp: Sample, rym: Sample, rzp: Sample, rzm: Sample|
        #![trigger call_ensures(*f, (((p.x + GRADIENT_EPS) as i64), p.y, p.z), rxp),
            call_ensures(*f, (((p.x - GRADIENT_EPS) as i64), p.y, p.z), rxm),
            call_ensures(*f, (p.x, ((p.y + GRADIENT_EPS) as i64), p.z), ryp),
            call_ensures(*f, (p.x, ((p.y - GRADIENT_EPS) as i64), p.z), rym),
            call_ensures(*f, (p.x, p.y, ((p.z + GRADIENT_EPS) as i64)), rzp),
            call_ensures(*f, (p.x, p.y, ((p.z - GRADIENT_EPS) as i64)), rzm)]
        {
            &&& call_ensures(*f, (((p.x + GRADIENT_EPS) as i64), p.y, p.z), rxp)
            &&& call_ensures(*f, (((p.x - GRADIENT_EPS) as i64), p.y, p.z), rxm)
            &&& call_ensures(*f, (p.x, ((p.y + GRADIENT_EPS) as i64), p.z), ryp)
            &&& call_ensures(*f, (p.x, ((p.y - GRADIENT_EPS) as i64), p.z), rym)
            &&& call_ensures(*f, (p.x, p.y, ((p.z + GRADIENT_EPS) as i64)), rzp)
            &&& call_ensures(*f, (p.x, p.y, ((p.z - GRADIENT_EPS) as i64)), rzm)
            &&& nv == unit3_sp(
                Vec3 {
                    x: (clamp_coord_sp(rxp.v as int) - clamp_coord_sp(rxm.v as int)) as i64,
                    y: (clamp_coord_sp(ryp.v as int) - clamp_coord_sp(rym.v as int)) as i64,
                    z: (clamp_coord_sp(rzp.v as int) - clamp_coord_sp(rzm.v as int)) as i64,
                },
            )
        }
}

/// The vertex's normal is the unit central-difference gradient of `f` at
/// the vertex's position.
pub open spec fn vertex_normal_from<F: Fn(i64, i64, i64) -> Sample>(
    f: &F,
    v: Vertex3D,
) -> bool {
    gradient_from(f, Vec3 { x: v.x, y: v.y, z: v.z }, Vec3 { x: v.nx, y: v.ny, z: v.nz })
}

/// The surface normal at `p`: the unit numerical gradient of the field,
/// estimated by central differences.
fn gradient_normal<F: Fn(i64, i64, i64) -> Sample>(f: &F, p: Vec3) -> (nv: Vec3)
    requires
        vec3_in(p, 9 * COORD_LIMIT),
        forall|x: i64, y: i64, z: i64| call_requires(*f, (x, y, z)),
    ensures
        vec3_in(nv, SCALE as int),
        gradient_from(f, p, nv),
{
    let rxp: Sample = f(p.x + GRADIENT_EPS, p.y, p.z);
    let rxm: Sample = f(p.x - GRADIENT_EPS, p.y, p.z);
    let ryp: Sample = f(p.x, p.y + GRADIENT_EPS, p.z);
    let rym: Sample = f(p.x, p.y - GRADIENT_EPS, p.z);
    let rzp: Sample = f(p.x, p.y, p.z + GRADIENT_EPS);
    let rzm: Sample = f(p.x, p.y, p.z - GRADIENT_EPS);
    let vxp: Sample = sanitize(rxp);
    let vxm: Sample = sanitize(rxm);
    let vyp: Sample = sanitize(ryp);
    let vym: Sample = sanitize(rym);
    let vzp: Sample = sanitize(rzp);
    let vzm: Sample = sanitize(rzm);
    let g: Vec3 = Vec3 { x: vxp.v - vxm.v, y: vyp.v - vym.v, z: vzp.v - vzm.v };
    let nv: Vec3 = g.unit();
    proof {
        assert(gradient_from(f, p, nv));
    }
    nv
}

pub struct ImplicitSurfaceSolver;

impl ImplicitSurfaceSolver {
    /// Mesh the isosurface f = 0 with explicit lookup tables.
    ///
    /// A degenerate domain (empty range or zero resolution) yields an empty
    /// mesh. Otherwise: for some grid of sanitized samples of `func`, the
    /// vertex buffer stands exactly at the layer-scan model's positions,
    /// with unit-scale normals, and the index buffer lists the vertices in
    /// order, three per triangle.
    #[verifier::loop_isolation(false)]
    #[verifier::rlimit(100)]
    #[verifier::spinoff_prover]
    pub fn solve_with_tables<F: Fn(i64, i64, i64) -> Sample + Sync + Send>(
        tables: &McTables,
        func: &F,
        x_range: (i64, i64),
        y_range: (i64, i64),
        z_range: (i64, i64),
        resolution: u32,
    ) -> (r: MeshData)
        requires
            abs_sp(x_range.0 as int) <= COORD_LIMIT,
            abs_sp(x_range.1 as int) <= COORD_LIMIT,
            abs_sp(y_range.0 as int) <= COORD_LIMIT,
            abs_sp(y_range.1 as int) <= COORD_LIMIT,
            abs_sp(z_range.0 as int) <= COORD_LIMIT,
            abs_sp(z_range.1 as int) <= COORD_LIMIT,
            resolution <= MAX_RESOLUTION,
            mc_tables_wf(tables),
            forall|x: i64, y: i64, z: i64| call_requires(*func, (x, y, z)),
        ensures
            (x_range.1 <= x_range.0 || y_range.1 <= y_range.0 || z_range.1 <= z_range.0
                || resolution == 0) ==> r.vertices@.len() == 0 && r.indices@.len() == 0,
            (x_range.1 > x_range.0 && y_range.1 > y_range.0 && z_range.1 > z_range.0
                && resolution > 0) ==> exists|gvals: Seq<Sample>|
                {
                    let n = resolution as int;
                    let xs = (x_range.1 - x_range.0) as int / n;
                    let ys = (y_range.1 - y_range.0) as int / n;
                    let zs = (z_range.1 - z_range.0) as int / n;
                    &&& (#[trigger] gvals.len()) == (n + 1) * (n + 1) * (n + 1)
                    &&& (forall|m: int| 0 <= m < gvals.len() ==> sample_wf(#[trigger] gvals[m]))
                    &&& (forall|ii: int, jj: int, kk: int|
                        0 <= ii <= n && 0 <= jj <= n && 0 <= kk <= n ==> sampled3(
                            func,
                            ((x_range.0 as int) + ii * xs) as i64,
                            ((y_range.0 as int) + jj * ys) as i64,
                            ((z_range.0 as int) + kk * zs) as i64,
                            #[trigger] gvals[kk * (n + 1) * (n + 1) + jj * (n + 1) + ii],
                        ))
                    &&& r.vertices@.len() == mc_verts_sp(
                        gvals,
                        tables.edge@,
                        tables.tri@,
                        n,
                        x_range.0 as int,
                        y_range.0 as int,
                        z_range.0 as int,
                        xs,
                        ys,
                        zs,
                        n,
                    ).len()
                    &&& (forall|m: int|
                        0 <= m < r.vertices@.len() ==> pos_eq(
                            #[trigger] r.vertices@[m],
                            mc_verts_sp(
                                gvals,
                                tables.edge@,
                                tables.tri@,
                                n,
                                x_range.0 as int,
                                y_range.0 as int,
                                z_range.0 as int,
                                xs,
                                ys,
                                zs,
                                n,
                            )[m],
                        ) && normal_bounded(r.vertices@[m]) && vertex_normal_from(func, r.vertices@[m]))
                },
            r.indices@.len() == r.vertices@.len(),
            forall|m: int| 0 <= m < r.indices@.len() ==> r.indices@[m] == m as u32,
            mesh_wf(r.vertices@, r.indices@),
            r.indices@.len() % 3 == 0,
    {
        let (x0, x1) = x_range;
        let (y0, y1) = y_range;
        let (z0, z1) = z_range;
        if x1 <= x0 || y1 <= y0 || z1 <= z0 || resolution == 0 {
            let empty = MeshData { vertices: Vec::new(), indices: Vec::new() };
            return empty;
        }
        let n: usize = resolution as usize;
        let xs: i64 = (x1 - x0) / (n as i64);
        let ys: i64 = (y1 - y0) / (n as i64);
        let zs: i64 = (z1 - z0) / (n as i64);
        proof {
            vstd::arithmetic::div_mod::lemma_fundamental_div_mod((x1 - x0) as int, n as int);
            vstd::arithmetic::div_mod::lemma_div_pos_is_pos((x1 - x0) as int, n as int);
            vstd::arithmetic::div_mod::lemma_fundamental_div_mod((y1 - y0) as int, n as int);
            vstd::arithmetic::div_mod::lemma_div_pos_is_pos((y1 - y0) as int, n as int);
            vstd::arithmetic::div_mod::lemma_fundamental_div_mod((z1 - z0) as int, n as int);
            vstd::arithmetic::div_mod::lemma_div_pos_is_pos((z1 - z0) as int, n as int);
        }
        let n1: usize = n + 1;
        proof {
            assert((n1 as int) * (n1 as int) <= 257 * 257 && (n1 as int) * (n1 as int) * (
            n1 as int) <= 257 * 257 * 257 && (n1 as int) * (n1 as int) * (n1 as int) >= (
            n1 as int) * (n1 as int)) by (nonlinear_arith)
                requires
                    2 <= n1 as int <= 257,
            ;
        }
        let n1sq: usize = n1 * n1;
        let nn3: usize = n1sq * n1;
        let evalc = |idx: usize| -> (s: Sample)
            requires
                idx + 1 <= nn3,
                nn3 == n1sq * n1,
                n1sq == n1 * n1,
                n1 == n + 1,
                grid3_wf(
                    n as int,
                    x0 as int,
                    y0 as int,
                    z0 as int,
                    xs as int,
                    ys as int,
                    zs as int,
                ),
                forall|x: i64, y: i64, z: i64| call_requires(*func, (x, y, z)),
            ensures
                sample_wf(s),
                sampled3(
                    func,
                    ((x0 as int) + (((idx as int) % (n1sq as int)) % (n1 as int)) * (
                    xs as int)) as i64,
                    ((y0 as int) + (((idx as int) % (n1sq as int)) / (n1 as int)) * (
                    ys as int)) as i64,
                    ((z0 as int) + ((idx as int) / (n1sq as int)) * (zs as int)) as i64,
                    s,
                ),
            {
                proof {
                    assert(1 <= n1sq) by (nonlinear_arith)
                        requires
                            n1sq == n1 * n1,
                            2 <= n1,
                    ;
                }
                let kz: usize = idx / n1sq;
                let rem: usize = idx % n1sq;
                let jy: usize = rem / n1;
                let ix: usize = rem % n1;
                proof {
                    vstd::arithmetic::mul::lemma_mul_is_commutative(n1sq as int, n1 as int);
                    vstd::arithmetic::div_mod::lemma_multiply_divide_lt(
                        idx as int,
                        n1sq as int,
                        n1 as int,
                    );
                    vstd::arithmetic::div_mod::lemma_mod_division_less_than_divisor(
                        idx as int,
                        n1sq as int,
                    );
                    vstd::arithmetic::mul::lemma_mul_is_commutative(n1 as int, n1 as int);
                    vstd::arithmetic::div_mod::lemma_multiply_divide_lt(
                        rem as int,
                        n1 as int,
                        n1 as int,
                    );
                    vstd::arithmetic::div_mod::lemma_mod_division_less_than_divisor(
                        rem as int,
                        n1 as int,
                    );
                    lemma_step_span(ix as int, n as int, xs as int, SPAN_LIMIT as int);
                    lemma_step_span(jy as int, n as int, ys as int, SPAN_LIMIT as int);
                    lemma_step_span(kz as int, n as int, zs as int, SPAN_LIMIT as int);
                }
                let x: i64 = x0 + (ix as i64) * xs;
                let y: i64 = y0 + (jy as i64) * ys;
                let z: i64 = z0 + (kz as i64) * zs;
                let raw: Sample = func(x, y, z);
                let out: Sample = sanitize(raw);
                proof {
                    assert(sampled3(func, x, y, z, out));
                }
                out
            };
        let vals: Vec<Sample> = par_map(nn3, evalc);
        proof {
            assert forall|ii: int, jj: int, kk: int|
                0 <= ii <= n as int && 0 <= jj <= n as int && 0 <= kk <= n as int
                implies sampled3(
                func,
                ((x0 as int) + ii * (xs as int)) as i64,
                ((y0 as int) + jj * (ys as int)) as i64,
                ((z0 as int) + kk * (zs as int)) as i64,
                #[trigger] vals@[kk * (n as int + 1) * (n as int + 1) + jj * (n as int + 1)
                    + ii],
            ) by {
                let rem = jj * (n1 as int) + ii;
                let k = kk * (n1sq as int) + rem;
                assert(0 <= rem < n1sq as int && 0 <= k < nn3 as int) by (nonlinear_arith)
                    requires
                        0 <= ii <= n as int,
                        0 <= jj <= n as int,
                        0 <= kk <= n as int,
                        n1 as int == n as int + 1,
                        n1sq as int == (n1 as int) * (n1 as int),
                        nn3 as int == (n1sq as int) * (n1 as int),
                        rem == jj * (n1 as int) + ii,
                        k == kk * (n1sq as int) + rem,
                ;
                vstd::arithmetic::div_mod::lemma_fundamental_div_mod_converse_div(
                    k,
                    n1sq as int,
                    kk,
                    rem,
                );
                vstd::arithmetic::div_mod::lemma_fundamental_div_mod_converse_mod(
                    k,
                    n1sq as int,
                    kk,
                    rem,
                );
                vstd::arithmetic::div_mod::lemma_fundamental_div_mod_converse_div(
                    rem,
                    n1 as int,
                    jj,
                    ii,
                );
                vstd::arithmetic::div_mod::lemma_fundamental_div_mod_converse_mod(
                    rem,
                    n1 as int,
                    jj,
                    ii,
                );
                assert(kk * (n as int + 1) * (n as int + 1) + jj * (n as int + 1) + ii == k)
                    by (nonlinear_arith)
                    requires
                        n1 as int == n as int + 1,
                        n1sq as int == (n1 as int) * (n1 as int),
                        rem == jj * (n1 as int) + ii,
                        k == kk * (n1sq as int) + rem,
                ;
                assert(call_ensures(evalc, (k as usize,), vals@[k]));
            }
        }
        let ghost gv = vals@;
        let ghost get = tables.edge@;
        let ghost gtt = tables.tri@;
        let layc = |kk: usize| -> (lr: Vec<Vertex3D>)
            requires
                kk + 1 <= n,
                grid3_wf(
                    n as int,
                    x0 as int,
                    y0 as int,
                    z0 as int,
                    xs as int,
                    ys as int,
                    zs as int,
                ),
                vals.len() == (n + 1) * (n + 1) * (n + 1),
                forall|m: int| 0 <= m < vals.len() ==> sample_wf(#[trigger] vals[m]),
                mc_tables_wf(tables),
                forall|x: i64, y: i64, z: i64| call_requires(*func, (x, y, z)),
            ensures
                lr@.len() == mc_layer_sp(
                    vals@,
                    tables.edge@,
                    tables.tri@,
                    n as int,
                    x0 as int,
                    y0 as int,
                    z0 as int,
                    xs as int,
                    ys as int,
                    zs as int,
                    kk as int,
                    (n * n) as int,
                ).len(),
                forall|m: int|
                    0 <= m < lr@.len() ==> pos_eq(
                        #[trigger] lr@[m],
                        mc_layer_sp(
                            vals@,
                            tables.edge@,
                            tables.tri@,
                            n as int,
                            x0 as int,
                            y0 as int,
                            z0 as int,
                            xs as int,
                            ys as int,
                            zs as int,
                            kk as int,
                            (n * n) as int,
                        )[m],
                    ) && normal_bounded(lr@[m]) && vertex_normal_from(func, lr@[m]),
            {
                mc_layer(func, &vals, tables, n, x0, y0, z0, xs, ys, zs, kk)
            };
        let parts: Vec<Vec<Vertex3D>> = par_map(n, layc);
        // Serial merge: concatenate the layers' vertex runs in order.
        let mut vertices: Vec<Vertex3D> = Vec::new();
        let mut kk: usize = 0;
        while kk < n
            invariant
                0 <= kk <= n,
                parts@.len() == n,
                vals@ == gv,
                tables.edge@ == get,
                tables.tri@ == gtt,
                forall|m: int|
                    0 <= m < n ==> call_ensures(layc, (m as usize,), #[trigger] parts@[m]),
                vertices@.len() == mc_verts_sp(
                    gv,
                    get,
                    gtt,
                    n as int,
                    x0 as int,
                    y0 as int,
                    z0 as int,
                    xs as int,
                    ys as int,
                    zs as int,
                    kk as int,
                ).len(),
                forall|m: int|
                    0 <= m < vertices@.len() ==> pos_eq(
                        #[trigger] vertices@[m],
                        mc_verts_sp(
                            gv,
                            get,
                            gtt,
                            n as int,
                            x0 as int,
                            y0 as int,
                            z0 as int,
                            xs as int,
                            ys as int,
                            zs as int,
                            kk as int,
                        )[m],
                    ) && normal_bounded(vertices@[m]) && vertex_normal_from(func, vertices@[m]),
            decreases n - kk,
        {
            let ghost before = mc_verts_sp(
                gv,
                get,
                gtt,
                n as int,
                x0 as int,
                y0 as int,
                z0 as int,
                xs as int,
                ys as int,
                zs as int,
                kk as int,
            );
            let ghost lay = mc_layer_sp(
                gv,
                get,
                gtt,
                n as int,
                x0 as int,
                y0 as int,
                z0 as int,
                xs as int,
                ys as int,
                zs as int,
                kk as int,
                (n * n) as int,
            );
            let ghost prev = vertices@;
            proof {
                assert(call_ensures(layc, (kk,), parts@[kk as int]));
                assert(parts@[kk as int]@.len() == lay.len());
            }
            let part: &Vec<Vertex3D> = &parts[kk];
            let mut m: usize = 0;
            while m < part.len()
                invariant
                    0 <= m <= part.len(),
                    part@.len() == lay.len(),
                    forall|x: int|
                        0 <= x < part@.len() ==> pos_eq(#[trigger] part@[x], lay[x])
                            && normal_bounded(part@[x]) && vertex_normal_from(func, part@[x]),
                    vertices@.len() == prev.len() + m,
                    forall|x: int| 0 <= x < prev.len() ==> #[trigger] vertices@[x] == prev[x],
                    forall|x: int|
                        prev.len() <= x < vertices@.len() ==> #[trigger] vertices@[x]
                            == part@[x - prev.len()],
                decreases part.len() - m,
            {
                let v: Vertex3D = part[m];
                vertices.push(v);
                m = m + 1;
            }
            proof {
                let after = mc_verts_sp(
                    gv,
                    get,
                    gtt,
                    n as int,
                    x0 as int,
                    y0 as int,
                    z0 as int,
                    xs as int,
                    ys as int,
                    zs as int,
                    kk as int + 1,
                );
                assert(after == before + lay);
                assert(vertices@.len() == after.len());
                assert forall|x: int| 0 <= x < vertices@.len() implies pos_eq(
                    #[trigger] vertices@[x],
                    after[x],
                ) && normal_bounded(vertices@[x]) && vertex_normal_from(func, vertices@[x]) by {
                    if x < prev.len() {
                        assert(vertices@[x] == prev[x]);
                        assert(after[x] == before[x]);
                    } else {
                        assert(vertices@[x] == part@[x - prev.len()]);
                        assert(after[x] == lay[x - prev.len()]);
                    }
                }
            }
            kk = kk + 1;
        }
        // The index buffer lists the vertices in emission order.
        proof {
            lemma_verts_len(
                gv,
                get,
                gtt,
                n as int,
                x0 as int,
                y0 as int,
                z0 as int,
                xs as int,
                ys as int,
                zs as int,
                n as int,
            );
            assert((n as int) * (15 * (n as int) * (n as int)) <= 256 * (15 * 256 * 256))
                by (nonlinear_arith)
                requires
                    1 <= n as int <= 256,
            ;
        }
        let total: usize = vertices.len();
        let mut indices: Vec<u32> = Vec::new();
        let mut m2: usize = 0;
        while m2 < total
            invariant
                0 <= m2 <= total,
                total == vertices.len(),
                total <= 251658240,
                indices@.len() == m2,
                forall|x: int| 0 <= x < m2 ==> #[trigger] indices@[x] == x as u32,
            decreases total - m2,
        {
            indices.push(m2 as u32);
            m2 = m2 + 1;
        }
        MeshData { vertices, indices }
    }

    /// Mesh the isosurface f(x, y, z) = 0 over the given ranges at the given
    /// voxel resolution, with the classic lookup tables.
    ///
    /// A degenerate domain yields an empty mesh. Otherwise: for a grid of
    /// samples of `func`, one per grid point, each a sanitized return value
    /// of `func` there, the vertex buffer stands exactly at the positions of
    /// the layer-scan model over the classic spec-level tables, with
    /// unit-scale normals, and the index buffer lists the vertices in order,
    /// three per triangle.
    pub fn solve<F: Fn(i64, i64, i64) -> Sample + Sync + Send>(
        func: &F,
        x_range: (i64, i64),
        y_range: (i64, i64),
        z_range: (i64, i64),
        resolution: u32,
    ) -> (r: MeshData)
        requires
            abs_sp(x_range.0 as int) <= COORD_LIMIT,
            abs_sp(x_range.1 as int) <= COORD_LIMIT,
            abs_sp(y_range.0 as int) <= COORD_LIMIT,
            abs_sp(y_range.1 as int) <= COORD_LIMIT,
            abs_sp(z_range.0 as int) <= COORD_LIMIT,
            abs_sp(z_range.1 as int) <= COORD_LIMIT,
            resolution <= MAX_RESOLUTION,
            forall|x: i64, y: i64, z: i64| call_requires(*func, (x, y, z)),
        ensures
            (x_range.1 <= x_range.0 || y_range.1 <= y_range.0 || z_range.1 <= z_range.0
                || resolution == 0) ==> r.vertices@.len() == 0 && r.indices@.len() == 0,
            (x_range.1 > x_range.0 && y_range.1 > y_range.0 && z_range.1 > z_range.0
                && resolution > 0) ==> exists|gvals: Seq<Sample>|
                {
                    let n = resolution as int;
                    let xs = (x_range.1 - x_range.0) as int / n;
                    let ys = (y_range.1 - y_range.0) as int / n;
                    let zs = (z_range.1 - z_range.0) as int / n;
                    &&& (#[trigger] gvals.len()) == (n + 1) * (n + 1) * (n + 1)
                    &&& (forall|m: int| 0 <= m < gvals.len() ==> sample_wf(#[trigger] gvals[m]))
                    &&& (forall|ii: int, jj: int, kk: int|
                        0 <= ii <= n && 0 <= jj <= n && 0 <= kk <= n ==> sampled3(
                            func,
                            ((x_range.0 as int) + ii * xs) as i64,
                            ((y_range.0 as int) + jj * ys) as i64,
                            ((z_range.0 as int) + kk * zs) as i64,
                            #[trigger] gvals[kk * (n + 1) * (n + 1) + jj * (n + 1) + ii],
                        ))
                    &&& r.vertices@.len() == mc_verts_sp(
                        gvals,
                        edge_table_sp(),
                        tri_table_sp(),
                        n,
                        x_range.0 as int,
                        y_range.0 as int,
                        z_range.0 as int,
                        xs,
                        ys,
                        zs,
                        n,
                    ).len()
                    &&& (forall|m: int|
                        0 <= m < r.vertices@.len() ==> pos_eq(
                            #[trigger] r.vertices@[m],
                            mc_verts_sp(
                                gvals,
                                edge_table_sp(),
                                tri_table_sp(),
                                n,
                                x_range.0 as int,
                                y_range.0 as int,
                                z_range.0 as int,
                                xs,
                                ys,
                                zs,
                                n,
                            )[m],
                        ) && normal_bounded(r.vertices@[m]) && vertex_normal_from(func, r.vertices@[m]))
                },
            r.indices@.len() == r.vertices@.len(),
            forall|m: int| 0 <= m < r.indices@.len() ==> r.indices@[m] == m as u32,
            mesh_wf(r.vertices@, r.indices@),
            r.indices@.len() % 3 == 0,
    {
        let tables: McTables = McTables::new();
        let r = Self::solve_with_tables(&tables, func, x_range, y_range, z_range, resolution);
        proof {
            assert(tables.edge@ == edge_table_sp());
            assert(tables.tri@ == tri_table_sp());
        }
        r
    }
}

} // verus!
