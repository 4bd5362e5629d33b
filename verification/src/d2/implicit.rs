//! Implicit curve solver: root-finding for f(x, y) = 0 on a grid.
//!
//! The solver evaluates the field on a clamped-resolution grid and, for every
//! grid edge whose endpoint values change sign, emits one point at the
//! linearly interpolated zero crossing. The output is a point cloud, not a
//! connected polyline.

use vstd::prelude::*;
use crate::fixed::{
    abs_sp,
    mul_fx,
    mul_fx_sp,
    interp_t,
    interp_t_sp,
    lemma_scale_keeps_bound,
    lemma_step_span,
    lemma_unit_scale_range,
    COORD_LIMIT,
    MUL_LIMIT,
    SCALE,
};
use crate::sample::{Sample, sample_wf, sanitize, sampled2};
use crate::d2::common::Vertex;
use crate::par::par_map;

verus! {

/// Fewest grid cells per axis.
pub const GRID_MIN: usize = 100;

/// Most grid cells per axis; a performance ceiling.
pub const GRID_MAX: usize = 700;

/// Largest representable range length: twice `COORD_LIMIT`.
pub const SPAN_LIMIT: i64 = 8796093022208;

/// Grid resolution for one axis: half the screen dimension in pixels, kept
/// between `GRID_MIN` and `GRID_MAX`.
pub open spec fn grid_res_sp(d: int) -> int {
    if d / 2 < GRID_MIN {
        GRID_MIN as int
    } else if d / 2 > GRID_MAX {
        GRID_MAX as int
    } else {
        d / 2
    }
}

/// Clamped per-axis grid resolution.
pub fn grid_res(d: u32) -> (r: usize)
    ensures
        r == grid_res_sp(d as int),
        GRID_MIN <= r <= GRID_MAX,
{
    let half: u32 = d / 2;
    if half < 100 {
        100
    } else if half > 700 {
        700
    } else {
        half as usize
    }
}

/// Well-formed grid parameters: positive clamped resolutions, in-range
/// origin, and nonnegative steps whose total span stays representable.
pub open spec fn grid_wf(gw: int, gh: int, x0: int, y0: int, xs: int, ys: int) -> bool {
    &&& GRID_MIN <= gw <= GRID_MAX
    &&& GRID_MIN <= gh <= GRID_MAX
    &&& abs_sp(x0) <= COORD_LIMIT
    &&& abs_sp(y0) <= COORD_LIMIT
    &&& 0 <= xs
    &&& 0 <= ys
    &&& gw * xs <= SPAN_LIMIT
    &&& gh * ys <= SPAN_LIMIT
}

/// The points one cell contributes: at most one on its bottom edge and one on
/// its left edge, each where the field values at the edge's endpoints have a
/// sign change (`v0 * v1 <= 0`) and both are finite.
pub open spec fn cell_pts_sp(
    vals: Seq<Sample>,
    gh1: int,
    i: int,
    j: int,
    x0: int,
    y0: int,
    xs: int,
    ys: int,
) -> Seq<Vertex> {
    let v00 = vals[i * gh1 + j];
    let v10 = vals[(i + 1) * gh1 + j];
    let v01 = vals[i * gh1 + j + 1];
    let h = if v00.finite && v10.finite && (v00.v as int) * (v10.v as int) <= 0 {
        seq![
            Vertex {
                x: (x0 + i * xs + mul_fx_sp(interp_t_sp(v00.v as int, v10.v as int), xs)) as i64,
                y: (y0 + j * ys) as i64,
            },
        ]
    } else {
        Seq::<Vertex>::empty()
    };
    let v = if v00.finite && v01.finite && (v00.v as int) * (v01.v as int) <= 0 {
        seq![
            Vertex {
                x: (x0 + i * xs) as i64,
                y: (y0 + j * ys + mul_fx_sp(interp_t_sp(v00.v as int, v01.v as int), ys)) as i64,
            },
        ]
    } else {
        Seq::<Vertex>::empty()
    };
    h + v
}

/// All points of the first `c` cells, cells enumerated column-major: cell `c`
/// is column `c / gh`, row `c % gh`.
pub open spec fn scan_sp(
    vals: Seq<Sample>,
    gw: int,
    gh: int,
    x0: int,
    y0: int,
    xs: int,
    ys: int,
    c: int,
) -> Seq<Vertex>
    decreases c,
{
    if c <= 0 {
        Seq::<Vertex>::empty()
    } else {
        scan_sp(vals, gw, gh, x0, y0, xs, ys, c - 1) + cell_pts_sp(
            vals,
            gh + 1,
            (c - 1) / gh,
            (c - 1) % gh,
            x0,
            y0,
            xs,
            ys,
        )
    }
}

/// The point `p` comes from one cell of the grid: it stands in that cell's
/// contribution, so it sits on a cell edge whose endpoint values are finite
/// and bracket zero, at the interpolated crossing.
pub open spec fn point_on_crossing(
    p: Vertex,
    vals: Seq<Sample>,
    gw: int,
    gh: int,
    x0: int,
    y0: int,
    xs: int,
    ys: int,
) -> bool {
    exists|i: int, j: int|
        0 <= i < gw && 0 <= j < gh && #[trigger] cell_pts_sp(
            vals,
            gh + 1,
            i,
            j,
            x0,
            y0,
            xs,
            ys,
        ).contains(p)
}

/// Every point of the scan lies on a sign-crossing cell edge: the solver
/// never emits a point away from a zero crossing of the sampled field.
pub proof fn lemma_scan_points_on_crossings(
    vals: Seq<Sample>,
    gw: int,
    gh: int,
    x0: int,
    y0: int,
    xs: int,
    ys: int,
    c: int,
)
    requires
        0 < gh,
        0 <= c <= gw * gh,
    ensures
        forall|k: int|
            0 <= k < scan_sp(vals, gw, gh, x0, y0, xs, ys, c).len()
                ==> point_on_crossing(
                #[trigger] scan_sp(vals, gw, gh, x0, y0, xs, ys, c)[k],
                vals,
                gw,
                gh,
                x0,
                y0,
                xs,
                ys,
            ),
    decreases c,
{
    if c > 0 {
        lemma_scan_points_on_crossings(vals, gw, gh, x0, y0, xs, ys, c - 1);
        let prev = scan_sp(vals, gw, gh, x0, y0, xs, ys, c - 1);
        let cur = scan_sp(vals, gw, gh, x0, y0, xs, ys, c);
        let i = (c - 1) / gh;
        let j = (c - 1) % gh;
        let cell = cell_pts_sp(vals, gh + 1, i, j, x0, y0, xs, ys);
        vstd::arithmetic::div_mod::lemma_mod_division_less_than_divisor(c - 1, gh);
        vstd::arithmetic::div_mod::lemma_div_pos_is_pos(c - 1, gh);
        vstd::arithmetic::mul::lemma_mul_is_commutative(gw, gh);
        vstd::arithmetic::div_mod::lemma_multiply_divide_lt(c - 1, gh, gw);
        assert forall|k: int| 0 <= k < cur.len() implies point_on_crossing(
            cur[k],
            vals,
            gw,
            gh,
            x0,
            y0,
            xs,
            ys,
        ) by {
            if k < prev.len() {
                assert(cur[k] == prev[k]);
            } else {
                assert(cur[k] == cell[k - prev.len()]);
                assert(cell.contains(cur[k]));
            }
        }
    }
}

/// Each cell contributes at most two points, so the scan of `c` cells holds
/// at most `2 c` points; with the clamped resolutions the buffer can never
/// outgrow the performance ceiling, whatever the screen size.
pub proof fn lemma_scan_len(
    vals: Seq<Sample>,
    gw: int,
    gh: int,
    x0: int,
    y0: int,
    xs: int,
    ys: int,
    c: int,
)
    requires
        0 <= c,
    ensures
        scan_sp(vals, gw, gh, x0, y0, xs, ys, c).len() <= 2 * c,
    decreases c,
{
    if c > 0 {
        lemma_scan_len(vals, gw, gh, x0, y0, xs, ys, c - 1);
    }
}

/// An interpolated crossing stays on its edge: for a parameter in
/// `[0, SCALE]` and a nonnegative step, the emitted coordinate lies between
/// the edge's two endpoints.
pub proof fn lemma_crossing_on_edge(base: int, t: int, step: int)
    requires
        0 <= t <= SCALE,
        0 <= step <= MUL_LIMIT,
    ensures
        base <= base + mul_fx_sp(t, step) <= base + step,
{
    lemma_unit_scale_range(t, step);
}

pub struct ImplicitSolver {}

impl ImplicitSolver {
    pub fn new() -> (s: Self) {
        Self {  }
    }

    /// Emit the zero-crossing points of a sampled grid.
    ///
    /// `vals` holds the field on the `(gw + 1) x (gh + 1)` grid points,
    /// column-major (`vals[i * (gh + 1) + j]` is the value at
    /// `(x0 + i * xs, y0 + j * ys)`). The result is exactly the point
    /// sequence of the scan model.
    pub fn build_points(
        &self,
        vals: &Vec<Sample>,
        gw: usize,
        gh: usize,
        x0: i64,
        y0: i64,
        xs: i64,
        ys: i64,
    ) -> (r: Vec<Vertex>)
        requires
            grid_wf(gw as int, gh as int, x0 as int, y0 as int, xs as int, ys as int),
            vals.len() == (gw + 1) * (gh + 1),
            forall|k: int| 0 <= k < vals.len() ==> sample_wf(#[trigger] vals[k]),
        ensures
            r@ == scan_sp(
                vals@,
                gw as int,
                gh as int,
                x0 as int,
                y0 as int,
                xs as int,
                ys as int,
                (gw * gh) as int,
            ),
    {
        let ghost gvals = vals@;
        let gh1: usize = gh + 1;
        let mut r: Vec<Vertex> = Vec::new();
        let mut i: usize = 0;
        while i < gw
            invariant
                grid_wf(gw as int, gh as int, x0 as int, y0 as int, xs as int, ys as int),
                vals@ == gvals,
                vals.len() == (gw + 1) * (gh + 1),
                forall|k: int| 0 <= k < vals.len() ==> sample_wf(#[trigger] vals[k]),
                gh1 == gh + 1,
                0 <= i <= gw,
                r@ == scan_sp(
                    gvals,
                    gw as int,
                    gh as int,
                    x0 as int,
                    y0 as int,
                    xs as int,
                    ys as int,
                    i as int * gh as int,
                ),
            decreases gw - i,
        {
            proof {
                lemma_step_span(i as int, gw as int, xs as int, SPAN_LIMIT as int);
                assert((i + 1) * (gh1 as int) <= (gw + 1) * (gh1 as int)) by (nonlinear_arith)
                    requires
                        0 <= i < gw,
                        gh1 == gh + 1,
                ;
            }
            let xi: i64 = x0 + (i as i64) * xs;
            let mut j: usize = 0;
            while j < gh
                invariant
                    grid_wf(gw as int, gh as int, x0 as int, y0 as int, xs as int, ys as int),
                    vals@ == gvals,
                    vals.len() == (gw + 1) * (gh + 1),
                    forall|k: int| 0 <= k < vals.len() ==> sample_wf(#[trigger] vals[k]),
                    gh1 == gh + 1,
                    0 <= i < gw,
                    0 <= j <= gh,
                    xi == x0 as int + i as int * xs as int,
                    r@ == scan_sp(
                        gvals,
                        gw as int,
                        gh as int,
                        x0 as int,
                        y0 as int,
                        xs as int,
                        ys as int,
                        i as int * gh as int + j as int,
                    ),
                decreases gh - j,
            {
                proof {
                    lemma_step_span(j as int, gh as int, ys as int, SPAN_LIMIT as int);
                    lemma_step_span(i as int, gw as int, xs as int, SPAN_LIMIT as int);
                    assert(i as int * gh1 as int + j as int + (gh1 as int) < (gw + 1) * (
                    gh1 as int)) by (nonlinear_arith)
                        requires
                            0 <= i < gw,
                            0 <= j < gh,
                            gh1 == gh + 1,
                    ;
                    assert(i as int * gh1 as int + j as int == i as int * gh1 as int + j as int);
                }
                proof {
                    assert(xs as int <= SPAN_LIMIT && ys as int <= SPAN_LIMIT)
                        by (nonlinear_arith)
                        requires
                            0 <= xs as int,
                            0 <= ys as int,
                            1 <= gw as int,
                            1 <= gh as int,
                            gw as int * xs as int <= SPAN_LIMIT,
                            gh as int * ys as int <= SPAN_LIMIT,
                    ;
                }
                let base: usize = i * gh1 + j;
                let v00: Sample = vals[base];
                let v10: Sample = vals[base + gh1];
                let v01: Sample = vals[base + 1];
                let yj: i64 = y0 + (j as i64) * ys;
                let ghost c = i as int * gh as int + j as int;
                let ghost pre = r@;
                proof {
                    vstd::arithmetic::div_mod::lemma_fundamental_div_mod_converse_div(
                        c,
                        gh as int,
                        i as int,
                        j as int,
                    );
                    vstd::arithmetic::div_mod::lemma_fundamental_div_mod_converse_mod(
                        c,
                        gh as int,
                        i as int,
                        j as int,
                    );
                    assert(sample_wf(gvals[base as int]));
                    assert(sample_wf(gvals[base as int + gh1 as int]));
                    assert(sample_wf(gvals[base as int + 1]));
                    assert(abs_sp(v00.v as int) <= COORD_LIMIT);
                    assert(abs_sp(v10.v as int) <= COORD_LIMIT);
                    assert(abs_sp(v01.v as int) <= COORD_LIMIT);
                    assert(v00 == gvals[i as int * gh1 as int + j as int]);
                    assert(v10 == gvals[(i as int + 1) * gh1 as int + j as int])
                        by (nonlinear_arith)
                        requires
                            v10 == gvals[i as int * gh1 as int + j as int + gh1 as int],
                            gvals == gvals,
                    ;
                }
                if v00.finite && v10.finite {
                    let cross: bool = (v00.v <= 0 && v10.v >= 0) || (v00.v >= 0 && v10.v <= 0);
                    proof {
                        assert(cross == ((v00.v as int) * (v10.v as int) <= 0))
                            by (nonlinear_arith)
                            requires
                                cross == ((v00.v <= 0 && v10.v >= 0) || (v00.v >= 0 && v10.v
                                    <= 0)),
                        ;
                    }
                    if cross {
                        let t: i64 = interp_t(v00.v, v10.v);
                        proof {
                            lemma_scale_keeps_bound(t as int, xs as int);
                        }
                        let px: i64 = xi + mul_fx(t, xs);
                        r.push(Vertex { x: px, y: yj });
                    }
                }
                if v00.finite && v01.finite {
                    let cross: bool = (v00.v <= 0 && v01.v >= 0) || (v00.v >= 0 && v01.v <= 0);
                    proof {
                        assert(cross == ((v00.v as int) * (v01.v as int) <= 0))
                            by (nonlinear_arith)
                            requires
                                cross == ((v00.v <= 0 && v01.v >= 0) || (v00.v >= 0 && v01.v
                                    <= 0)),
                        ;
                    }
                    if cross {
                        let t: i64 = interp_t(v00.v, v01.v);
                        proof {
                            lemma_scale_keeps_bound(t as int, ys as int);
                        }
                        let py: i64 = yj + mul_fx(t, ys);
                        r.push(Vertex { x: xi, y: py });
                    }
                }
                proof {
                    assert(r@ =~= pre + cell_pts_sp(
                        gvals,
                        gh1 as int,
                        i as int,
                        j as int,
                        x0 as int,
                        y0 as int,
                        xs as int,
                        ys as int,
                    ));
                    assert(r@ == scan_sp(
                        gvals,
                        gw as int,
                        gh as int,
                        x0 as int,
                        y0 as int,
                        xs as int,
                        ys as int,
                        c + 1,
                    ));
                }
                j = j + 1;
            }
            proof {
                assert(i as int * gh as int + gh as int == (i + 1) * gh as int) by (nonlinear_arith);
            }
            i = i + 1;
        }
        r
    }

    /// Solve f(x, y) = 0 over the given ranges for a screen of the given
    /// pixel dimensions.
    ///
    /// A degenerate domain (empty range or zero screen dimension) yields an
    /// empty buffer. Otherwise the result is exactly the scan model applied
    /// to a grid of samples of `f`, one per grid point
    /// `(x0 + i * xs, y0 + j * ys)`, each a sanitized return value of `f`
    /// there.
    pub fn solve<F: Fn(i64, i64) -> Sample + Sync + Send>(
        &self,
        f: &F,
        x_range: (i64, i64),
        y_range: (i64, i64),
        screen_w: u32,
        screen_h: u32,
    ) -> (r: Vec<Vertex>)
        requires
            abs_sp(x_range.0 as int) <= COORD_LIMIT,
            abs_sp(x_range.1 as int) <= COORD_LIMIT,
            abs_sp(y_range.0 as int) <= COORD_LIMIT,
            abs_sp(y_range.1 as int) <= COORD_LIMIT,
            forall|x: i64, y: i64| call_requires(*f, (x, y)),
        ensures
            (x_range.1 <= x_range.0 || y_range.1 <= y_range.0 || screen_w == 0 || screen_h == 0)
                ==> r@ == Seq::<Vertex>::empty(),
            (x_range.1 > x_range.0 && y_range.1 > y_range.0 && screen_w > 0 && screen_h > 0)
                ==> exists|vals: Seq<Sample>|
                {
                    let gw = grid_res_sp(screen_w as int);
                    let gh = grid_res_sp(screen_h as int);
                    &&& (#[trigger] vals.len()) == (gw + 1) * (gh + 1)
                    &&& (forall|k: int| 0 <= k < vals.len() ==> sample_wf(#[trigger] vals[k]))
                    &&& (forall|i: int, j: int|
                        0 <= i <= gw && 0 <= j <= gh ==> sampled2(
                            f,
                            ((x_range.0 as int) + i * ((x_range.1 - x_range.0) as int
                                / gw)) as i64,
                            ((y_range.0 as int) + j * ((y_range.1 - y_range.0) as int
                                / gh)) as i64,
                            #[trigger] vals[i * (gh + 1) + j],
                        ))
                    &&& r@ == scan_sp(
                        vals,
                        gw,
                        gh,
                        x_range.0 as int,
                        y_range.0 as int,
                        (x_range.1 - x_range.0) as int / gw,
                        (y_range.1 - y_range.0) as int / gh,
                        gw * gh,
                    )
                },
    {
        let (x0, x1) = x_range;
        let (y0, y1) = y_range;
        if x1 <= x0 || y1 <= y0 || screen_w == 0 || screen_h == 0 {
            let empty: Vec<Vertex> = Vec::new();
            return empty;
        }
        let gw: usize = grid_res(screen_w);
        let gh: usize = grid_res(screen_h);
        let xs: i64 = (x1 - x0) / (gw as i64);
        let ys: i64 = (y1 - y0) / (gh as i64);
        proof {
            vstd::arithmetic::div_mod::lemma_fundamental_div_mod(
                (x1 - x0) as int,
                gw as int,
            );
            vstd::arithmetic::div_mod::lemma_fundamental_div_mod(
                (y1 - y0) as int,
                gh as int,
            );
            vstd::arithmetic::div_mod::lemma_div_pos_is_pos((x1 - x0) as int, gw as int);
            vstd::arithmetic::div_mod::lemma_div_pos_is_pos((y1 - y0) as int, gh as int);
        }
        let gw1: usize = gw + 1;
        let gh1: usize = gh + 1;
        proof {
            assert((gw1 as int) * (gh1 as int) <= 701 * 701) by (nonlinear_arith)
                requires
                    gw1 as int <= 701,
                    gh1 as int <= 701,
                    0 <= gw1 as int,
                    0 <= gh1 as int,
            ;
        }
        let nn: usize = gw1 * gh1;
        let eval = |idx: usize| -> (s: Sample)
            requires
                idx + 1 <= nn,
                nn == gw1 * gh1,
                gw1 == gw + 1,
                gh1 == gh + 1,
                grid_wf(gw as int, gh as int, x0 as int, y0 as int, xs as int, ys as int),
            ensures
                sample_wf(s),
                sampled2(
                    f,
                    ((x0 as int) + ((idx as int) / (gh1 as int)) * (xs as int)) as i64,
                    ((y0 as int) + ((idx as int) % (gh1 as int)) * (ys as int)) as i64,
                    s,
                ),
            {
                let i: usize = idx / gh1;
                let j: usize = idx % gh1;
                proof {
                    vstd::arithmetic::mul::lemma_mul_is_commutative(gw1 as int, gh1 as int);
                    vstd::arithmetic::div_mod::lemma_multiply_divide_lt(
                        idx as int,
                        gh1 as int,
                        gw1 as int,
                    );
                    vstd::arithmetic::div_mod::lemma_mod_division_less_than_divisor(
                        idx as int,
                        gh1 as int,
                    );
                    lemma_step_span(i as int, gw as int, xs as int, SPAN_LIMIT as int);
                    lemma_step_span(j as int, gh as int, ys as int, SPAN_LIMIT as int);
                }
                let x: i64 = x0 + (i as i64) * xs;
                let y: i64 = y0 + (j as i64) * ys;
                let raw: Sample = f(x, y);
                let out: Sample = sanitize(raw);
                proof {
                    assert(sampled2(f, x, y, out));
                }
                out
            };
        let vals: Vec<Sample> = par_map(nn, eval);
        proof {
            assert forall|i: int, j: int| 0 <= i <= gw as int && 0 <= j <= gh as int
                implies sampled2(
                f,
                ((x0 as int) + i * (xs as int)) as i64,
                ((y0 as int) + j * (ys as int)) as i64,
                #[trigger] vals@[i * (gh as int + 1) + j],
            ) by {
                let k = i * (gh1 as int) + j;
                assert(0 <= k < nn as int && i == k / (gh1 as int) && j == k % (gh1 as int))
                    by (nonlinear_arith)
                    requires
                        0 <= i <= gw as int,
                        0 <= j <= gh as int,
                        gh1 as int == gh as int + 1,
                        gw as int >= 1,
                        k == i * (gh1 as int) + j,
                        nn as int == (gw as int + 1) * (gh1 as int),
                ;
                assert(call_ensures(eval, (k as usize,), vals@[k]));
            }
        }
        self.build_points(&vals, gw, gh, x0, y0, xs, ys)
    }
}

} // verus!
