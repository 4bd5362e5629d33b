//! Parametric curve solver: a constant-screen-width ribbon along
//! t ↦ (x(t), y(t)).
//!
//! The solver samples the curve at fixed density along the t-range and
//! extrudes each surviving adjacent pair into a quad, as the explicit solver
//! does. A pair is dropped when a sample is non-finite, when the two points
//! nearly coincide, or — the asymptote guard — when their world distance
//! exceeds a viewport-relative threshold.

use vstd::prelude::*;
use crate::fixed::{
    abs_sp,
    tdiv,
    mul_fx,
    mul_fx_sp,
    sqrt_sp,
    isqrt_u128,
    unit_ratio,
    lemma_sqrt_lower,
    lemma_scale_keeps_bound,
    lemma_step_span,
    COORD_LIMIT,
    MUL_LIMIT,
    SCALE,
};
use crate::sample::{Sample2, sample2_wf, sanitize2, sampled1_pt2};
use crate::d2::common::Vertex;
use crate::d2::implicit::SPAN_LIMIT;
use crate::d2::explicit::{
    view_height,
    view_height_sp,
    pixel_size,
    pixel_size_sp,
    half_width,
    half_width_sp,
    MAX_SAMPLES,
};
use crate::par::par_map;

verus! {

/// Samples per unit of the curve parameter t.
pub const SAMPLES_PER_UNIT_T: i64 = 20;

/// Fewest sample segments along the t-range.
pub const MIN_SAMPLES_T: usize = 200;

/// A step beyond this many viewport heights breaks the ribbon.
pub const JUMP_THRESHOLD_FACTOR: i64 = 2;

/// Largest representable point-to-point distance: the diagonal bound.
pub const DIST_LIMIT: i64 = 17592186044416;

/// Two samples closer than this squared distance (about 1e-6 world units
/// apart) count as duplicates and are skipped.
pub const DUP_THRESHOLD_SQ: u64 = 1152921;

/// Number of sample segments: the t-range length times the sampling density,
/// rounded down, kept between `MIN_SAMPLES_T` and `MAX_SAMPLES`.
pub open spec fn sample_count_t_sp(t_len: int) -> int {
    let n = (t_len * SAMPLES_PER_UNIT_T) / (SCALE as int);
    if n < MIN_SAMPLES_T {
        MIN_SAMPLES_T as int
    } else if n > MAX_SAMPLES {
        MAX_SAMPLES as int
    } else {
        n
    }
}

/// The break distance: the viewport height times the jump factor, saturated
/// at the representable diagonal (at which no pair can ever break).
pub open spec fn jump_dist_sp(vh: int) -> int {
    if JUMP_THRESHOLD_FACTOR * vh > DIST_LIMIT {
        DIST_LIMIT as int
    } else {
        JUMP_THRESHOLD_FACTOR * vh
    }
}

/// Squared distance between two sampled points.
pub open spec fn dist_sq_sp(s0: Sample2, s1: Sample2) -> int {
    let dx = s1.x - s0.x;
    let dy = s1.y - s0.y;
    dx * dx + dy * dy
}

/// Whether the adjacent pair yields a quad: both samples finite, the points
/// distinct, and the step within the jump threshold.
pub open spec fn pair_emits(s0: Sample2, s1: Sample2, mj: int) -> bool {
    &&& s0.finite
    &&& s1.finite
    &&& dist_sq_sp(s0, s1) >= DUP_THRESHOLD_SQ
    &&& dist_sq_sp(s0, s1) <= mj * mj
}

/// The six vertices of one ribbon quad along the segment `s0 -> s1`.
pub open spec fn pair_quad(s0: Sample2, s1: Sample2, hw: int) -> Seq<Vertex> {
    let dx = s1.x - s0.x;
    let dy = s1.y - s0.y;
    let len = sqrt_sp(dist_sq_sp(s0, s1));
    let nx = tdiv(-dy * SCALE, len);
    let ny = tdiv(dx * SCALE, len);
    let ox = mul_fx_sp(nx, hw);
    let oy = mul_fx_sp(ny, hw);
    let p0l = Vertex { x: (s0.x + ox) as i64, y: (s0.y + oy) as i64 };
    let p0r = Vertex { x: (s0.x - ox) as i64, y: (s0.y - oy) as i64 };
    let p1l = Vertex { x: (s1.x + ox) as i64, y: (s1.y + oy) as i64 };
    let p1r = Vertex { x: (s1.x - ox) as i64, y: (s1.y - oy) as i64 };
    seq![p0l, p1l, p0r, p0r, p1l, p1r]
}

/// The ribbon of the first `n` sample pairs.
pub open spec fn path_ribbon_sp(ps: Seq<Sample2>, hw: int, mj: int, n: int) -> Seq<Vertex>
    decreases n,
{
    if n <= 0 {
        Seq::<Vertex>::empty()
    } else {
        path_ribbon_sp(ps, hw, mj, n - 1) + if pair_emits(ps[n - 1], ps[n], mj) {
            pair_quad(ps[n - 1], ps[n], hw)
        } else {
            Seq::<Vertex>::empty()
        }
    }
}

/// Well-formed path parameters.
pub open spec fn path_wf(ps: Seq<Sample2>, hw: int, mj: int) -> bool {
    &&& 1 <= ps.len()
    &&& (forall|k: int| 0 <= k < ps.len() ==> sample2_wf(#[trigger] ps[k]))
    &&& 0 <= hw <= COORD_LIMIT
    &&& 0 <= mj <= DIST_LIMIT
}

pub struct ParametricSolver {}

impl ParametricSolver {
    pub fn new() -> (s: Self) {
        Self {  }
    }

    /// Extrude a sampled path into a ribbon. The result is exactly the
    /// ribbon model over all adjacent pairs.
    pub fn build_ribbon(&self, ps: &Vec<Sample2>, hw: i64, mj: i64) -> (r: Vec<Vertex>)
        requires
            path_wf(ps@, hw as int, mj as int),
        ensures
            r@ == path_ribbon_sp(ps@, hw as int, mj as int, ps@.len() - 1),
    {
        let ghost gps = ps@;
        let n: usize = ps.len() - 1;
        let mut r: Vec<Vertex> = Vec::new();
        let mut i: usize = 0;
        while i < n
            invariant
                path_wf(gps, hw as int, mj as int),
                ps@ == gps,
                n == gps.len() - 1,
                0 <= i <= n,
                r@ == path_ribbon_sp(gps, hw as int, mj as int, i as int),
            decreases n - i,
        {
            let s0: Sample2 = ps[i];
            let s1: Sample2 = ps[i + 1];
            let ghost pre = r@;
            proof {
                assert(sample2_wf(gps[i as int]));
                assert(sample2_wf(gps[i as int + 1]));
            }
            if s0.finite && s1.finite {
                let dx: i64 = s1.x - s0.x;
                let dy: i64 = s1.y - s0.y;
                let dxa: u64 = if dx < 0 {
                    (-dx) as u64
                } else {
                    dx as u64
                };
                let dya: u64 = if dy < 0 {
                    (-dy) as u64
                } else {
                    dy as u64
                };
                proof {
                    assert((dxa as int) * (dxa as int) == (dx as int) * (dx as int)
                        && (dya as int) * (dya as int) == (dy as int) * (dy as int)
                        && (dx as int) * (dx as int) + (dy as int) * (dy as int) <= 2
                        * SPAN_LIMIT * SPAN_LIMIT < u128::MAX) by (nonlinear_arith)
                        requires
                            dxa as int == abs_sp(dx as int),
                            dya as int == abs_sp(dy as int),
                            0 <= dxa as int <= SPAN_LIMIT,
                            0 <= dya as int <= SPAN_LIMIT,
                    ;
                }
                let sq: u128 = (dxa as u128) * (dxa as u128) + (dya as u128) * (dya as u128);
                if sq >= DUP_THRESHOLD_SQ as u128 {
                    proof {
                        assert((mj as int) * (mj as int) <= u128::MAX) by (nonlinear_arith)
                            requires
                                0 <= mj as int <= DIST_LIMIT,
                        ;
                    }
                    let mjsq: u128 = (mj as u128) * (mj as u128);
                    if sq <= mjsq {
                        let len: u64 = isqrt_u128(sq);
                        proof {
                            lemma_sqrt_lower(dxa as int, sq as int, len as int);
                            lemma_sqrt_lower(dya as int, sq as int, len as int);
                            assert(len as int <= MUL_LIMIT && 0 < len as int)
                                by (nonlinear_arith)
                                requires
                                    (len as int) * (len as int) <= sq as int,
                                    (sq as int) < ((len as int) + 1) * ((len as int) + 1),
                                    sq as int <= 2 * SPAN_LIMIT * SPAN_LIMIT,
                                    sq as int >= DUP_THRESHOLD_SQ,
                                    0 <= len as int,
                            ;
                        }
                        let nx: i64 = unit_ratio(-dy, len);
                        let ny: i64 = unit_ratio(dx, len);
                        proof {
                            lemma_scale_keeps_bound(nx as int, hw as int);
                            lemma_scale_keeps_bound(ny as int, hw as int);
                        }
                        let ox: i64 = mul_fx(nx, hw);
                        let oy: i64 = mul_fx(ny, hw);
                        r.push(Vertex { x: s0.x + ox, y: s0.y + oy });
                        r.push(Vertex { x: s1.x + ox, y: s1.y + oy });
                        r.push(Vertex { x: s0.x - ox, y: s0.y - oy });
                        r.push(Vertex { x: s0.x - ox, y: s0.y - oy });
                        r.push(Vertex { x: s1.x + ox, y: s1.y + oy });
                        r.push(Vertex { x: s1.x - ox, y: s1.y - oy });
                    }
                }
            }
            proof {
                let gi = i as int;
                if pair_emits(gps[gi], gps[gi + 1], mj as int) {
                    assert(r@ =~= pre + pair_quad(gps[gi], gps[gi + 1], hw as int));
                } else {
                    assert(r@ =~= pre);
                }
                assert(r@ == path_ribbon_sp(gps, hw as int, mj as int, gi + 1));
            }
            i = i + 1;
        }
        r
    }

    /// Solve t ↦ (x(t), y(t)) over the t-range for the given viewport.
    ///
    /// A degenerate t-range or a zero screen height yields an empty buffer.
    /// Otherwise the result is exactly the ribbon model applied to a vector
    /// of samples of `f`, one per parameter `t0 + k * step` at the fixed
    /// sampling density, each a sanitized return value of `f` there.
    pub fn solve<F: Fn(i64) -> Sample2 + Sync + Send>(
        &self,
        f: &F,
        t_range: (i64, i64),
        width_px: i64,
        zoom: i64,
        aspect: i64,
        screen_h: i64,
    ) -> (r: Vec<Vertex>)
        requires
            abs_sp(t_range.0 as int) <= COORD_LIMIT,
            abs_sp(t_range.1 as int) <= COORD_LIMIT,
            0 <= width_px <= COORD_LIMIT,
            1 <= zoom,
            forall|t: i64| call_requires(*f, (t,)),
        ensures
            (t_range.1 <= t_range.0 || screen_h < 1) ==> r@ == Seq::<Vertex>::empty(),
            (t_range.1 > t_range.0 && screen_h >= 1) ==> exists|ps: Seq<Sample2>|
                {
                    let n = sample_count_t_sp((t_range.1 - t_range.0) as int);
                    let step = (t_range.1 - t_range.0) as int / n;
                    let vh = view_height_sp(zoom as int);
                    let hw = half_width_sp(
                        width_px as int,
                        pixel_size_sp(vh, screen_h as int),
                    );
                    let mj = jump_dist_sp(vh);
                    &&& (#[trigger] ps.len()) == n + 1
                    &&& (forall|k: int| 0 <= k < ps.len() ==> sample2_wf(#[trigger] ps[k]))
                    &&& (forall|k: int|
                        0 <= k < ps.len() ==> sampled1_pt2(
                            f,
                            ((t_range.0 as int) + k * step) as i64,
                            #[trigger] ps[k],
                        ))
                    &&& r@ == path_ribbon_sp(ps, hw, mj, n)
                },
    {
        let (t0, t1) = t_range;
        if t1 <= t0 || screen_h < 1 {
            let empty: Vec<Vertex> = Vec::new();
            return empty;
        }
        let n: usize = sample_count_t(t1 - t0);
        let step: i64 = (t1 - t0) / (n as i64);
        proof {
            vstd::arithmetic::div_mod::lemma_fundamental_div_mod((t1 - t0) as int, n as int);
            vstd::arithmetic::div_mod::lemma_div_pos_is_pos((t1 - t0) as int, n as int);
        }
        let vh: i64 = view_height(zoom);
        let mj: i64 = jump_dist(vh);
        let psw: i64 = pixel_size(vh, screen_h);
        let hw: i64 = half_width(width_px, psw);
        let n1: usize = n + 1;
        let eval = |idx: usize| -> (s: Sample2)
            requires
                idx + 1 <= n1,
                n1 == n + 1,
                n <= 16777216,
                0 <= step,
                (n as int) * (step as int) <= SPAN_LIMIT,
                abs_sp(t0 as int) <= COORD_LIMIT,
            ensures
                sample2_wf(s),
                sampled1_pt2(f, ((t0 as int) + (idx as int) * (step as int)) as i64, s),
            {
                proof {
                    lemma_step_span(idx as int, n as int, step as int, SPAN_LIMIT as int);
                }
                let t: i64 = t0 + (idx as i64) * step;
                let raw: Sample2 = f(t);
                let out: Sample2 = sanitize2(raw);
                proof {
                    assert(sampled1_pt2(f, t, out));
                }
                out
            };
        let ps: Vec<Sample2> = par_map(n1, eval);
        proof {
            assert forall|k: int| 0 <= k < ps@.len() implies sampled1_pt2(
                f,
                ((t0 as int) + k * (step as int)) as i64,
                #[trigger] ps@[k],
            ) by {
                assert(call_ensures(eval, (k as usize,), ps@[k]));
            }
        }
        self.build_ribbon(&ps, hw, mj)
    }
}

/// The break distance for a viewport height.
pub fn jump_dist(vh: i64) -> (r: i64)
    requires
        0 <= vh,
    ensures
        r == jump_dist_sp(vh as int),
        0 <= r <= DIST_LIMIT,
{
    proof {
        assert(0 <= (vh as int) * (JUMP_THRESHOLD_FACTOR as int) <= u128::MAX && (vh as int)
            * (JUMP_THRESHOLD_FACTOR as int) == (JUMP_THRESHOLD_FACTOR as int) * (vh as int))
            by (nonlinear_arith)
            requires
                0 <= vh as int <= i64::MAX,
                JUMP_THRESHOLD_FACTOR as int == 2,
        ;
    }
    let t: u128 = (vh as u128) * (JUMP_THRESHOLD_FACTOR as u128);
    if t > DIST_LIMIT as u128 {
        DIST_LIMIT
    } else {
        t as i64
    }
}

/// Number of sample segments for a t-range length.
pub fn sample_count_t(t_len: i64) -> (r: usize)
    requires
        0 < t_len <= SPAN_LIMIT,
    ensures
        r == sample_count_t_sp(t_len as int),
        MIN_SAMPLES_T <= r <= MAX_SAMPLES,
{
    proof {
        assert(0 <= (t_len as int) * (SAMPLES_PER_UNIT_T as int) <= u64::MAX)
            by (nonlinear_arith)
            requires
                0 < t_len as int <= SPAN_LIMIT,
                SAMPLES_PER_UNIT_T as int == 20,
        ;
    }
    let t: u64 = (t_len as u64) * (SAMPLES_PER_UNIT_T as u64);
    let n: u64 = t / (SCALE as u64);
    if n < 200 {
        200
    } else if n > 16777216 {
        16777216
    } else {
        n as usize
    }
}

} // verus!
