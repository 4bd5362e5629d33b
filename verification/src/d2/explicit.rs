//! Explicit curve solver: a constant-screen-width ribbon along y = f(x).
//!
//! The solver samples f along the x-range, then extrudes each surviving
//! adjacent sample pair into a quad of two triangles, offset by half the
//! stroke width along the segment normal. A pair is dropped — breaking the
//! ribbon — when a sample is non-finite, when the y-jump exceeds a
//! viewport-relative threshold (this hides vertical asymptotes), or when the
//! segment is degenerate.

use vstd::prelude::*;
use crate::fixed::{
    abs_sp,
    tdiv,
    mul_fx,
    mul_fx_sp,
    sqrt_sp,
    isqrt_u128,
    unit_ratio,
    lemma_sqrt_lower,
    lemma_scale_keeps_bound,
    lemma_step_span,
    lemma_div_ordered,
    COORD_LIMIT,
    HALF_SCALE,
    MUL_LIMIT,
    SCALE,
};
use crate::sample::{Sample, sample_wf, sanitize, sampled1};
use crate::d2::common::Vertex;
use crate::d2::implicit::SPAN_LIMIT;
use crate::par::par_map;

verus! {

/// Samples per screen pixel, in fixed point (one point per pixel).
pub const SAMPLING_DENSITY: i64 = 1073741824;

/// A y-jump beyond this many viewport heights breaks the ribbon. The value
/// discriminates an asymptote from a merely steep function.
pub const ASYMPTOTE_THRESHOLD_FACTOR: i64 = 10;

/// Fewest sample segments along the x-range.
pub const MIN_SAMPLES: usize = 100;

/// Most sample segments along the x-range: a memory ceiling.
pub const MAX_SAMPLES: usize = 16777216;

/// A segment shorter than this many ticks is skipped: its normal is
/// undefined and its quad would have no area.
pub const DEGENERATE_LEN: u64 = 2;

/// The viewport's world height for a zoom factor: `2 / zoom`.
pub open spec fn view_height_sp(zoom: int) -> int {
    (2 * SCALE * SCALE) / zoom
}

/// The ribbon-break threshold: the viewport height times the asymptote
/// factor, saturated at the largest representable jump.
pub open spec fn jump_threshold_sp(vh: int) -> int {
    if ASYMPTOTE_THRESHOLD_FACTOR * vh > SPAN_LIMIT {
        SPAN_LIMIT as int
    } else {
        ASYMPTOTE_THRESHOLD_FACTOR * vh
    }
}

/// World size of one screen pixel: the viewport height over the screen
/// height in pixels, saturated at the coordinate limit.
pub open spec fn pixel_size_sp(vh: int, screen_h: int) -> int {
    if tdiv(vh * SCALE, screen_h) > COORD_LIMIT {
        COORD_LIMIT as int
    } else {
        tdiv(vh * SCALE, screen_h)
    }
}

/// Half the requested stroke width in world units, kept nonnegative and
/// within the coordinate range.
pub open spec fn half_width_sp(width_px: int, psw: int) -> int {
    let hw = mul_fx_sp(mul_fx_sp(width_px, HALF_SCALE as int), psw);
    if hw < 0 {
        0
    } else if hw > COORD_LIMIT {
        COORD_LIMIT as int
    } else {
        hw
    }
}

/// Number of sample segments: the screen width times the sampling density,
/// rounded up, kept between `MIN_SAMPLES` and `MAX_SAMPLES`.
pub open spec fn sample_count_sp(screen_w: int) -> int {
    let n = (screen_w * SAMPLING_DENSITY + SCALE - 1) / (SCALE as int);
    if n < MIN_SAMPLES {
        MIN_SAMPLES as int
    } else if n > MAX_SAMPLES {
        MAX_SAMPLES as int
    } else {
        n
    }
}

/// The squared length of a ribbon segment, in ticks.
pub open spec fn seg_len_sq_sp(step: int, dy: int) -> int {
    step * step + dy * dy
}

/// Whether the adjacent pair `(s0, s1)` yields a quad: both samples finite,
/// the y-jump within the asymptote threshold, and the segment long enough to
/// carry a normal.
pub open spec fn seg_emits(s0: Sample, s1: Sample, step: int, jt: int) -> bool {
    &&& s0.finite
    &&& s1.finite
    &&& abs_sp(s1.v - s0.v) <= jt
    &&& sqrt_sp(seg_len_sq_sp(step, s1.v - s0.v)) >= DEGENERATE_LEN
}

/// The six vertices of one ribbon quad: both endpoints offset left and right
/// by half the stroke width along the segment's unit normal, as two
/// triangles.
pub open spec fn seg_quad(xi: int, s0: Sample, s1: Sample, step: int, hw: int) -> Seq<Vertex> {
    let dy = s1.v - s0.v;
    let len = sqrt_sp(seg_len_sq_sp(step, dy));
    let nx = tdiv(-dy * SCALE, len);
    let ny = tdiv(step * SCALE, len);
    let ox = mul_fx_sp(nx, hw);
    let oy = mul_fx_sp(ny, hw);
    let p0l = Vertex { x: (xi + ox) as i64, y: (s0.v + oy) as i64 };
    let p0r = Vertex { x: (xi - ox) as i64, y: (s0.v - oy) as i64 };
    let p1l = Vertex { x: (xi + step + ox) as i64, y: (s1.v + oy) as i64 };
    let p1r = Vertex { x: (xi + step - ox) as i64, y: (s1.v - oy) as i64 };
    seq![p0l, p1l, p0r, p0r, p1l, p1r]
}

/// The ribbon of the first `n` sample pairs.
pub open spec fn ribbon_sp(
    ys: Seq<Sample>,
    x0: int,
    step: int,
    hw: int,
    jt: int,
    n: int,
) -> Seq<Vertex>
    decreases n,
{
    if n <= 0 {
        Seq::<Vertex>::empty()
    } else {
        ribbon_sp(ys, x0, step, hw, jt, n - 1) + if seg_emits(ys[n - 1], ys[n], step, jt) {
            seg_quad(x0 + (n - 1) * step, ys[n - 1], ys[n], step, hw)
        } else {
            Seq::<Vertex>::empty()
        }
    }
}

/// Well-formed ribbon parameters.
pub open spec fn ribbon_wf(ys: Seq<Sample>, x0: int, step: int, hw: int, jt: int) -> bool {
    &&& 1 <= ys.len() <= 4294967297
    &&& (forall|k: int| 0 <= k < ys.len() ==> sample_wf(#[trigger] ys[k]))
    &&& abs_sp(x0) <= COORD_LIMIT
    &&& 0 <= step
    &&& (ys.len() - 1) * step <= SPAN_LIMIT
    &&& 0 <= hw <= COORD_LIMIT
    &&& 0 <= jt <= SPAN_LIMIT
}

/// The viewport's world height for a zoom factor.
pub fn view_height(zoom: i64) -> (r: i64)
    requires
        1 <= zoom,
    ensures
        r == view_height_sp(zoom as int),
        0 <= r <= 2305843009213693952,
{
    let num: u128 = 2305843009213693952;
    let q: u128 = num / (zoom as u128);
    proof {
        assert(num == 2 * SCALE * SCALE);
        lemma_div_ordered(num as int, num as int, zoom as int);
        vstd::arithmetic::div_mod::lemma_div_is_ordered_by_denominator(
            num as int,
            1,
            zoom as int,
        );
    }
    q as i64
}

/// The ribbon-break threshold for a viewport height.
pub fn jump_threshold(vh: i64) -> (r: i64)
    requires
        0 <= vh,
    ensures
        r == jump_threshold_sp(vh as int),
        0 <= r <= SPAN_LIMIT,
{
    proof {
        assert(0 <= (vh as int) * (ASYMPTOTE_THRESHOLD_FACTOR as int) <= u128::MAX)
            by (nonlinear_arith)
            requires
                0 <= vh as int <= i64::MAX,
                ASYMPTOTE_THRESHOLD_FACTOR as int == 10,
        ;
    }
    let t: u128 = (vh as u128) * (ASYMPTOTE_THRESHOLD_FACTOR as u128);
    proof {
        assert((vh as int) * (ASYMPTOTE_THRESHOLD_FACTOR as int) == (
        ASYMPTOTE_THRESHOLD_FACTOR as int) * (vh as int)) by (nonlinear_arith);
    }
    if t > SPAN_LIMIT as u128 {
        SPAN_LIMIT
    } else {
        t as i64
    }
}

/// World size of one screen pixel.
pub fn pixel_size(vh: i64, screen_h: i64) -> (r: i64)
    requires
        0 <= vh,
        1 <= screen_h,
    ensures
        r == pixel_size_sp(vh as int, screen_h as int),
        0 <= r <= COORD_LIMIT,
{
    proof {
        assert(0 <= (vh as int) * (SCALE as int) <= u128::MAX) by (nonlinear_arith)
            requires
                0 <= vh as int <= i64::MAX,
                SCALE as int == 1073741824,
        ;
    }
    let num: u128 = (vh as u128) * (SCALE as u128);
    let q: u128 = num / (screen_h as u128);
    if q > COORD_LIMIT as u128 {
        COORD_LIMIT
    } else {
        q as i64
    }
}

/// Half the requested stroke width in world units.
pub fn half_width(width_px: i64, psw: i64) -> (r: i64)
    requires
        0 <= width_px <= COORD_LIMIT,
        0 <= psw <= COORD_LIMIT,
    ensures
        r == half_width_sp(width_px as int, psw as int),
        0 <= r <= COORD_LIMIT,
{
    let a: i64 = mul_fx(width_px, HALF_SCALE);
    proof {
        lemma_scale_keeps_bound(HALF_SCALE as int, width_px as int);
        assert(mul_fx_sp(width_px as int, HALF_SCALE as int) == mul_fx_sp(
            HALF_SCALE as int,
            width_px as int,
        )) by (nonlinear_arith);
    }
    let hw: i64 = mul_fx(a, psw);
    if hw < 0 {
        0
    } else if hw > COORD_LIMIT {
        COORD_LIMIT
    } else {
        hw
    }
}

/// Number of sample segments for a screen width in pixels.
pub fn sample_count(screen_w: u32) -> (r: usize)
    ensures
        r == sample_count_sp(screen_w as int),
        MIN_SAMPLES <= r <= MAX_SAMPLES,
{
    proof {
        assert(0 <= (screen_w as int) * (SAMPLING_DENSITY as int) <= u64::MAX)
            by (nonlinear_arith)
            requires
                0 <= screen_w as int <= 4294967295,
                SAMPLING_DENSITY as int == 1073741824,
        ;
    }
    let t: u64 = (screen_w as u64) * (SAMPLING_DENSITY as u64);
    proof {
        assert(t as int <= 4294967295 * (SAMPLING_DENSITY as int)) by (nonlinear_arith)
            requires
                t as int == (screen_w as int) * (SAMPLING_DENSITY as int),
                0 <= screen_w as int <= 4294967295,
        ;
    }
    let n: u64 = (t + (SCALE as u64) - 1) / (SCALE as u64);
    proof {
        lemma_div_ordered(
            t as int + SCALE - 1,
            4294967295 * (SCALE as int) + SCALE - 1,
            SCALE as int,
        );
        vstd::arithmetic::div_mod::lemma_div_multiples_vanish_fancy(
            4294967295,
            SCALE - 1,
            SCALE as int,
        );
    }
    if n < 100 {
        100
    } else if n > 16777216 {
        16777216
    } else {
        n as usize
    }
}

/// Which sample pair a quad of the ribbon comes from.
pub open spec fn quad_source(
    rib: Seq<Vertex>,
    ys: Seq<Sample>,
    x0: int,
    step: int,
    hw: int,
    jt: int,
    q: int,
    i: int,
) -> bool {
    &&& 0 <= i < ys.len() - 1
    &&& seg_emits(ys[i], ys[i + 1], step, jt)
    &&& rib.subrange(6 * q, 6 * q + 6) == seg_quad(x0 + i * step, ys[i], ys[i + 1], step, hw)
}

/// Some adjacent sample pair is the source of quad `q`.
pub open spec fn has_quad_source(
    rib: Seq<Vertex>,
    ys: Seq<Sample>,
    x0: int,
    step: int,
    hw: int,
    jt: int,
    q: int,
) -> bool {
    exists|i: int| quad_source(rib, ys, x0, step, hw, jt, q, i)
}

/// Every quad of the ribbon is the extrusion of one adjacent sample pair
/// that passed the asymptote and finiteness tests; in particular its two
/// source samples differ in y by at most the jump threshold.
pub proof fn lemma_ribbon_quads(
    ys: Seq<Sample>,
    x0: int,
    step: int,
    hw: int,
    jt: int,
    n: int,
)
    requires
        0 <= n < ys.len(),
    ensures
        ribbon_sp(ys, x0, step, hw, jt, n).len() % 6 == 0,
        forall|q: int|
            0 <= q < ribbon_sp(ys, x0, step, hw, jt, n).len() / 6 ==> #[trigger] has_quad_source(
                ribbon_sp(ys, x0, step, hw, jt, n),
                ys,
                x0,
                step,
                hw,
                jt,
                q,
            ),
    decreases n,
{
    if n > 0 {
        lemma_ribbon_quads(ys, x0, step, hw, jt, n - 1);
        let prev = ribbon_sp(ys, x0, step, hw, jt, n - 1);
        let cur = ribbon_sp(ys, x0, step, hw, jt, n);
        assert forall|q: int| 0 <= q < cur.len() / 6 implies has_quad_source(
            cur,
            ys,
            x0,
            step,
            hw,
            jt,
            q,
        ) by {
            if seg_emits(ys[n - 1], ys[n], step, jt) {
                let quad = seg_quad(x0 + (n - 1) * step, ys[n - 1], ys[n], step, hw);
                if q < prev.len() / 6 {
                    assert(has_quad_source(prev, ys, x0, step, hw, jt, q));
                    let i = choose|i: int| quad_source(prev, ys, x0, step, hw, jt, q, i);
                    assert(cur.subrange(6 * q, 6 * q + 6) =~= prev.subrange(6 * q, 6 * q + 6));
                    assert(quad_source(cur, ys, x0, step, hw, jt, q, i));
                } else {
                    assert(cur.subrange(6 * q, 6 * q + 6) =~= quad);
                    assert(quad_source(cur, ys, x0, step, hw, jt, q, n - 1));
                }
            } else {
                assert(cur =~= prev);
                assert(has_quad_source(prev, ys, x0, step, hw, jt, q));
                let i = choose|i: int| quad_source(prev, ys, x0, step, hw, jt, q, i);
                assert(quad_source(cur, ys, x0, step, hw, jt, q, i));
            }
        }
    }
}

pub struct ExplicitSolver {}

impl ExplicitSolver {
    pub fn new() -> (s: Self) {
        Self {  }
    }

    /// Extrude a sampled path into a ribbon.
    ///
    /// `ys[i]` is the sample at `x0 + i * step`. The result is exactly the
    /// ribbon model over all adjacent pairs.
    pub fn build_ribbon(
        &self,
        ys: &Vec<Sample>,
        x0: i64,
        step: i64,
        hw: i64,
        jt: i64,
    ) -> (r: Vec<Vertex>)
        requires
            ribbon_wf(ys@, x0 as int, step as int, hw as int, jt as int),
        ensures
            r@ == ribbon_sp(
                ys@,
                x0 as int,
                step as int,
                hw as int,
                jt as int,
                ys@.len() - 1,
            ),
    {
        let ghost gys = ys@;
        let n: usize = ys.len() - 1;
        let mut r: Vec<Vertex> = Vec::new();
        let mut i: usize = 0;
        while i < n
            invariant
                ribbon_wf(gys, x0 as int, step as int, hw as int, jt as int),
                ys@ == gys,
                n == gys.len() - 1,
                0 <= i <= n,
                r@ == ribbon_sp(gys, x0 as int, step as int, hw as int, jt as int, i as int),
            decreases n - i,
        {
            let s0: Sample = ys[i];
            let s1: Sample = ys[i + 1];
            let ghost pre = r@;
            proof {
                assert(step as int <= SPAN_LIMIT) by (nonlinear_arith)
                    requires
                        1 <= n as int,
                        0 <= step as int,
                        (n as int) * (step as int) <= SPAN_LIMIT,
                ;
                lemma_step_span(i as int, n as int, step as int, SPAN_LIMIT as int);
                assert(sample_wf(gys[i as int]));
                assert(sample_wf(gys[i as int + 1]));
            }
            if s0.finite && s1.finite {
                let dy: i64 = s1.v - s0.v;
                let dyabs: i64 = if dy < 0 {
                    -dy
                } else {
                    dy
                };
                if dyabs <= jt {
                    proof {
                        assert((step as int) * (step as int) + (dyabs as int) * (dyabs as int)
                            <= 2 * SPAN_LIMIT * SPAN_LIMIT < u128::MAX) by (nonlinear_arith)
                            requires
                                0 <= step as int <= SPAN_LIMIT,
                                0 <= dyabs as int <= SPAN_LIMIT,
                        ;
                        assert((dyabs as int) * (dyabs as int) == (dy as int) * (dy as int))
                            by (nonlinear_arith)
                            requires
                                dyabs as int == abs_sp(dy as int),
                        ;
                    }
                    let sq: u128 = (step as u128) * (step as u128) + (dyabs as u128) * (
                    dyabs as u128);
                    let len: u64 = isqrt_u128(sq);
                    if len >= DEGENERATE_LEN {
                        proof {
                            lemma_sqrt_lower(dyabs as int, sq as int, len as int);
                            lemma_sqrt_lower(step as int, sq as int, len as int);
                            assert((len as int) * (len as int) <= sq < (SPAN_LIMIT + SPAN_LIMIT)
                                * (SPAN_LIMIT + SPAN_LIMIT)) by (nonlinear_arith)
                                requires
                                    (len as int) * (len as int) <= sq as int,
                                    0 <= step as int <= SPAN_LIMIT,
                                    0 <= dyabs as int <= SPAN_LIMIT,
                                    sq as int == step as int * step as int + dyabs as int
                                        * (dyabs as int),
                            ;
                            assert(len as int <= MUL_LIMIT) by (nonlinear_arith)
                                requires
                                    (len as int) * (len as int) < (SPAN_LIMIT + SPAN_LIMIT) * (
                                    SPAN_LIMIT + SPAN_LIMIT),
                                    0 <= len as int,
                            ;
                        }
                        let nx: i64 = unit_ratio(-dy, len);
                        let ny: i64 = unit_ratio(step, len);
                        proof {
                            lemma_scale_keeps_bound(nx as int, hw as int);
                            lemma_scale_keeps_bound(ny as int, hw as int);
                            assert(abs_sp(mul_fx_sp(nx as int, hw as int)) <= COORD_LIMIT);
                            assert(abs_sp(mul_fx_sp(ny as int, hw as int)) <= COORD_LIMIT);
                        }
                        let ox: i64 = mul_fx(nx, hw);
                        let oy: i64 = mul_fx(ny, hw);
                        let xi: i64 = x0 + (i as i64) * step;
                        let x1: i64 = xi + step;
                        r.push(Vertex { x: xi + ox, y: s0.v + oy });
                        r.push(Vertex { x: x1 + ox, y: s1.v + oy });
                        r.push(Vertex { x: xi - ox, y: s0.v - oy });
                        r.push(Vertex { x: xi - ox, y: s0.v - oy });
                        r.push(Vertex { x: x1 + ox, y: s1.v + oy });
                        r.push(Vertex { x: x1 - ox, y: s1.v - oy });
                    }
                }
            }
            proof {
                let gi = i as int;
                if seg_emits(gys[gi], gys[gi + 1], step as int, jt as int) {
                    assert(r@ =~= pre + seg_quad(
                        x0 as int + gi * (step as int),
                        gys[gi],
                        gys[gi + 1],
                        step as int,
                        hw as int,
                    ));
                } else {
                    assert(r@ =~= pre);
                }
                assert(r@ == ribbon_sp(
                    gys,
                    x0 as int,
                    step as int,
                    hw as int,
                    jt as int,
                    gi + 1,
                ));
            }
            i = i + 1;
        }
        r
    }

    /// Solve y = f(x) over the x-range for the given viewport.
    ///
    /// A degenerate domain (empty x-range or zero screen dimension) yields
    /// an empty buffer. Otherwise the result is exactly the ribbon model
    /// applied to a vector of samples of `f`, one per abscissa
    /// `x0 + k * step`, each a sanitized return value of `f` there, with the
    /// step, stroke half-width and jump threshold derived from the
    /// viewport.
    pub fn solve<F: Fn(i64) -> Sample + Sync + Send>(
        &self,
        f: &F,
        x_range: (i64, i64),
        width_px: i64,
        zoom: i64,
        screen_w: u32,
        screen_h: i64,
    ) -> (r: Vec<Vertex>)
        requires
            abs_sp(x_range.0 as int) <= COORD_LIMIT,
            abs_sp(x_range.1 as int) <= COORD_LIMIT,
            0 <= width_px <= COORD_LIMIT,
            1 <= zoom,
            forall|x: i64| call_requires(*f, (x,)),
        ensures
            (x_range.1 <= x_range.0 || screen_w == 0 || screen_h < 1) ==> r@ == Seq::<
                Vertex,
            >::empty(),
            (x_range.1 > x_range.0 && screen_w > 0 && screen_h >= 1) ==> exists|
                ys: Seq<Sample>,
            |
                {
                    let n = sample_count_sp(screen_w as int);
                    let step = (x_range.1 - x_range.0) as int / n;
                    let vh = view_height_sp(zoom as int);
                    let hw = half_width_sp(
                        width_px as int,
                        pixel_size_sp(vh, screen_h as int),
                    );
                    let jt = jump_threshold_sp(vh);
                    &&& (#[trigger] ys.len()) == n + 1
                    &&& (forall|k: int| 0 <= k < ys.len() ==> sample_wf(#[trigger] ys[k]))
                    &&& (forall|k: int|
                        0 <= k < ys.len() ==> sampled1(
                            f,
                            ((x_range.0 as int) + k * step) as i64,
                            #[trigger] ys[k],
                        ))
                    &&& r@ == ribbon_sp(ys, x_range.0 as int, step, hw, jt, n)
                },
    {
        let (x0, x1) = x_range;
        if x1 <= x0 || screen_w == 0 || screen_h < 1 {
            let empty: Vec<Vertex> = Vec::new();
            return empty;
        }
        let n: usize = sample_count(screen_w);
        let step: i64 = (x1 - x0) / (n as i64);
        proof {
            vstd::arithmetic::div_mod::lemma_fundamental_div_mod((x1 - x0) as int, n as int);
            vstd::arithmetic::div_mod::lemma_div_pos_is_pos((x1 - x0) as int, n as int);
        }
        let vh: i64 = view_height(zoom);
        let jt: i64 = jump_threshold(vh);
        let psw: i64 = pixel_size(vh, screen_h);
        let hw: i64 = half_width(width_px, psw);
        let n1: usize = n + 1;
        let eval = |idx: usize| -> (s: Sample)
            requires
                idx + 1 <= n1,
                n1 == n + 1,
                n <= 16777216,
                0 <= step,
                (n as int) * (step as int) <= SPAN_LIMIT,
                abs_sp(x0 as int) <= COORD_LIMIT,
            ensures
                sample_wf(s),
                sampled1(f, ((x0 as int) + (idx as int) * (step as int)) as i64, s),
            {
                proof {
                    lemma_step_span(idx as int, n as int, step as int, SPAN_LIMIT as int);
                }
                let x: i64 = x0 + (idx as i64) * step;
                let raw: Sample = f(x);
                let out: Sample = sanitize(raw);
                proof {
                    assert(sampled1(f, x, out));
                }
                out
            };
        let ys: Vec<Sample> = par_map(n1, eval);
        proof {
            assert forall|k: int| 0 <= k < ys@.len() implies sampled1(
                f,
                ((x0 as int) + k * (step as int)) as i64,
                #[trigger] ys@[k],
            ) by {
                assert(call_ensures(eval, (k as usize,), ys@[k]));
            }
        }
        self.build_ribbon(&ys, x0, step, hw, jt)
    }
}

} // verus!
