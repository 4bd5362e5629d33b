//! Fixed-point scalars.
//!
//! A coordinate or function value is an `i64` holding `value * SCALE`.
//! Products and quotients are computed in `i128`/`u128` and truncated toward
//! zero, which `tdiv` states exactly at the spec level.

use vstd::prelude::*;

verus! {

/// Fixed-point unit: one world unit is `SCALE` ticks.
pub const SCALE: i64 = 1073741824;

/// Half of `SCALE`; the fixed-point value 0.5.
pub const HALF_SCALE: i64 = 536870912;

/// Largest magnitude a coordinate or clamped function value may have.
pub const COORD_LIMIT: i64 = 4398046511104;

/// Largest magnitude accepted by `mul_fx`.
pub const MUL_LIMIT: i64 = 35184372088832;

/// Magnitude of an integer.
pub open spec fn abs_sp(a: int) -> int {
    if a < 0 {
        -a
    } else {
        a
    }
}

/// Division truncated toward zero, as the executable code computes it.
pub open spec fn tdiv(a: int, b: int) -> int {
    if (a < 0) == (b < 0) {
        abs_sp(a) / abs_sp(b)
    } else {
        -(abs_sp(a) / abs_sp(b))
    }
}

/// The fixed-point product `a * b / SCALE`, truncated toward zero.
pub open spec fn mul_fx_sp(a: int, b: int) -> int {
    tdiv(a * b, SCALE as int)
}

/// Truncating division of magnitudes keeps the quotient within `|a| / b`.
pub proof fn lemma_tdiv_bound(a: int, b: int)
    requires
        b > 0,
    ensures
        abs_sp(tdiv(a, b)) == abs_sp(a) / b,
        abs_sp(a) / b <= abs_sp(a),
        a >= 0 ==> tdiv(a, b) == a / b,
{
    vstd::arithmetic::div_mod::lemma_div_nonincreasing(abs_sp(a), b);
    vstd::arithmetic::div_mod::lemma_div_pos_is_pos(abs_sp(a), b);
}

/// A quotient of magnitudes only grows with its dividend.
pub proof fn lemma_div_ordered(x: int, y: int, d: int)
    requires
        0 <= x <= y,
        d > 0,
    ensures
        x / d <= y / d,
{
    vstd::arithmetic::div_mod::lemma_div_is_ordered(x, y, d);
}

/// Clamp a value into `[-COORD_LIMIT, COORD_LIMIT]`.
pub open spec fn clamp_coord_sp(v: int) -> int {
    if v < -COORD_LIMIT {
        -COORD_LIMIT as int
    } else if v > COORD_LIMIT {
        COORD_LIMIT as int
    } else {
        v
    }
}

/// Saturate a raw fixed-point value into the representable coordinate range.
pub fn clamp_coord(v: i64) -> (r: i64)
    ensures
        r == clamp_coord_sp(v as int),
        -COORD_LIMIT <= r <= COORD_LIMIT,
{
    if v < -COORD_LIMIT {
        -COORD_LIMIT
    } else if v > COORD_LIMIT {
        COORD_LIMIT
    } else {
        v
    }
}

/// Saturate a wide intermediate value into the representable coordinate
/// range.
pub fn clamp_coord128(v: i128) -> (r: i64)
    ensures
        r == clamp_coord_sp(v as int),
        -COORD_LIMIT <= r <= COORD_LIMIT,
{
    if v < -(COORD_LIMIT as i128) {
        -COORD_LIMIT
    } else if v > COORD_LIMIT as i128 {
        COORD_LIMIT
    } else {
        v as i64
    }
}

/// Magnitude of an `i64` that is not `i64::MIN`, as a `u128`.
fn abs_u128(v: i64) -> (r: u128)
    requires
        v != i64::MIN,
    ensures
        r == abs_sp(v as int),
{
    if v < 0 {
        (-v) as u128
    } else {
        v as u128
    }
}

/// Magnitude of an `i128` that is not `i128::MIN`, as a `u128`.
fn abs128_u128(v: i128) -> (r: u128)
    requires
        v != i128::MIN,
    ensures
        r == abs_sp(v as int),
{
    if v < 0 {
        (-v) as u128
    } else {
        v as u128
    }
}

/// Fixed-point multiply: `a * b / SCALE`, truncated toward zero.
pub fn mul_fx(a: i64, b: i64) -> (r: i64)
    requires
        abs_sp(a as int) <= MUL_LIMIT,
        abs_sp(b as int) <= MUL_LIMIT,
    ensures
        r == mul_fx_sp(a as int, b as int),
        abs_sp(r as int) == abs_sp(a as int) * abs_sp(b as int) / (SCALE as int),
{
    proof {
        assert(i128::MIN < (a as int) * (b as int) < i128::MAX) by (nonlinear_arith)
            requires
                abs_sp(a as int) <= MUL_LIMIT,
                abs_sp(b as int) <= MUL_LIMIT,
        ;
    }
    let p: i128 = (a as i128) * (b as i128);
    proof {
        assert(abs_sp(p as int) == abs_sp(a as int) * abs_sp(b as int)) by (nonlinear_arith)
            requires
                p == (a as int) * (b as int),
        ;
        assert(abs_sp(a as int) * abs_sp(b as int) <= MUL_LIMIT * MUL_LIMIT) by (nonlinear_arith)
            requires
                0 <= abs_sp(a as int) <= MUL_LIMIT,
                0 <= abs_sp(b as int) <= MUL_LIMIT,
        ;
    }
    let neg: bool = (a < 0) != (b < 0);
    proof {
        assert(((a < 0) != (b < 0)) ==> p <= 0) by (nonlinear_arith)
            requires
                p == (a as int) * (b as int),
        ;
        assert(((a < 0) == (b < 0)) ==> p >= 0) by (nonlinear_arith)
            requires
                p == (a as int) * (b as int),
        ;
    }
    let mag: u128 = abs128_u128(p);
    let q: u128 = mag / (SCALE as u128);
    proof {
        lemma_div_ordered(mag as int, MUL_LIMIT * MUL_LIMIT, SCALE as int);
    }
    if neg {
        -(q as i64)
    } else {
        q as i64
    }
}

/// Clamp an interpolation parameter into `[0, SCALE]`.
pub open spec fn clamp_unit_sp(t: int) -> int {
    if t < 0 {
        0
    } else if t > SCALE {
        SCALE as int
    } else {
        t
    }
}

/// The zero-crossing parameter of a linear segment from value `v0` to `v1`:
/// `-v0 / (v1 - v0)` in fixed point, clamped into `[0, SCALE]`, and the
/// midpoint when the two values coincide.
pub open spec fn interp_t_sp(v0: int, v1: int) -> int {
    if v1 == v0 {
        HALF_SCALE as int
    } else {
        clamp_unit_sp(tdiv(-v0 * SCALE, v1 - v0))
    }
}

/// Zero-crossing parameter between two sampled values, in `[0, SCALE]`.
pub fn interp_t(v0: i64, v1: i64) -> (r: i64)
    requires
        abs_sp(v0 as int) <= COORD_LIMIT,
        abs_sp(v1 as int) <= COORD_LIMIT,
    ensures
        r == interp_t_sp(v0 as int, v1 as int),
        0 <= r <= SCALE,
{
    if v0 == v1 {
        return HALF_SCALE;
    }
    proof {
        assert(i128::MIN < -(v0 as int) * (SCALE as int) < i128::MAX) by (nonlinear_arith)
            requires
                abs_sp(v0 as int) <= COORD_LIMIT,
        ;
    }
    let num: i128 = -(v0 as i128) * (SCALE as i128);
    let den: i128 = (v1 as i128) - (v0 as i128);
    let neg: bool = (num < 0) != (den < 0);
    let q: u128 = abs128_u128(num) / abs128_u128(den);
    proof {
        assert(abs_sp(num as int) == abs_sp(-(v0 as int)) * SCALE) by (nonlinear_arith)
            requires
                num == -(v0 as int) * (SCALE as int),
        ;
        assert((num < 0) == (-(v0 as int) < 0) || v0 == 0) by (nonlinear_arith)
            requires
                num == -(v0 as int) * (SCALE as int),
        ;
    }
    if neg {
        0
    } else if q > SCALE as u128 {
        SCALE
    } else {
        q as i64
    }
}

/// The zero-crossing parameter with the first corner as the sentinel: when
/// the two values coincide the crossing is put at the first endpoint.
pub open spec fn interp_t0_sp(v0: int, v1: int) -> int {
    if v1 == v0 {
        0
    } else {
        clamp_unit_sp(tdiv(-v0 * SCALE, v1 - v0))
    }
}

/// Zero-crossing parameter between two sampled values, in `[0, SCALE]`,
/// resolving coinciding values to the first endpoint.
pub fn interp_t0(v0: i64, v1: i64) -> (r: i64)
    requires
        abs_sp(v0 as int) <= COORD_LIMIT,
        abs_sp(v1 as int) <= COORD_LIMIT,
    ensures
        r == interp_t0_sp(v0 as int, v1 as int),
        0 <= r <= SCALE,
{
    if v0 == v1 {
        return 0;
    }
    let t: i64 = interp_t(v0, v1);
    t
}

/// A fixed-point factor of magnitude at most `SCALE` shrinks what it scales.
pub proof fn lemma_scale_keeps_bound(t: int, s: int)
    requires
        abs_sp(t) <= SCALE,
        abs_sp(s) <= MUL_LIMIT,
    ensures
        abs_sp(mul_fx_sp(t, s)) <= abs_sp(s),
{
    assert(abs_sp(t * s) == abs_sp(t) * abs_sp(s)) by (nonlinear_arith);
    assert(abs_sp(t) * abs_sp(s) <= SCALE * abs_sp(s)) by (nonlinear_arith)
        requires
            0 <= abs_sp(t) <= SCALE,
            0 <= abs_sp(s),
    ;
    lemma_tdiv_bound(t * s, SCALE as int);
    lemma_div_ordered(abs_sp(t * s), SCALE * abs_sp(s), SCALE as int);
    vstd::arithmetic::div_mod::lemma_div_multiples_vanish(abs_sp(s), SCALE as int);
}

/// Scaling a nonnegative value by a factor in `[0, SCALE]` lands between zero
/// and the value.
pub proof fn lemma_unit_scale_range(t: int, s: int)
    requires
        0 <= t <= SCALE,
        0 <= s <= MUL_LIMIT,
    ensures
        0 <= mul_fx_sp(t, s) <= s,
{
    assert(0 <= t * s) by (nonlinear_arith)
        requires
            0 <= t,
            0 <= s,
    ;
    lemma_tdiv_bound(t * s, SCALE as int);
    lemma_scale_keeps_bound(t, s);
}

/// Scaling a sample index by a nonnegative step keeps the offset within the
/// full span.
pub proof fn lemma_step_span(i: int, g: int, s: int, span: int)
    requires
        0 <= i <= g,
        0 <= s,
        g * s <= span,
    ensures
        0 <= i * s <= span,
{
    assert(0 <= i * s <= g * s) by (nonlinear_arith)
        requires
            0 <= i <= g,
            0 <= s,
    ;
}

/// `r` is the floor of the square root of `x`.
pub open spec fn is_sqrt_floor(r: int, x: int) -> bool {
    0 <= r && r * r <= x < (r + 1) * (r + 1)
}

/// The floor of the square root, as a spec-level function.
pub open spec fn sqrt_sp(x: int) -> int {
    choose|r: int| is_sqrt_floor(r, x)
}

/// The floor of a square root is unique, so a value satisfying
/// `is_sqrt_floor` is `sqrt_sp`.
pub proof fn lemma_sqrt_sp(r: int, x: int)
    requires
        is_sqrt_floor(r, x),
    ensures
        r == sqrt_sp(x),
{
    let w = sqrt_sp(x);
    assert(is_sqrt_floor(w, x));
    assert(w == r) by (nonlinear_arith)
        requires
            is_sqrt_floor(w, x),
            is_sqrt_floor(r, x),
    ;
}

/// A square below `x` has its root below the root of `x`.
pub proof fn lemma_sqrt_lower(a: int, x: int, r: int)
    requires
        0 <= a,
        a * a <= x,
        is_sqrt_floor(r, x),
    ensures
        a <= r,
{
    assert(a <= r) by (nonlinear_arith)
        requires
            0 <= a,
            a * a <= x,
            is_sqrt_floor(r, x),
    ;
}

/// Integer square root: the largest `r` with `r * r <= x`.
pub fn isqrt_u128(x: u128) -> (r: u64)
    ensures
        (r as int) * (r as int) <= x as int,
        (x as int) < ((r as int) + 1) * ((r as int) + 1),
        r == sqrt_sp(x as int),
{
    let mut lo: u128 = 0;
    let mut hi: u128 = 18446744073709551616;
    proof {
        assert((x as int) < (hi as int) * (hi as int)) by (nonlinear_arith)
            requires
                hi == 18446744073709551616u128,
                x <= u128::MAX,
        ;
    }
    while hi - lo > 1
        invariant
            0 <= lo < hi <= 18446744073709551616,
            (lo as int) * (lo as int) <= x as int,
            (x as int) < (hi as int) * (hi as int),
        decreases hi - lo,
    {
        let mid: u128 = lo + (hi - lo) / 2;
        proof {
            assert(mid * mid <= u128::MAX) by (nonlinear_arith)
                requires
                    0 <= mid < 18446744073709551616u128,
            ;
        }
        if mid * mid <= x {
            lo = mid;
        } else {
            hi = mid;
        }
    }
    proof {
        lemma_sqrt_sp(lo as int, x as int);
    }
    lo as u64
}

/// Truncating division by a positive divisor.
pub fn div_trunc(a: i64, d: i64) -> (r: i64)
    requires
        0 < d,
        a != i64::MIN,
    ensures
        r == tdiv(a as int, d as int),
        abs_sp(r as int) <= abs_sp(a as int),
{
    let neg: bool = a < 0;
    let mag: u64 = if a < 0 {
        (-a) as u64
    } else {
        a as u64
    };
    let q: u64 = mag / (d as u64);
    proof {
        lemma_tdiv_bound(a as int, d as int);
    }
    if neg {
        -(q as i64)
    } else {
        q as i64
    }
}

/// One full turn, in ticks: 2 pi at `SCALE`.
pub const TAU_FX: i64 = 6746518852;

/// Half a turn, in ticks: pi at `SCALE`.
pub const PI_FX: i64 = 3373259426;

/// One step of the Taylor evaluation: add the pending terms in, then scale
/// each by `x^2` over the next factorial divisors. Returns the accumulators
/// after all remaining steps.
pub open spec fn trig_iter_sp(xx: int, st: int, ct: int, sa: int, ca: int, k: int) -> (
    int,
    int,
)
    decreases 8 - k,
{
    if k < 1 || k >= 8 {
        (sa, ca)
    } else {
        trig_iter_sp(
            xx,
            -tdiv(mul_fx_sp(st, xx), (2 * k + 2) * (2 * k + 3)),
            -tdiv(mul_fx_sp(ct, xx), (2 * k + 1) * (2 * k + 2)),
            sa + st,
            ca + ct,
            k + 1,
        )
    }
}

/// The sine and cosine the fixed-point evaluator computes: the angle reduced
/// around half a turn, eight Taylor terms each, the results negated back and
/// clamped into one unit.
pub open spec fn sin_cos_sp(theta: int) -> (int, int) {
    let x = theta - PI_FX;
    let xx = mul_fx_sp(x, x);
    let x3 = mul_fx_sp(x, xx);
    let fin = trig_iter_sp(xx, -tdiv(x3, 6), -tdiv(xx, 2), x, SCALE as int, 1);
    (clamp_one_sp(-fin.0), clamp_one_sp(-fin.1))
}

/// Sine and cosine of an angle in `[0, TAU_FX]`, in fixed point, by a
/// Taylor series after reduction around half a turn; the results are
/// clamped into one fixed-point unit.
pub fn sin_cos_fx(theta: i64) -> (r: (i64, i64))
    requires
        0 <= theta <= TAU_FX,
    ensures
        r.0 == sin_cos_sp(theta as int).0,
        r.1 == sin_cos_sp(theta as int).1,
        abs_sp(r.0 as int) <= SCALE,
        abs_sp(r.1 as int) <= SCALE,
{
    // x in [-pi, pi]; sin(theta) = -sin(x), cos(theta) = -cos(x).
    let x: i64 = theta - PI_FX;
    proof {
        lemma_mul_fx_magnitude(x as int, x as int, 3373259427, 3373259427);
    }
    let xx: i64 = mul_fx(x, x);
    proof {
        assert(abs_sp(xx as int) <= 11 * SCALE);
        lemma_mul_fx_magnitude(x as int, xx as int, 4 * SCALE, 11 * SCALE);
    }
    let x3: i64 = mul_fx(x, xx);
    proof {
        lemma_tdiv_bound(x3 as int, 6);
        lemma_div_ordered(abs_sp(x3 as int), 44 * (SCALE as int), 6);
        lemma_tdiv_bound(xx as int, 2);
        lemma_div_ordered(abs_sp(xx as int), 11 * (SCALE as int), 2);
    }
    let mut sin_acc: i64 = x;
    let mut sin_term: i64 = -div_trunc(x3, 6);
    let mut cos_acc: i64 = SCALE;
    let mut cos_term: i64 = -div_trunc(xx, 2);
    let ghost fin = trig_iter_sp(
        xx as int,
        sin_term as int,
        cos_term as int,
        sin_acc as int,
        cos_acc as int,
        1,
    );
    let mut k: u64 = 1;
    while k < 8
        invariant
            abs_sp(xx as int) <= 11 * SCALE,
            abs_sp(sin_term as int) <= 8 * SCALE,
            abs_sp(cos_term as int) <= 8 * SCALE,
            abs_sp(sin_acc as int) <= (6 + 8 * k) * (SCALE as int),
            abs_sp(cos_acc as int) <= (6 + 8 * k) * (SCALE as int),
            1 <= k <= 8,
            trig_iter_sp(
                xx as int,
                sin_term as int,
                cos_term as int,
                sin_acc as int,
                cos_acc as int,
                k as int,
            ) == fin,
        decreases 8 - k,
    {
        sin_acc = sin_acc + sin_term;
        cos_acc = cos_acc + cos_term;
        proof {
            assert(20 <= (2 * (k as int) + 2) * (2 * (k as int) + 3) <= 272 && 12 <= (2 * (
            k as int) + 1) * (2 * (k as int) + 2) <= 272) by (nonlinear_arith)
                requires
                    1 <= k as int <= 7,
            ;
        }
        let ds: i64 = ((2 * k + 2) * (2 * k + 3)) as i64;
        let dc: i64 = ((2 * k + 1) * (2 * k + 2)) as i64;
        proof {
            lemma_mul_fx_magnitude(sin_term as int, xx as int, 8 * SCALE, 11 * SCALE);
            lemma_mul_fx_magnitude(cos_term as int, xx as int, 8 * SCALE, 11 * SCALE);
        }
        let st: i64 = mul_fx(sin_term, xx);
        let ct: i64 = mul_fx(cos_term, xx);
        proof {
            assert((8 * (SCALE as int)) * (11 * (SCALE as int)) / (SCALE as int) == 88 * (
            SCALE as int)) by (nonlinear_arith);
            lemma_tdiv_bound(st as int, ds as int);
            lemma_div_ordered(abs_sp(st as int), 88 * (SCALE as int), ds as int);
            vstd::arithmetic::div_mod::lemma_div_is_ordered_by_denominator(
                88 * (SCALE as int),
                20,
                ds as int,
            );
            lemma_tdiv_bound(ct as int, dc as int);
            lemma_div_ordered(abs_sp(ct as int), 88 * (SCALE as int), dc as int);
            vstd::arithmetic::div_mod::lemma_div_is_ordered_by_denominator(
                88 * (SCALE as int),
                12,
                dc as int,
            );
        }
        sin_term = -div_trunc(st, ds);
        cos_term = -div_trunc(ct, dc);
        k = k + 1;
    }
    proof {
        assert(sin_acc as int == fin.0 && cos_acc as int == fin.1);
    }
    let s: i64 = clamp_unit(-sin_acc);
    let c: i64 = clamp_unit(-cos_acc);
    (s, c)
}

/// The magnitude of a fixed-point product is bounded by the product of the
/// factors' bounds, scaled down.
pub proof fn lemma_mul_fx_magnitude(a: int, b: int, ba: int, bb: int)
    requires
        abs_sp(a) <= ba,
        abs_sp(b) <= bb,
        0 <= ba,
        0 <= bb,
    ensures
        abs_sp(mul_fx_sp(a, b)) <= ba * bb / (SCALE as int),
{
    assert(abs_sp(a * b) == abs_sp(a) * abs_sp(b) && abs_sp(a) * abs_sp(b) <= ba * bb)
        by (nonlinear_arith)
        requires
            0 <= abs_sp(a) <= ba,
            0 <= abs_sp(b) <= bb,
    ;
    lemma_tdiv_bound(a * b, SCALE as int);
    lemma_div_ordered(abs_sp(a * b), ba * bb, SCALE as int);
}

/// Clamp a value into one fixed-point unit either way.
pub open spec fn clamp_one_sp(v: int) -> int {
    if v < -SCALE {
        -SCALE as int
    } else if v > SCALE {
        SCALE as int
    } else {
        v
    }
}

/// Clamp a value into one fixed-point unit either way.
pub fn clamp_unit(v: i64) -> (r: i64)
    ensures
        r == clamp_one_sp(v as int),
        abs_sp(r as int) <= SCALE,
        -SCALE <= v <= SCALE ==> r == v,
{
    if v < -SCALE {
        -SCALE
    } else if v > SCALE {
        SCALE
    } else {
        v
    }
}

/// The component `num` of a vector of length `len`, scaled to a unit vector's
/// component in fixed point: `num * SCALE / len`, truncated toward zero.
pub fn unit_ratio(num: i64, len: u64) -> (r: i64)
    requires
        0 < len,
        abs_sp(num as int) <= len,
    ensures
        r == tdiv(num as int * SCALE, len as int),
        abs_sp(r as int) <= SCALE,
{
    let neg: bool = num < 0;
    proof {
        assert(abs_sp(num as int * SCALE) == abs_sp(num as int) * SCALE) by (nonlinear_arith);
    }
    let mag: u128 = abs128_u128(num as i128) * (SCALE as u128);
    let q: u128 = mag / (len as u128);
    proof {
        assert(abs_sp(num as int) * SCALE <= len as int * SCALE) by (nonlinear_arith)
            requires
                0 <= abs_sp(num as int) <= len as int,
                0 < len as int,
        ;
        lemma_div_ordered(mag as int, len as int * SCALE, len as int);
        vstd::arithmetic::mul::lemma_mul_is_commutative(len as int, SCALE as int);
        vstd::arithmetic::div_mod::lemma_div_multiples_vanish(SCALE as int, len as int);
    }
    if neg {
        -(q as i64)
    } else {
        q as i64
    }
}

} // verus!
