use tessera::fixed::{
    clamp_coord, interp_t, interp_t0, isqrt_u128, mul_fx, sin_cos_fx, COORD_LIMIT,
    HALF_SCALE, SCALE, TAU_FX,
};

const S: i64 = 1073741824;

#[test]
fn mul_fx_exact_values() {
    assert_eq!(mul_fx(S, S), S);
    assert_eq!(mul_fx(2 * S, 3 * S), 6 * S);
    assert_eq!(mul_fx(-2 * S, 3 * S), -6 * S);
    assert_eq!(mul_fx(S / 2, S / 2), S / 4);
    assert_eq!(mul_fx(0, 12345), 0);
    // truncation toward zero
    assert_eq!(mul_fx(1, 1), 0);
    assert_eq!(mul_fx(-1, 1), 0);
}

#[test]
fn isqrt_exact_values() {
    assert_eq!(isqrt_u128(0), 0);
    assert_eq!(isqrt_u128(1), 1);
    assert_eq!(isqrt_u128(3), 1);
    assert_eq!(isqrt_u128(4), 2);
    assert_eq!(isqrt_u128(1000000), 1000);
    assert_eq!(isqrt_u128(999999), 999);
    let big: u128 = (1u128 << 64) - 1;
    let r = isqrt_u128(big * big);
    assert_eq!(r as u128, big);
}

#[test]
fn interp_t_values() {
    // equal values resolve to the midpoint
    assert_eq!(interp_t(5, 5), HALF_SCALE);
    // -1 .. 1 crosses in the middle
    assert_eq!(interp_t(-S, S), HALF_SCALE);
    // -1 .. 3 crosses at one quarter
    assert_eq!(interp_t(-S, 3 * S), S / 4);
    // clamped when the crossing falls outside the segment
    assert_eq!(interp_t(S, 2 * S), 0);
    assert_eq!(interp_t(-2 * S, -S), S);
}

#[test]
fn interp_t0_first_corner_sentinel() {
    // the surface solver's variant resolves coinciding values to the first
    // corner
    assert_eq!(interp_t0(5, 5), 0);
    assert_eq!(interp_t0(-S, S), HALF_SCALE);
    assert_eq!(interp_t0(-S, 3 * S), S / 4);
    assert_eq!(interp_t0(-2 * S, -S), S);
}

#[test]
fn clamp_coord_saturates() {
    assert_eq!(clamp_coord(i64::MAX), COORD_LIMIT);
    assert_eq!(clamp_coord(i64::MIN), -COORD_LIMIT);
    assert_eq!(clamp_coord(42), 42);
}

#[test]
fn sin_cos_matches_float() {
    let n = 64;
    for j in 0..=n {
        let theta_fx: i64 = ((TAU_FX as i128) * (j as i128) / (n as i128)) as i64;
        let (s, c) = sin_cos_fx(theta_fx);
        let theta = theta_fx as f64 / SCALE as f64;
        let sf = s as f64 / SCALE as f64;
        let cf = c as f64 / SCALE as f64;
        assert!((sf - theta.sin()).abs() < 1e-5, "sin at {}: {} vs {}", theta, sf, theta.sin());
        assert!((cf - theta.cos()).abs() < 1e-5, "cos at {}: {} vs {}", theta, cf, theta.cos());
    }
}
