use tessera::d2::explicit::ExplicitSolver;
use tessera::d2::implicit::ImplicitSolver;
use tessera::d2::parametric::ParametricSolver;
use tessera::sample::{Sample, Sample2};

const S: i64 = 1073741824;

fn fx(v: f64) -> i64 {
    (v * S as f64) as i64
}

fn fl(t: i64) -> f64 {
    t as f64 / S as f64
}

fn sample_of(v: f64) -> Sample {
    Sample { finite: v.is_finite(), v: fx(v) }
}

fn sample2_of(x: f64, y: f64) -> Sample2 {
    Sample2 { finite: x.is_finite() && y.is_finite(), x: fx(x), y: fx(y) }
}

#[test]
fn explicit_degenerate_domain_is_empty() {
    let solver = ExplicitSolver::new();
    let f = |x: i64| sample_of(fl(x));
    // empty and reversed ranges
    assert_eq!(solver.solve(&f, (fx(1.0), fx(1.0)), fx(2.0), S, 800, 800 * S).len(), 0);
    assert_eq!(solver.solve(&f, (fx(1.0), fx(-1.0)), fx(2.0), S, 800, 800 * S).len(), 0);
    // zero screen width
    assert_eq!(solver.solve(&f, (fx(-1.0), fx(1.0)), fx(2.0), S, 0, 800 * S).len(), 0);
    // zero screen height
    assert_eq!(solver.solve(&f, (fx(-1.0), fx(1.0)), fx(2.0), S, 800, 0).len(), 0);
}

#[test]
fn explicit_line_fills_every_segment() {
    let solver = ExplicitSolver::new();
    let f = |x: i64| sample_of(fl(x));
    let verts = solver.solve(&f, (fx(-1.0), fx(1.0)), fx(2.0), S, 200, 800 * S);
    // 200 pixels at one sample per pixel: 200 segments, one quad each
    assert_eq!(verts.len(), 200 * 6);
    // the ribbon follows y = x
    for v in &verts {
        assert!((fl(v.y) - fl(v.x)).abs() < 0.01, "vertex off the line");
    }
}

#[test]
fn explicit_non_finite_samples_break_ribbon() {
    let solver = ExplicitSolver::new();
    // undefined left half
    let f = |x: i64| {
        let xv = fl(x);
        if xv < 0.0 {
            sample_of(f64::NAN)
        } else {
            sample_of(1.0)
        }
    };
    let verts = solver.solve(&f, (fx(-1.0), fx(1.0)), fx(2.0), S, 200, 800 * S);
    assert!(verts.len() > 0);
    assert!(verts.len() < 200 * 6);
    for v in &verts {
        assert!(fl(v.x) >= -0.02, "quad leaked into the undefined half");
    }
}

#[test]
fn explicit_tangent_pole_is_culled() {
    let solver = ExplicitSolver::new();
    let f = |x: i64| sample_of(fl(x).tan());
    // the range contains the pole at pi / 2; zoom 1 gives view height 2 and
    // jump threshold 20 world units
    let verts = solver.solve(&f, (fx(0.0), fx(3.141592653589793)), fx(2.0), S, 300, 800 * S);
    assert!(verts.len() > 0);
    assert_eq!(verts.len() % 6, 0);
    let jump_threshold = 20.0;
    let half_width = 0.5 * 2.0 * (2.0 / 800.0);
    let mut emitted = 0;
    for q in verts.chunks(6) {
        let mut lo = f64::INFINITY;
        let mut hi = f64::NEG_INFINITY;
        for v in q {
            let y = fl(v.y);
            if y < lo {
                lo = y;
            }
            if y > hi {
                hi = y;
            }
        }
        assert!(
            hi - lo <= jump_threshold + 2.0 * half_width + 1e-6,
            "a quad bridges the asymptote: extent {}",
            hi - lo
        );
        emitted += 1;
    }
    // at least one gap near the pole
    assert!(emitted < 300, "no segment was culled near the pole");
}

#[test]
fn implicit_degenerate_domain_is_empty() {
    let solver = ImplicitSolver::new();
    let f = |x: i64, y: i64| sample_of(fl(x) + fl(y));
    assert_eq!(
        solver.solve(&f, (fx(1.0), fx(1.0)), (fx(-1.0), fx(1.0)), 800, 800).len(),
        0
    );
    assert_eq!(
        solver.solve(&f, (fx(-1.0), fx(1.0)), (fx(-1.0), fx(1.0)), 0, 800).len(),
        0
    );
}

#[test]
fn implicit_circle_points_lie_near_circle() {
    let solver = ImplicitSolver::new();
    let f = |x: i64, y: i64| {
        let (xv, yv) = (fl(x), fl(y));
        sample_of(xv * xv + yv * yv - 1.0)
    };
    let verts = solver.solve(&f, (fx(-1.5), fx(1.5)), (fx(-1.5), fx(1.5)), 800, 800);
    assert!(verts.len() > 100, "too few crossing points: {}", verts.len());
    // grid resolution is clamp(800 / 2, 100, 700) = 400 cells per axis
    let grid_step = 3.0 / 400.0;
    for v in &verts {
        let r = (fl(v.x).powi(2) + fl(v.y).powi(2)).sqrt();
        assert!(
            (r - 1.0).abs() < 2.0 * grid_step,
            "point at radius {} is more than one cell from the circle",
            r
        );
    }
}

#[test]
fn parametric_degenerate_domain_is_empty() {
    let solver = ParametricSolver::new();
    let f = |t: i64| sample2_of(fl(t), fl(t));
    assert_eq!(solver.solve(&f, (fx(1.0), fx(1.0)), fx(2.0), S, S, 800 * S).len(), 0);
    assert_eq!(solver.solve(&f, (fx(2.0), fx(1.0)), fx(2.0), S, S, 800 * S).len(), 0);
    // zero screen height
    assert_eq!(solver.solve(&f, (fx(0.0), fx(1.0)), fx(2.0), S, S, 0).len(), 0);
}

#[test]
fn parametric_circle_ribbon() {
    let solver = ParametricSolver::new();
    let f = |t: i64| {
        let tv = fl(t);
        sample2_of(tv.cos(), tv.sin())
    };
    let verts = solver.solve(
        &f,
        (fx(0.0), fx(6.283185307179586)),
        fx(2.0),
        S,
        S,
        800 * S,
    );
    assert!(verts.len() > 0);
    assert_eq!(verts.len() % 6, 0);
    let half_width = 0.5 * 2.0 * (2.0 / 800.0);
    for v in &verts {
        let r = (fl(v.x).powi(2) + fl(v.y).powi(2)).sqrt();
        assert!((r - 1.0).abs() <= half_width + 0.02, "ribbon off the circle: {}", r);
    }
}

#[test]
fn parametric_duplicate_points_are_skipped() {
    let solver = ParametricSolver::new();
    // a constant curve: every adjacent pair coincides
    let f = |_t: i64| sample2_of(0.25, 0.25);
    let verts = solver.solve(&f, (fx(0.0), fx(10.0)), fx(2.0), S, S, 800 * S);
    assert_eq!(verts.len(), 0);
}
