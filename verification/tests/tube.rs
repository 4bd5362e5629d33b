use tessera::d3::parametric_curve::{ParametricCurveSolver, CURVE_EPS};
use tessera::sample::Sample3;

const S: i64 = 1073741824;

fn fx(v: f64) -> i64 {
    (v * S as f64) as i64
}

fn fl(t: i64) -> f64 {
    t as f64 / S as f64
}

fn helix(t: i64) -> Sample3 {
    let tv = fl(t);
    Sample3 { finite: true, x: fx(tv.cos()), y: fx(tv.sin()), z: fx(0.2 * tv) }
}

#[test]
fn tube_degenerate_domain_is_empty() {
    let f = |t: i64| helix(t);
    let m = ParametricCurveSolver::solve(&f, (fx(1.0), fx(1.0)), fx(0.1), 8, 16);
    assert_eq!(m.vertices.len(), 0);
    assert_eq!(m.indices.len(), 0);
}

#[test]
fn tube_counts_and_indices() {
    let f = |t: i64| helix(t);
    let tube_segments = 8u32;
    let path_segments = 16u32;
    let m = ParametricCurveSolver::solve(
        &f,
        (fx(0.0), fx(6.0)),
        fx(0.1),
        tube_segments,
        path_segments,
    );
    assert_eq!(
        m.vertices.len(),
        ((path_segments + 1) * (tube_segments + 1)) as usize
    );
    assert_eq!(m.indices.len(), (6 * path_segments * tube_segments) as usize);
    for &i in &m.indices {
        assert!((i as usize) < m.vertices.len());
    }
    // ring centers follow the helix within the tube radius plus rounding
    for (k, v) in m.vertices.iter().enumerate() {
        let ring = k / (tube_segments as usize + 1);
        let t = fx(0.0) + (ring as i64) * ((fx(6.0) - fx(0.0)) / path_segments as i64);
        let c = helix(t);
        let d = ((fl(v.x) - fl(c.x)).powi(2) + (fl(v.y) - fl(c.y)).powi(2) + (fl(v.z) - fl(
            c.z,
        ))
            .powi(2))
            .sqrt();
        assert!((d - 0.1).abs() < 0.01, "ring vertex at distance {} from center", d);
    }
}

#[test]
fn tube_cross_sections_are_perpendicular_to_tangent() {
    let f = |t: i64| helix(t);
    let tube_segments = 12u32;
    let path_segments = 20u32;
    let t0 = fx(0.0);
    let t1 = fx(6.0);
    let m = ParametricCurveSolver::solve(&f, (t0, t1), fx(0.1), tube_segments, path_segments);
    let step = (t1 - t0) / path_segments as i64;
    for ring in 0..=(path_segments as usize) {
        // the mesher's tangent at this ring: the forward difference it uses
        let t = t0 + (ring as i64) * step;
        let p = helix(t);
        let pn = helix(t + CURVE_EPS);
        let (dx, dy, dz) = (fl(pn.x - p.x), fl(pn.y - p.y), fl(pn.z - p.z));
        let len = (dx * dx + dy * dy + dz * dz).sqrt();
        assert!(len > 0.0);
        let (tx, ty, tz) = (dx / len, dy / len, dz / len);
        for j in 0..=(tube_segments as usize) {
            let v = &m.vertices[ring * (tube_segments as usize + 1) + j];
            let (nx, ny, nz) = (fl(v.nx), fl(v.ny), fl(v.nz));
            let dot = nx * tx + ny * ty + nz * tz;
            assert!(
                dot.abs() < 1e-6,
                "ring {} vertex {} normal leans along the tangent: {}",
                ring,
                j,
                dot
            );
        }
    }
}
