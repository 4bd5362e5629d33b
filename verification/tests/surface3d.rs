use tessera::d3::mesh::MeshData;
use tessera::sample::Sample3;

const S: i64 = 1073741824;

fn fx(v: f64) -> i64 {
    (v * S as f64) as i64
}

fn fl(t: i64) -> f64 {
    t as f64 / S as f64
}

fn sample3_of(x: f64, y: f64, z: f64) -> Sample3 {
    Sample3 {
        finite: x.is_finite() && y.is_finite() && z.is_finite(),
        x: fx(x),
        y: fx(y),
        z: fx(z),
    }
}

#[test]
fn surface_degenerate_domain_is_empty() {
    let f = |u: i64, v: i64| sample3_of(fl(u), fl(v), 0.0);
    let m = MeshData::new_parametric_surface(f, (fx(1.0), fx(1.0)), (fx(0.0), fx(1.0)), 4, 4);
    assert_eq!(m.vertices.len(), 0);
    assert_eq!(m.indices.len(), 0);
    let m2 = MeshData::new_parametric_surface(f, (fx(0.0), fx(1.0)), (fx(0.0), fx(1.0)), 0, 4);
    assert_eq!(m2.vertices.len(), 0);
    assert_eq!(m2.indices.len(), 0);
}

#[test]
fn surface_full_plane_grid() {
    let f = |u: i64, v: i64| sample3_of(fl(u), fl(v), 0.0);
    let m = MeshData::new_parametric_surface(f, (fx(0.0), fx(1.0)), (fx(0.0), fx(1.0)), 4, 4);
    assert_eq!(m.vertices.len(), 25);
    // every cell contributes both triangles
    assert_eq!(m.indices.len(), 6 * 16);
    for &i in &m.indices {
        assert!((i as usize) < m.vertices.len());
    }
    // the plane's normals point along +z
    for v in &m.vertices {
        assert!(fl(v.nz) > 0.9, "normal not along +z");
    }
}

#[test]
fn surface_one_invalid_sample_removes_exactly_incident_triangles() {
    // 4 x 4 cells; the sample at grid point (2, 2) is undefined. The u step
    // in fixed point is (1.0 - 0.0) / 4 exactly.
    let ustep: i64 = fx(1.0) / 4;
    let bad_u: i64 = 2 * ustep;
    let bad_v: i64 = 2 * ustep;
    let f = move |u: i64, v: i64| {
        if u == bad_u && v == bad_v {
            sample3_of(f64::NAN, 0.0, 0.0)
        } else {
            sample3_of(fl(u), fl(v), 0.0)
        }
    };
    let m = MeshData::new_parametric_surface(f, (fx(0.0), fx(1.0)), (fx(0.0), fx(1.0)), 4, 4);
    assert_eq!(m.vertices.len(), 25);
    // grid vertex (2, 2) has flat index 2 * 5 + 2 = 12; six of the thirty-two
    // triangles touch it, and exactly those are absent
    let bad_index: u32 = 12;
    assert_eq!(m.indices.len(), 6 * 16 - 6 * 3);
    for &i in &m.indices {
        assert_ne!(i, bad_index, "a triangle references the invalid sample");
        assert!((i as usize) < m.vertices.len());
    }
}

#[test]
fn surface_long_edges_are_trimmed() {
    // a step function: a jump of 100 world units splits the sheet; the jump
    // threshold is 10 world units
    let f = |u: i64, v: i64| {
        let z = if fl(u) > 0.5 { 100.0 } else { 0.0 };
        sample3_of(fl(u), fl(v), z)
    };
    let m = MeshData::new_parametric_surface(f, (fx(0.0), fx(1.0)), (fx(0.0), fx(1.0)), 4, 4);
    assert_eq!(m.vertices.len(), 25);
    assert!(m.indices.len() < 6 * 16, "no triangle was trimmed across the jump");
    assert!(m.indices.len() > 0);
}

#[test]
fn axes_and_plane_are_exact() {
    let axes = MeshData::new_axes(fx(2.0));
    assert_eq!(axes.vertices.len(), 4);
    assert_eq!(axes.indices, vec![0, 1, 0, 2, 0, 3]);
    assert_eq!(axes.vertices[1].x, fx(2.0));
    assert_eq!(axes.vertices[2].y, fx(2.0));
    assert_eq!(axes.vertices[3].z, fx(2.0));

    let plane = MeshData::new_plane(fx(2.0));
    assert_eq!(plane.vertices.len(), 4);
    assert_eq!(plane.indices, vec![0, 1, 2, 0, 2, 3]);
    assert_eq!(plane.vertices[2].x, fx(1.0));
    assert_eq!(plane.vertices[2].y, fx(1.0));
    for v in &plane.vertices {
        assert_eq!(v.nz, S);
    }
}
