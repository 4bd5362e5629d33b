use tessera::d3::implicit_data::McTables;
use tessera::d3::implicit_surface::ImplicitSurfaceSolver;
use tessera::sample::Sample;

const S: i64 = 1073741824;

fn fx(v: f64) -> i64 {
    (v * S as f64) as i64
}

fn fl(t: i64) -> f64 {
    t as f64 / S as f64
}

fn sample_of(v: f64) -> Sample {
    Sample { finite: v.is_finite(), v: fx(v) }
}

#[test]
fn tables_are_consistent() {
    let t = McTables::new();
    assert_eq!(t.edge.len(), 256);
    assert_eq!(t.tri.len(), 4096);
    // no crossings when all corners agree
    assert_eq!(t.edge[0], 0);
    assert_eq!(t.edge[255], 0);
    // complementary configurations cross the same edges
    for ci in 0..256usize {
        assert_eq!(t.edge[ci], t.edge[255 - ci]);
    }
    // the edge endpoints of the classic layout
    let ca = [0usize, 1, 2, 3, 4, 5, 6, 7, 0, 1, 2, 3];
    let cb = [1usize, 2, 3, 0, 5, 6, 7, 4, 4, 5, 6, 7];
    for ci in 0..256usize {
        // each row lists whole triangles before the sentinel, and its edges
        // are exactly the mask's edges
        let row = &t.tri[ci * 16..ci * 16 + 16];
        let stop = row.iter().position(|&e| e == -1).unwrap_or(16);
        assert_eq!(stop % 3, 0, "row {} not whole triangles", ci);
        for k in stop..16 {
            assert_eq!(row[k], -1, "row {} resumes after the sentinel", ci);
        }
        let mut mask: u16 = 0;
        for k in 0..stop {
            let e = row[k];
            assert!(e >= 0 && e < 12, "row {} lists a bad edge {}", ci, e);
            mask |= 1 << (e as u16);
        }
        assert_eq!(mask, t.edge[ci], "row {} disagrees with its mask", ci);
        // every listed edge really crosses: its corners' bits differ
        for k in 0..stop {
            let e = row[k] as usize;
            let ba = (ci >> ca[e]) & 1;
            let bb = (ci >> cb[e]) & 1;
            assert_ne!(ba, bb, "row {} edge {} does not cross", ci, e);
        }
    }
}

#[test]
fn degenerate_domain_is_empty() {
    let f = |x: i64, y: i64, z: i64| sample_of(fl(x) + fl(y) + fl(z));
    let m = ImplicitSurfaceSolver::solve(
        &f,
        (fx(1.0), fx(1.0)),
        (fx(-1.0), fx(1.0)),
        (fx(-1.0), fx(1.0)),
        8,
    );
    assert_eq!(m.vertices.len(), 0);
    assert_eq!(m.indices.len(), 0);
    let m2 = ImplicitSurfaceSolver::solve(
        &f,
        (fx(-1.0), fx(1.0)),
        (fx(-1.0), fx(1.0)),
        (fx(-1.0), fx(1.0)),
        0,
    );
    assert_eq!(m2.vertices.len(), 0);
}

#[test]
fn uniform_field_yields_no_surface() {
    let f = |_x: i64, _y: i64, _z: i64| sample_of(1.0);
    let m = ImplicitSurfaceSolver::solve(
        &f,
        (fx(-1.0), fx(1.0)),
        (fx(-1.0), fx(1.0)),
        (fx(-1.0), fx(1.0)),
        10,
    );
    assert_eq!(m.vertices.len(), 0);
    assert_eq!(m.indices.len(), 0);
}

#[test]
fn sphere_mesh_volume_and_radius() {
    let f = |x: i64, y: i64, z: i64| {
        let (xv, yv, zv) = (fl(x), fl(y), fl(z));
        sample_of(xv * xv + yv * yv + zv * zv - 1.0)
    };
    let m = ImplicitSurfaceSolver::solve(
        &f,
        (fx(-1.5), fx(1.5)),
        (fx(-1.5), fx(1.5)),
        (fx(-1.5), fx(1.5)),
        40,
    );
    assert!(m.indices.len() > 0);
    assert_eq!(m.indices.len() % 3, 0);
    assert_eq!(m.indices.len(), m.vertices.len());
    // every vertex close to the unit sphere
    for v in &m.vertices {
        let r = (fl(v.x).powi(2) + fl(v.y).powi(2) + fl(v.z).powi(2)).sqrt();
        assert!((r - 1.0).abs() < 0.1, "vertex at radius {}", r);
        // normals are unit scale or shorter
        let nl = (fl(v.nx).powi(2) + fl(v.ny).powi(2) + fl(v.nz).powi(2)).sqrt();
        assert!(nl < 1.8, "oversized normal {}", nl);
    }
    // enclosed volume by signed tetrahedra from the origin
    let mut vol = 0.0f64;
    for tri in m.indices.chunks(3) {
        let a = &m.vertices[tri[0] as usize];
        let b = &m.vertices[tri[1] as usize];
        let c = &m.vertices[tri[2] as usize];
        let (ax, ay, az) = (fl(a.x), fl(a.y), fl(a.z));
        let (bx, by, bz) = (fl(b.x), fl(b.y), fl(b.z));
        let (cx, cy, cz) = (fl(c.x), fl(c.y), fl(c.z));
        let det = ax * (by * cz - bz * cy) - ay * (bx * cz - bz * cx) + az * (bx * cy - by * cx);
        vol += det / 6.0;
    }
    let vol = vol.abs();
    let ideal = 4.0 / 3.0 * std::f64::consts::PI;
    assert!(
        (vol - ideal).abs() / ideal < 0.05,
        "sphere volume {} differs from {} by more than 5%",
        vol,
        ideal
    );
}

#[test]
fn non_finite_region_is_skipped() {
    // undefined on the x < 0 half; the sphere's other half still meshes
    let f = |x: i64, y: i64, z: i64| {
        let (xv, yv, zv) = (fl(x), fl(y), fl(z));
        if xv < -0.2 {
            sample_of(f64::NAN)
        } else {
            sample_of(xv * xv + yv * yv + zv * zv - 1.0)
        }
    };
    let m = ImplicitSurfaceSolver::solve(
        &f,
        (fx(-1.5), fx(1.5)),
        (fx(-1.5), fx(1.5)),
        (fx(-1.5), fx(1.5)),
        16,
    );
    assert!(m.vertices.len() > 0);
    for v in &m.vertices {
        assert!(fl(v.x) > -0.5, "a vertex sits inside the undefined region");
    }
}
